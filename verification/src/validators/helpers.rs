//! The texts by which accounts and representatives are known.

use cardano_serialization_lib as csl;
use vstd::prelude::*;

use crate::validators::certificate::{DRepView, LocalDRep};
use crate::validators::common::{CredentialView, LocalCredential, NetworkType};

verus! {

/// The number that stands for the network in an address.
pub open spec fn network_id(network: NetworkType) -> u8 {
    match network {
        NetworkType::Mainnet => 1,
        NetworkType::Preview | NetworkType::Preprod => 0,
    }
}

/// The bech32 text of the reward address of a credential on a network.
pub uninterp spec fn reward_address_text(network_id: u8, credential: CredentialView) -> Seq<char>;

/// The bech32 text, in the format of CIP-129, of a representative that acts by a
/// key or a script.
pub uninterp spec fn drep_text(drep: DRepView) -> Seq<char>;

/// `RewardAddress::new` with the credential, and `Address::to_bech32` on it, with
/// the prefix that follows from the network: the text depends on the network
/// number and the credential alone.
#[verifier::external_body]
fn reward_address_bech32(network_id: u8, credential: &LocalCredential) -> (text: String)
    requires
        credential@.wf(),
    ensures
        text@ == reward_address_text(network_id, credential@),
{
    let credential = match credential {
        LocalCredential::KeyHash(hash) => csl::Credential::from_keyhash(
            &csl::Ed25519KeyHash::from_bytes(hash.clone()).unwrap(),
        ),
        LocalCredential::ScriptHash(hash) => csl::Credential::from_scripthash(
            &csl::ScriptHash::from_bytes(hash.clone()).unwrap(),
        ),
    };
    csl::RewardAddress::new(network_id, &credential).to_address().to_bech32(None).unwrap()
}

/// `DRep::to_bech32` in the format of CIP-129: a text for a key or a script, an
/// error for a standing vote.
#[verifier::external_body]
fn drep_bech32(drep: &LocalDRep) -> (text: Option<String>)
    requires
        drep@.wf(),
    ensures
        match text {
            Some(text) => (drep@ is KeyHash || drep@ is ScriptHash) && text@ == drep_text(drep@),
            None => drep@ is AlwaysAbstain || drep@ is AlwaysNoConfidence,
        },
{
    let drep = match drep {
        LocalDRep::KeyHash(hash) => csl::DRep::new_key_hash(
            &csl::Ed25519KeyHash::from_bytes(hash.clone()).unwrap(),
        ),
        LocalDRep::ScriptHash(hash) => csl::DRep::new_script_hash(
            &csl::ScriptHash::from_bytes(hash.clone()).unwrap(),
        ),
        LocalDRep::AlwaysAbstain => csl::DRep::new_always_abstain(),
        LocalDRep::AlwaysNoConfidence => csl::DRep::new_always_no_confidence(),
    };
    drep.to_bech32(true).ok()
}

/// The reward address of a credential on a network.
pub fn credential_to_bech32_reward_address(
    credential: &LocalCredential,
    network: &NetworkType,
) -> (address: String)
    requires
        credential@.wf(),
    ensures
        address@ == reward_address_text(network_id(*network), credential@),
{
    let id: u8 = match network {
        NetworkType::Mainnet => 1,
        NetworkType::Preview | NetworkType::Preprod => 0,
    };
    reward_address_bech32(id, credential)
}

/// The identifier of a representative; a standing vote has the empty one.
pub open spec fn drep_id(drep: DRepView) -> Seq<char> {
    match drep {
        DRepView::KeyHash(_) | DRepView::ScriptHash(_) => drep_text(drep),
        DRepView::AlwaysAbstain | DRepView::AlwaysNoConfidence => Seq::empty(),
    }
}

/// The identifier of a representative; a standing vote has the empty one.
pub fn drep_to_id(drep: &LocalDRep) -> (id: String)
    requires
        drep@.wf(),
    ensures
        id@ == drep_id(drep@),
{
    match drep_bech32(drep) {
        Some(text) => text,
        None => {
            proof {
                reveal_strlit("");
            }
            let id = "".to_owned();
            assert(id@ =~= Seq::<char>::empty());
            id
        },
    }
}

} // verus!
