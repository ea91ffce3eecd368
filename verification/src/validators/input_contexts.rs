//! What is known of the ledger when a transaction is checked.

use vstd::prelude::*;

use crate::validators::common::{CredentialView, LocalCredential, NetworkType};

verus! {

/// A stake account.
#[derive(Debug)]
pub struct AccountInputContext {
    pub bech32_address: String,
    pub is_registered: bool,
    pub balance: Option<u64>,
}

/// A stake pool.
#[derive(Debug)]
pub struct PoolInputContext {
    pub pool_id: String,
    pub is_registered: bool,
}

/// A representative.
#[derive(Debug)]
pub struct DRepInputContext {
    pub bech32_drep: String,
    pub is_registered: bool,
}

/// A member of the constitutional committee.
#[derive(Debug)]
pub struct CommitteeInputContext {
    pub committee_member_cold: LocalCredential,
    pub is_resigned: bool,
}

/// The protocol parameters that the checks read.
#[derive(Clone, Copy, Debug)]
pub struct ProtocolParameters {
    pub min_pool_cost: u64,
    pub max_epoch_for_pool_retirement: u32,
}

/// Everything that is known of the ledger.
#[derive(Debug)]
pub struct ValidationInputContext {
    pub account_contexts: Vec<AccountInputContext>,
    pub pool_contexts: Vec<PoolInputContext>,
    pub drep_contexts: Vec<DRepInputContext>,
    pub current_committee_members: Vec<CommitteeInputContext>,
    pub potential_committee_members: Vec<CommitteeInputContext>,
    pub protocol_parameters: ProtocolParameters,
    pub network_type: NetworkType,
    pub slot: u64,
}

/// The first account with that address.
pub open spec fn first_account(
    accounts: Seq<AccountInputContext>,
    address: Seq<char>,
) -> Option<AccountInputContext>
    decreases accounts.len(),
{
    if accounts.len() == 0 {
        None
    } else if accounts[0].bech32_address@ == address {
        Some(accounts[0])
    } else {
        first_account(accounts.drop_first(), address)
    }
}

/// The first committee member with that cold credential.
pub open spec fn first_member(
    members: Seq<CommitteeInputContext>,
    cold: CredentialView,
) -> Option<CommitteeInputContext>
    decreases members.len(),
{
    if members.len() == 0 {
        None
    } else if members[0].committee_member_cold@ == cold {
        Some(members[0])
    } else {
        first_member(members.drop_first(), cold)
    }
}

fn find_member<'a>(members: &'a Vec<CommitteeInputContext>, cold: &LocalCredential) -> (found:
    Option<&'a CommitteeInputContext>)
    ensures
        match found {
            Some(member) => first_member(members@, cold@) == Some(*member),
            None => first_member(members@, cold@) is None,
        },
{
    let mut i: usize = 0;
    assert(members@.skip(0) =~= members@);
    while i < members.len()
        invariant
            i <= members@.len(),
            first_member(members@.skip(i as int), cold@) == first_member(members@, cold@),
        decreases members@.len() - i,
    {
        assert(members@.skip(i as int)[0] == members@[i as int]);
        assert(members@.skip(i as int).drop_first() =~= members@.skip(i + 1));
        if members[i].committee_member_cold.same(cold) {
            return Some(&members[i]);
        }
        i = i + 1;
    }
    None
}

impl ValidationInputContext {
    /// The account with that address.
    pub fn find_account_context(&self, bech32_address: &String) -> (found: Option<
        &AccountInputContext,
    >)
        ensures
            match found {
                Some(account) => first_account(self.account_contexts@, bech32_address@) == Some(
                    *account,
                ),
                None => first_account(self.account_contexts@, bech32_address@) is None,
            },
    {
        let ghost accounts = self.account_contexts@;
        let mut i: usize = 0;
        assert(accounts.skip(0) =~= accounts);
        while i < self.account_contexts.len()
            invariant
                i <= accounts.len(),
                accounts == self.account_contexts@,
                first_account(accounts.skip(i as int), bech32_address@) == first_account(
                    accounts,
                    bech32_address@,
                ),
            decreases accounts.len() - i,
        {
            assert(accounts.skip(i as int)[0] == accounts[i as int]);
            assert(accounts.skip(i as int).drop_first() =~= accounts.skip(i + 1));
            if self.account_contexts[i].bech32_address == *bech32_address {
                return Some(&self.account_contexts[i]);
            }
            i = i + 1;
        }
        None
    }

    /// The member of the current committee with that cold credential.
    pub fn find_current_committee_member_by_cold_credential(
        &self,
        cold: &LocalCredential,
    ) -> (found: Option<&CommitteeInputContext>)
        ensures
            match found {
                Some(member) => first_member(self.current_committee_members@, cold@) == Some(
                    *member,
                ),
                None => first_member(self.current_committee_members@, cold@) is None,
            },
    {
        find_member(&self.current_committee_members, cold)
    }

    /// The potential member of the committee with that cold credential.
    pub fn find_potential_committee_member_by_cold_credential(
        &self,
        cold: &LocalCredential,
    ) -> (found: Option<&CommitteeInputContext>)
        ensures
            match found {
                Some(member) => first_member(self.potential_committee_members@, cold@) == Some(
                    *member,
                ),
                None => first_member(self.potential_committee_members@, cold@) is None,
            },
    {
        find_member(&self.potential_committee_members, cold)
    }
}

} // verus!
