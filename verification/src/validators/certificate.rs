//! Certificates: what a transaction asks the ledger to register, delegate or
//! retire, and how they are read out of a transaction.

use cardano_serialization_lib as csl;
use vstd::prelude::*;

use crate::validators::common::{copy_bytes, CredentialView, LocalCredential, HASH_LENGTH};

verus! {

/// A representative that votes are delegated to, or a standing vote.
#[derive(Debug)]
pub enum LocalDRep {
    KeyHash(Vec<u8>),
    ScriptHash(Vec<u8>),
    AlwaysAbstain,
    AlwaysNoConfidence,
}

/// A representative, with its hash taken by its view.
#[verifier::ext_equal]
pub enum DRepView {
    KeyHash(Seq<u8>),
    ScriptHash(Seq<u8>),
    AlwaysAbstain,
    AlwaysNoConfidence,
}

impl View for LocalDRep {
    type V = DRepView;

    open spec fn view(&self) -> DRepView {
        match *self {
            LocalDRep::KeyHash(hash) => DRepView::KeyHash(hash@),
            LocalDRep::ScriptHash(hash) => DRepView::ScriptHash(hash@),
            LocalDRep::AlwaysAbstain => DRepView::AlwaysAbstain,
            LocalDRep::AlwaysNoConfidence => DRepView::AlwaysNoConfidence,
        }
    }
}

impl DRepView {
    /// A hash has the length that the ledger gives it.
    pub open spec fn wf(self) -> bool {
        match self {
            DRepView::KeyHash(hash) => hash.len() == HASH_LENGTH,
            DRepView::ScriptHash(hash) => hash.len() == HASH_LENGTH,
            _ => true,
        }
    }

    /// The representative that acts by a credential.
    pub open spec fn of_credential(credential: CredentialView) -> DRepView {
        match credential {
            CredentialView::KeyHash(hash) => DRepView::KeyHash(hash),
            CredentialView::ScriptHash(hash) => DRepView::ScriptHash(hash),
        }
    }
}

impl LocalDRep {
    /// The representative that acts by a credential.
    pub fn new_from_credential(credential: &LocalCredential) -> (drep: LocalDRep)
        ensures
            drep@ == DRepView::of_credential(credential@),
    {
        match credential {
            LocalCredential::KeyHash(hash) => LocalDRep::KeyHash(copy_bytes(hash)),
            LocalCredential::ScriptHash(hash) => LocalDRep::ScriptHash(copy_bytes(hash)),
        }
    }
}

/// A certificate, with what the registration rules read of it.
#[derive(Debug)]
pub enum Certificate {
    /// The stake credential becomes registered.
    StakeRegistration { credential: LocalCredential },
    /// The stake credential is no longer registered.
    StakeDeregistration { credential: LocalCredential },
    /// The stake is delegated to a pool.
    StakeDelegation { credential: LocalCredential, pool: Vec<u8> },
    /// The pool becomes registered, at a fixed cost.
    PoolRegistration { operator: Vec<u8>, cost: u64 },
    /// The pool retires in an epoch.
    PoolRetirement { pool: Vec<u8>, epoch: u32 },
    /// Not supported any more.
    GenesisKeyDelegation,
    /// Not supported any more.
    MoveInstantaneousRewardsCert,
    /// A committee member authorises a hot credential.
    CommitteeHotAuth { cold: LocalCredential, hot: LocalCredential },
    /// A committee member resigns.
    CommitteeColdResign { cold: LocalCredential },
    /// The representative is no longer registered.
    DRepDeregistration { credential: LocalCredential },
    /// The representative becomes registered.
    DRepRegistration { credential: LocalCredential },
    /// The representative changes its data.
    DRepUpdate { credential: LocalCredential },
    /// The stake is delegated to a pool and the vote to a representative.
    StakeAndVoteDelegation { credential: LocalCredential, pool: Vec<u8>, drep: LocalDRep },
    /// Registers the stake credential and delegates its stake.
    StakeRegistrationAndDelegation { credential: LocalCredential, pool: Vec<u8> },
    /// Registers the stake credential and delegates its stake and its vote.
    StakeVoteRegistrationAndDelegation {
        credential: LocalCredential,
        pool: Vec<u8>,
        drep: LocalDRep,
    },
    /// The vote is delegated to a representative.
    VoteDelegation { credential: LocalCredential, drep: LocalDRep },
    /// Registers the stake credential and delegates its vote.
    VoteRegistrationAndDelegation { credential: LocalCredential, drep: LocalDRep },
}

/// A certificate, with what it holds taken by its view.
#[verifier::ext_equal]
pub enum CertificateView {
    StakeRegistration { credential: CredentialView },
    StakeDeregistration { credential: CredentialView },
    StakeDelegation { credential: CredentialView, pool: Seq<u8> },
    PoolRegistration { operator: Seq<u8>, cost: u64 },
    PoolRetirement { pool: Seq<u8>, epoch: u32 },
    GenesisKeyDelegation,
    MoveInstantaneousRewardsCert,
    CommitteeHotAuth { cold: CredentialView, hot: CredentialView },
    CommitteeColdResign { cold: CredentialView },
    DRepDeregistration { credential: CredentialView },
    DRepRegistration { credential: CredentialView },
    DRepUpdate { credential: CredentialView },
    StakeAndVoteDelegation { credential: CredentialView, pool: Seq<u8>, drep: DRepView },
    StakeRegistrationAndDelegation { credential: CredentialView, pool: Seq<u8> },
    StakeVoteRegistrationAndDelegation {
        credential: CredentialView,
        pool: Seq<u8>,
        drep: DRepView,
    },
    VoteDelegation { credential: CredentialView, drep: DRepView },
    VoteRegistrationAndDelegation { credential: CredentialView, drep: DRepView },
}

impl View for Certificate {
    type V = CertificateView;

    open spec fn view(&self) -> CertificateView {
        match *self {
            Certificate::StakeRegistration { credential } => {
                CertificateView::StakeRegistration { credential: credential@ }
            },
            Certificate::StakeDeregistration { credential } => {
                CertificateView::StakeDeregistration { credential: credential@ }
            },
            Certificate::StakeDelegation { credential, pool } => {
                CertificateView::StakeDelegation { credential: credential@, pool: pool@ }
            },
            Certificate::PoolRegistration { operator, cost } => {
                CertificateView::PoolRegistration { operator: operator@, cost }
            },
            Certificate::PoolRetirement { pool, epoch } => {
                CertificateView::PoolRetirement { pool: pool@, epoch }
            },
            Certificate::GenesisKeyDelegation => CertificateView::GenesisKeyDelegation,
            Certificate::MoveInstantaneousRewardsCert => {
                CertificateView::MoveInstantaneousRewardsCert
            },
            Certificate::CommitteeHotAuth { cold, hot } => {
                CertificateView::CommitteeHotAuth { cold: cold@, hot: hot@ }
            },
            Certificate::CommitteeColdResign { cold } => {
                CertificateView::CommitteeColdResign { cold: cold@ }
            },
            Certificate::DRepDeregistration { credential } => {
                CertificateView::DRepDeregistration { credential: credential@ }
            },
            Certificate::DRepRegistration { credential } => {
                CertificateView::DRepRegistration { credential: credential@ }
            },
            Certificate::DRepUpdate { credential } => {
                CertificateView::DRepUpdate { credential: credential@ }
            },
            Certificate::StakeAndVoteDelegation { credential, pool, drep } => {
                CertificateView::StakeAndVoteDelegation {
                    credential: credential@,
                    pool: pool@,
                    drep: drep@,
                }
            },
            Certificate::StakeRegistrationAndDelegation { credential, pool } => {
                CertificateView::StakeRegistrationAndDelegation {
                    credential: credential@,
                    pool: pool@,
                }
            },
            Certificate::StakeVoteRegistrationAndDelegation { credential, pool, drep } => {
                CertificateView::StakeVoteRegistrationAndDelegation {
                    credential: credential@,
                    pool: pool@,
                    drep: drep@,
                }
            },
            Certificate::VoteDelegation { credential, drep } => {
                CertificateView::VoteDelegation { credential: credential@, drep: drep@ }
            },
            Certificate::VoteRegistrationAndDelegation { credential, drep } => {
                CertificateView::VoteRegistrationAndDelegation {
                    credential: credential@,
                    drep: drep@,
                }
            },
        }
    }
}

impl CertificateView {
    /// Every hash of a credential or a representative has the length that the
    /// ledger gives it.
    pub open spec fn wf(self) -> bool {
        match self {
            CertificateView::StakeRegistration { credential } => credential.wf(),
            CertificateView::StakeDeregistration { credential } => credential.wf(),
            CertificateView::StakeDelegation { credential, .. } => credential.wf(),
            CertificateView::CommitteeHotAuth { cold, hot } => cold.wf() && hot.wf(),
            CertificateView::CommitteeColdResign { cold } => cold.wf(),
            CertificateView::DRepDeregistration { credential } => credential.wf(),
            CertificateView::DRepRegistration { credential } => credential.wf(),
            CertificateView::DRepUpdate { credential } => credential.wf(),
            CertificateView::StakeAndVoteDelegation { credential, drep, .. } => {
                credential.wf() && drep.wf()
            },
            CertificateView::StakeRegistrationAndDelegation { credential, .. } => credential.wf(),
            CertificateView::StakeVoteRegistrationAndDelegation { credential, drep, .. } => {
                credential.wf() && drep.wf()
            },
            CertificateView::VoteDelegation { credential, drep } => credential.wf() && drep.wf(),
            CertificateView::VoteRegistrationAndDelegation { credential, drep } => {
                credential.wf() && drep.wf()
            },
            _ => true,
        }
    }
}

/// `cardano_serialization_lib::TransactionBody`, the body of a transaction.
#[verifier::external_type_specification]
#[verifier::external_body]
pub struct ExTransactionBody(cardano_serialization_lib::TransactionBody);

/// `cardano_serialization_lib::Certificates`, the certificates of a transaction.
#[verifier::external_type_specification]
#[verifier::external_body]
pub struct ExCertificates(cardano_serialization_lib::Certificates);

/// `cardano_serialization_lib::Credential`, a key or a script.
#[verifier::external_type_specification]
#[verifier::external_body]
pub struct ExCredential(cardano_serialization_lib::Credential);

/// `cardano_serialization_lib::DRep`, a representative or a standing vote.
#[verifier::external_type_specification]
#[verifier::external_body]
pub struct ExDRep(cardano_serialization_lib::DRep);

/// The certificates that a collection holds, in order.
pub uninterp spec fn certificates_held(certs: cardano_serialization_lib::Certificates) -> Seq<
    CertificateView,
>;

/// The certificates that a transaction body holds, in order; none where it has
/// no such field.
pub uninterp spec fn certificates_in(body: cardano_serialization_lib::TransactionBody) -> Seq<
    CertificateView,
>;

/// `TransactionBody::certs`: the certificates of the body, or nothing where it
/// has no such field.
#[verifier::external_body]
fn body_certs(body: &csl::TransactionBody) -> (certs: Option<csl::Certificates>)
    ensures
        match certs {
            Some(certs) => certificates_held(certs) == certificates_in(*body),
            None => certificates_in(*body).len() == 0,
        },
{
    body.certs()
}

/// `Certificates::len`: the number of certificates.
#[verifier::external_body]
fn certs_len(certs: &csl::Certificates) -> (len: usize)
    ensures
        len == certificates_held(*certs).len(),
{
    certs.len()
}

/// What a credential holds.
pub uninterp spec fn credential_held(
    credential: cardano_serialization_lib::Credential,
) -> CredentialView;

/// What a representative holds.
pub uninterp spec fn drep_held(drep: cardano_serialization_lib::DRep) -> DRepView;

/// `Credential::to_keyhash` and `Credential::to_scripthash`: one of them gives the hash,
/// which has its fixed length.
#[verifier::external_body]
fn read_credential(credential: &csl::Credential) -> (local: LocalCredential)
    ensures
        local@ == credential_held(*credential),
        local@.wf(),
{
    match credential.to_keyhash() {
        Some(hash) => LocalCredential::KeyHash(hash.to_bytes()),
        None => LocalCredential::ScriptHash(credential.to_scripthash().unwrap().to_bytes()),
    }
}

/// `DRep::kind`, with the hash where it is of a kind that has one; the hash has its fixed
/// length.
#[verifier::external_body]
fn read_drep(drep: &csl::DRep) -> (local: LocalDRep)
    ensures
        local@ == drep_held(*drep),
        local@.wf(),
{
    match drep.kind() {
        csl::DRepKind::KeyHash => LocalDRep::KeyHash(drep.to_key_hash().unwrap().to_bytes()),
        csl::DRepKind::ScriptHash => {
            LocalDRep::ScriptHash(drep.to_script_hash().unwrap().to_bytes())
        },
        csl::DRepKind::AlwaysAbstain => LocalDRep::AlwaysAbstain,
        csl::DRepKind::AlwaysNoConfidence => LocalDRep::AlwaysNoConfidence,
    }
}

/// `Certificate::as_stake_registration` on the certificate at `index`: its
/// `credential`, where it is of that kind.
#[verifier::external_body]
fn stake_registration_at(certs: &csl::Certificates, index: usize) -> (found: Option<
    csl::Credential,
>)
    requires
        index < certificates_held(*certs).len(),
    ensures
        match found {
            Some(credential) => certificates_held(*certs)[index as int] == (
            CertificateView::StakeRegistration {
                credential: credential_held(credential),
            }),
            None => certificates_held(*certs)[index as int] !is StakeRegistration,
        },
{
    let cert = certs.get(index).as_stake_registration()?;
    Some(cert.stake_credential())
}

/// `Certificate::as_stake_deregistration` on the certificate at `index`: its
/// `credential`, where it is of that kind.
#[verifier::external_body]
fn stake_deregistration_at(certs: &csl::Certificates, index: usize) -> (found: Option<
    csl::Credential,
>)
    requires
        index < certificates_held(*certs).len(),
    ensures
        match found {
            Some(credential) => certificates_held(*certs)[index as int] == (
            CertificateView::StakeDeregistration {
                credential: credential_held(credential),
            }),
            None => certificates_held(*certs)[index as int] !is StakeDeregistration,
        },
{
    let cert = certs.get(index).as_stake_deregistration()?;
    Some(cert.stake_credential())
}

/// `Certificate::as_stake_delegation` on the certificate at `index`: its
/// `credential` and `pool`, where it is of that kind.
#[verifier::external_body]
fn stake_delegation_at(certs: &csl::Certificates, index: usize) -> (found: Option<
    (csl::Credential, Vec<u8>),
>)
    requires
        index < certificates_held(*certs).len(),
    ensures
        match found {
            Some((credential, pool)) => certificates_held(*certs)[index as int] == (
            CertificateView::StakeDelegation {
                credential: credential_held(credential),
                pool: pool@,
            }),
            None => certificates_held(*certs)[index as int] !is StakeDelegation,
        },
{
    let cert = certs.get(index).as_stake_delegation()?;
    Some((cert.stake_credential(), cert.pool_keyhash().to_bytes()))
}

/// `Certificate::as_pool_registration` on the certificate at `index`: its
/// `operator` and `cost`, where it is of that kind.
#[verifier::external_body]
fn pool_registration_at(certs: &csl::Certificates, index: usize) -> (found: Option<
    (Vec<u8>, u64),
>)
    requires
        index < certificates_held(*certs).len(),
    ensures
        match found {
            Some((operator, cost)) => certificates_held(*certs)[index as int] == (
            CertificateView::PoolRegistration {
                operator: operator@,
                cost,
            }),
            None => certificates_held(*certs)[index as int] !is PoolRegistration,
        },
{
    let cert = certs.get(index).as_pool_registration()?;
    let params = cert.pool_params();
    Some((params.operator().to_bytes(), params.cost().into()))
}

/// `Certificate::as_pool_retirement` on the certificate at `index`: its
/// `pool` and `epoch`, where it is of that kind.
#[verifier::external_body]
fn pool_retirement_at(certs: &csl::Certificates, index: usize) -> (found: Option<
    (Vec<u8>, u32),
>)
    requires
        index < certificates_held(*certs).len(),
    ensures
        match found {
            Some((pool, epoch)) => certificates_held(*certs)[index as int] == (
            CertificateView::PoolRetirement {
                pool: pool@,
                epoch,
            }),
            None => certificates_held(*certs)[index as int] !is PoolRetirement,
        },
{
    let cert = certs.get(index).as_pool_retirement()?;
    Some((cert.pool_keyhash().to_bytes(), cert.epoch()))
}

/// `Certificate::as_committee_hot_auth` on the certificate at `index`: its
/// `cold` and `hot`, where it is of that kind.
#[verifier::external_body]
fn committee_hot_auth_at(certs: &csl::Certificates, index: usize) -> (found: Option<
    (csl::Credential, csl::Credential),
>)
    requires
        index < certificates_held(*certs).len(),
    ensures
        match found {
            Some((cold, hot)) => certificates_held(*certs)[index as int] == (
            CertificateView::CommitteeHotAuth {
                cold: credential_held(cold),
                hot: credential_held(hot),
            }),
            None => certificates_held(*certs)[index as int] !is CommitteeHotAuth,
        },
{
    let cert = certs.get(index).as_committee_hot_auth()?;
    Some((cert.committee_cold_credential(), cert.committee_hot_credential()))
}

/// `Certificate::as_committee_cold_resign` on the certificate at `index`: its
/// `cold`, where it is of that kind.
#[verifier::external_body]
fn committee_cold_resign_at(certs: &csl::Certificates, index: usize) -> (found: Option<
    csl::Credential,
>)
    requires
        index < certificates_held(*certs).len(),
    ensures
        match found {
            Some(cold) => certificates_held(*certs)[index as int] == (
            CertificateView::CommitteeColdResign {
                cold: credential_held(cold),
            }),
            None => certificates_held(*certs)[index as int] !is CommitteeColdResign,
        },
{
    let cert = certs.get(index).as_committee_cold_resign()?;
    Some(cert.committee_cold_credential())
}

/// `Certificate::as_drep_deregistration` on the certificate at `index`: its
/// `credential`, where it is of that kind.
#[verifier::external_body]
fn drep_deregistration_at(certs: &csl::Certificates, index: usize) -> (found: Option<
    csl::Credential,
>)
    requires
        index < certificates_held(*certs).len(),
    ensures
        match found {
            Some(credential) => certificates_held(*certs)[index as int] == (
            CertificateView::DRepDeregistration {
                credential: credential_held(credential),
            }),
            None => certificates_held(*certs)[index as int] !is DRepDeregistration,
        },
{
    let cert = certs.get(index).as_drep_deregistration()?;
    Some(cert.voting_credential())
}

/// `Certificate::as_drep_registration` on the certificate at `index`: its
/// `credential`, where it is of that kind.
#[verifier::external_body]
fn drep_registration_at(certs: &csl::Certificates, index: usize) -> (found: Option<
    csl::Credential,
>)
    requires
        index < certificates_held(*certs).len(),
    ensures
        match found {
            Some(credential) => certificates_held(*certs)[index as int] == (
            CertificateView::DRepRegistration {
                credential: credential_held(credential),
            }),
            None => certificates_held(*certs)[index as int] !is DRepRegistration,
        },
{
    let cert = certs.get(index).as_drep_registration()?;
    Some(cert.voting_credential())
}

/// `Certificate::as_drep_update` on the certificate at `index`: its
/// `credential`, where it is of that kind.
#[verifier::external_body]
fn drep_update_at(certs: &csl::Certificates, index: usize) -> (found: Option<
    csl::Credential,
>)
    requires
        index < certificates_held(*certs).len(),
    ensures
        match found {
            Some(credential) => certificates_held(*certs)[index as int] == (
            CertificateView::DRepUpdate {
                credential: credential_held(credential),
            }),
            None => certificates_held(*certs)[index as int] !is DRepUpdate,
        },
{
    let cert = certs.get(index).as_drep_update()?;
    Some(cert.voting_credential())
}

/// `Certificate::as_stake_and_vote_delegation` on the certificate at `index`: its
/// `credential`, `pool` and `drep`, where it is of that kind.
#[verifier::external_body]
fn stake_and_vote_delegation_at(certs: &csl::Certificates, index: usize) -> (found: Option<
    (csl::Credential, Vec<u8>, csl::DRep),
>)
    requires
        index < certificates_held(*certs).len(),
    ensures
        match found {
            Some((credential, pool, drep)) => certificates_held(*certs)[index as int] == (
            CertificateView::StakeAndVoteDelegation {
                credential: credential_held(credential),
                pool: pool@,
                drep: drep_held(drep),
            }),
            None => certificates_held(*certs)[index as int] !is StakeAndVoteDelegation,
        },
{
    let cert = certs.get(index).as_stake_and_vote_delegation()?;
    Some((cert.stake_credential(), cert.pool_keyhash().to_bytes(), cert.drep()))
}

/// `Certificate::as_stake_registration_and_delegation` on the certificate at `index`: its
/// `credential` and `pool`, where it is of that kind.
#[verifier::external_body]
fn stake_registration_and_delegation_at(certs: &csl::Certificates, index: usize) -> (found: Option<
    (csl::Credential, Vec<u8>),
>)
    requires
        index < certificates_held(*certs).len(),
    ensures
        match found {
            Some((credential, pool)) => certificates_held(*certs)[index as int] == (
            CertificateView::StakeRegistrationAndDelegation {
                credential: credential_held(credential),
                pool: pool@,
            }),
            None => certificates_held(*certs)[index as int] !is StakeRegistrationAndDelegation,
        },
{
    let cert = certs.get(index).as_stake_registration_and_delegation()?;
    Some((cert.stake_credential(), cert.pool_keyhash().to_bytes()))
}

/// `Certificate::as_stake_vote_registration_and_delegation` on the certificate at `index`: its
/// `credential`, `pool` and `drep`, where it is of that kind.
#[verifier::external_body]
fn stake_vote_registration_and_delegation_at(
    certs: &csl::Certificates,
    index: usize,
) -> (found: Option<(csl::Credential, Vec<u8>, csl::DRep)>)
    requires
        index < certificates_held(*certs).len(),
    ensures
        match found {
            Some((credential, pool, drep)) => certificates_held(*certs)[index as int] == (
            CertificateView::StakeVoteRegistrationAndDelegation {
                credential: credential_held(credential),
                pool: pool@,
                drep: drep_held(drep),
            }),
            None => certificates_held(*certs)[index as int] !is StakeVoteRegistrationAndDelegation,
        },
{
    let cert = certs.get(index).as_stake_vote_registration_and_delegation()?;
    Some((cert.stake_credential(), cert.pool_keyhash().to_bytes(), cert.drep()))
}

/// `Certificate::as_vote_delegation` on the certificate at `index`: its
/// `credential` and `drep`, where it is of that kind.
#[verifier::external_body]
fn vote_delegation_at(certs: &csl::Certificates, index: usize) -> (found: Option<
    (csl::Credential, csl::DRep),
>)
    requires
        index < certificates_held(*certs).len(),
    ensures
        match found {
            Some((credential, drep)) => certificates_held(*certs)[index as int] == (
            CertificateView::VoteDelegation {
                credential: credential_held(credential),
                drep: drep_held(drep),
            }),
            None => certificates_held(*certs)[index as int] !is VoteDelegation,
        },
{
    let cert = certs.get(index).as_vote_delegation()?;
    Some((cert.stake_credential(), cert.drep()))
}

/// `Certificate::as_vote_registration_and_delegation` on the certificate at `index`: its
/// `credential` and `drep`, where it is of that kind.
#[verifier::external_body]
fn vote_registration_and_delegation_at(certs: &csl::Certificates, index: usize) -> (found: Option<
    (csl::Credential, csl::DRep),
>)
    requires
        index < certificates_held(*certs).len(),
    ensures
        match found {
            Some((credential, drep)) => certificates_held(*certs)[index as int] == (
            CertificateView::VoteRegistrationAndDelegation {
                credential: credential_held(credential),
                drep: drep_held(drep),
            }),
            None => certificates_held(*certs)[index as int] !is VoteRegistrationAndDelegation,
        },
{
    let cert = certs.get(index).as_vote_registration_and_delegation()?;
    Some((cert.stake_credential(), cert.drep()))
}

/// `Certificate::as_genesis_key_delegation` on the certificate at `index`: whether it is of
/// that kind.
#[verifier::external_body]
fn is_genesis_key_delegation_at(certs: &csl::Certificates, index: usize) -> (genesis: bool)
    requires
        index < certificates_held(*certs).len(),
    ensures
        genesis == (certificates_held(*certs)[index as int] is GenesisKeyDelegation),
{
    certs.get(index).as_genesis_key_delegation().is_some()
}

/// The certificate at `index`.
fn certificate_at(certs: &csl::Certificates, index: usize) -> (certificate: Certificate)
    requires
        index < certificates_held(*certs).len(),
    ensures
        certificate@ == certificates_held(*certs)[index as int],
        certificate@.wf(),
{
    if let Some(credential) = stake_registration_at(certs, index) {
        return Certificate::StakeRegistration {
            credential: read_credential(&credential),
        };
    }
    if let Some(credential) = stake_deregistration_at(certs, index) {
        return Certificate::StakeDeregistration {
            credential: read_credential(&credential),
        };
    }
    if let Some((credential, pool)) = stake_delegation_at(certs, index) {
        return Certificate::StakeDelegation {
            credential: read_credential(&credential),
            pool,
        };
    }
    if let Some((operator, cost)) = pool_registration_at(certs, index) {
        return Certificate::PoolRegistration {
            operator,
            cost,
        };
    }
    if let Some((pool, epoch)) = pool_retirement_at(certs, index) {
        return Certificate::PoolRetirement {
            pool,
            epoch,
        };
    }
    if let Some((cold, hot)) = committee_hot_auth_at(certs, index) {
        return Certificate::CommitteeHotAuth {
            cold: read_credential(&cold),
            hot: read_credential(&hot),
        };
    }
    if let Some(cold) = committee_cold_resign_at(certs, index) {
        return Certificate::CommitteeColdResign {
            cold: read_credential(&cold),
        };
    }
    if let Some(credential) = drep_deregistration_at(certs, index) {
        return Certificate::DRepDeregistration {
            credential: read_credential(&credential),
        };
    }
    if let Some(credential) = drep_registration_at(certs, index) {
        return Certificate::DRepRegistration {
            credential: read_credential(&credential),
        };
    }
    if let Some(credential) = drep_update_at(certs, index) {
        return Certificate::DRepUpdate {
            credential: read_credential(&credential),
        };
    }
    if let Some((credential, pool, drep)) = stake_and_vote_delegation_at(certs, index) {
        return Certificate::StakeAndVoteDelegation {
            credential: read_credential(&credential),
            pool,
            drep: read_drep(&drep),
        };
    }
    if let Some((credential, pool)) = stake_registration_and_delegation_at(certs, index) {
        return Certificate::StakeRegistrationAndDelegation {
            credential: read_credential(&credential),
            pool,
        };
    }
    if let Some((credential, pool, drep)) = stake_vote_registration_and_delegation_at(
        certs,
        index,
    ) {
        return Certificate::StakeVoteRegistrationAndDelegation {
            credential: read_credential(&credential),
            pool,
            drep: read_drep(&drep),
        };
    }
    if let Some((credential, drep)) = vote_delegation_at(certs, index) {
        return Certificate::VoteDelegation {
            credential: read_credential(&credential),
            drep: read_drep(&drep),
        };
    }
    if let Some((credential, drep)) = vote_registration_and_delegation_at(certs, index) {
        return Certificate::VoteRegistrationAndDelegation {
            credential: read_credential(&credential),
            drep: read_drep(&drep),
        };
    }
    if is_genesis_key_delegation_at(certs, index) {
        Certificate::GenesisKeyDelegation
    } else {
        Certificate::MoveInstantaneousRewardsCert
    }
}

/// Certificates, taken by their views.
pub open spec fn certificate_views(certificates: Seq<Certificate>) -> Seq<CertificateView> {
    Seq::new(certificates.len(), |i: int| certificates[i]@)
}

/// The certificates of a transaction body, in order.
pub fn read_certificates(body: &csl::TransactionBody) -> (certificates: Vec<Certificate>)
    ensures
        certificate_views(certificates@) == certificates_in(*body),
        forall|i: int|
            0 <= i < certificates@.len() ==> (#[trigger] certificates@[i])@.wf(),
{
    let mut certificates: Vec<Certificate> = Vec::new();
    if let Some(certs) = body_certs(body) {
        let count: usize = certs_len(&certs);
        let mut i: usize = 0;
        while i < count
            invariant
                i <= count,
                count == certificates_held(certs).len(),
                certificates@.len() == i,
                forall|j: int|
                    0 <= j < i ==> (#[trigger] certificates@[j])@ == certificates_held(certs)[j]
                        && certificates@[j]@.wf(),
            decreases count - i,
        {
            certificates.push(certificate_at(&certs, i));
            i = i + 1;
        }
    }
    assert(certificate_views(certificates@) =~= certificates_in(*body));
    certificates
}

} // verus!
