//! Whether the certificates of a transaction agree with what is registered.

use cardano_serialization_lib as csl;
use vstd::prelude::*;
use vstd::string::StringExecFns;

use crate::text::{decimal, decimal_text, hex_encode, hex_text};
use crate::validators::certificate::{
    certificate_views, certificates_in, read_certificates, Certificate, CertificateView, LocalDRep,
    DRepView,
};
use crate::validators::common::{CredentialView, LocalCredential, NetworkType};
use crate::validators::helpers::{
    credential_to_bech32_reward_address, drep_id, drep_to_id, network_id, reward_address_text,
};
use crate::validators::input_contexts::{
    first_account, first_member, AccountInputContext, DRepInputContext, PoolInputContext,
    ValidationInputContext,
};
use crate::validators::phase_1::errors::{
    error_views, warning_views, LocatedError, LocatedWarning, Phase1Error, Phase1ErrorView,
    Phase1Warning, Phase1WarningView, ValidationPhase1Error, ValidationPhase1Warning,
};
use crate::validators::unique::{Distinct, TextMap, UniqueVec};
use crate::validators::validation_result::ValidationResult;

verus! {

/// What can be registered.
#[derive(Debug)]
pub enum RegistrableEntity {
    Account(String),
    Pool(String),
    DRep(String),
    ConstitutionCommitteeHotCredential(LocalCredential),
}

/// What can be registered, taken by its view.
#[verifier::ext_equal]
pub enum EntityView {
    Account(Seq<char>),
    Pool(Seq<char>),
    DRep(Seq<char>),
    ConstitutionCommitteeHotCredential(CredentialView),
}

impl View for RegistrableEntity {
    type V = EntityView;

    open spec fn view(&self) -> EntityView {
        match *self {
            RegistrableEntity::Account(address) => EntityView::Account(address@),
            RegistrableEntity::Pool(pool_id) => EntityView::Pool(pool_id@),
            RegistrableEntity::DRep(drep_id) => EntityView::DRep(drep_id@),
            RegistrableEntity::ConstitutionCommitteeHotCredential(credential) => {
                EntityView::ConstitutionCommitteeHotCredential(credential@)
            },
        }
    }
}

impl Distinct for RegistrableEntity {
    fn same(&self, other: &Self) -> (same: bool) {
        match (self, other) {
            (RegistrableEntity::Account(a), RegistrableEntity::Account(b)) => *a == *b,
            (RegistrableEntity::Pool(a), RegistrableEntity::Pool(b)) => *a == *b,
            (RegistrableEntity::DRep(a), RegistrableEntity::DRep(b)) => *a == *b,
            (
                RegistrableEntity::ConstitutionCommitteeHotCredential(a),
                RegistrableEntity::ConstitutionCommitteeHotCredential(b),
            ) => a.same(b),
            _ => false,
        }
    }
}

impl Distinct for LocalCredential {
    fn same(&self, other: &Self) -> (same: bool) {
        LocalCredential::same(self, other)
    }
}

/// What a certificate asks for, with accounts, pools and representatives under
/// the texts by which they are known.
#[derive(Debug)]
pub enum CertificateType {
    StakeRegistration { reward_address: String },
    StakeDeregistration { reward_address: String },
    StakeDelegation { reward_address: String, pool_id: String },
    PoolRegistration { pool_id: String, pool_cost: u64 },
    PoolRetirement { pool_id: String, retirement_epoch: u64 },
    DRepRegistration { drep_id: String },
    DRepDeregistration { drep_id: String },
    DRepUpdate { drep_id: String },
    CommitteeHotAuth {
        committee_cold_credential: LocalCredential,
        committee_hot_credential: LocalCredential,
    },
    CommitteeColdResign { committee_cold_credential: LocalCredential },
    StakeRegistrationAndDelegation { reward_address: String, pool_id: String },
    StakeAndVoteDelegation { reward_address: String, pool_id: String, drep: String },
    StakeVoteRegistrationAndDelegation { reward_address: String, pool_id: String, drep: String },
    VoteDelegation { reward_address: String, drep: String },
    VoteRegistrationAndDelegation { reward_address: String, drep: String },
    GenesisKeyDelegation,
    MoveInstantaneousRewardsCert,
}

/// What a certificate asks for, with what it holds taken by its view.
#[verifier::ext_equal]
pub enum CertificateTypeView {
    StakeRegistration { reward_address: Seq<char> },
    StakeDeregistration { reward_address: Seq<char> },
    StakeDelegation { reward_address: Seq<char>, pool_id: Seq<char> },
    PoolRegistration { pool_id: Seq<char>, pool_cost: u64 },
    PoolRetirement { pool_id: Seq<char>, retirement_epoch: u64 },
    DRepRegistration { drep_id: Seq<char> },
    DRepDeregistration { drep_id: Seq<char> },
    DRepUpdate { drep_id: Seq<char> },
    CommitteeHotAuth {
        committee_cold_credential: CredentialView,
        committee_hot_credential: CredentialView,
    },
    CommitteeColdResign { committee_cold_credential: CredentialView },
    StakeRegistrationAndDelegation { reward_address: Seq<char>, pool_id: Seq<char> },
    StakeAndVoteDelegation { reward_address: Seq<char>, pool_id: Seq<char>, drep: Seq<char> },
    StakeVoteRegistrationAndDelegation {
        reward_address: Seq<char>,
        pool_id: Seq<char>,
        drep: Seq<char>,
    },
    VoteDelegation { reward_address: Seq<char>, drep: Seq<char> },
    VoteRegistrationAndDelegation { reward_address: Seq<char>, drep: Seq<char> },
    GenesisKeyDelegation,
    MoveInstantaneousRewardsCert,
}

impl View for CertificateType {
    type V = CertificateTypeView;

    open spec fn view(&self) -> CertificateTypeView {
        match *self {
            CertificateType::StakeRegistration { reward_address } => {
                CertificateTypeView::StakeRegistration { reward_address: reward_address@ }
            },
            CertificateType::StakeDeregistration { reward_address } => {
                CertificateTypeView::StakeDeregistration { reward_address: reward_address@ }
            },
            CertificateType::StakeDelegation { reward_address, pool_id } => {
                CertificateTypeView::StakeDelegation {
                    reward_address: reward_address@,
                    pool_id: pool_id@,
                }
            },
            CertificateType::PoolRegistration { pool_id, pool_cost } => {
                CertificateTypeView::PoolRegistration { pool_id: pool_id@, pool_cost }
            },
            CertificateType::PoolRetirement { pool_id, retirement_epoch } => {
                CertificateTypeView::PoolRetirement { pool_id: pool_id@, retirement_epoch }
            },
            CertificateType::DRepRegistration { drep_id } => {
                CertificateTypeView::DRepRegistration { drep_id: drep_id@ }
            },
            CertificateType::DRepDeregistration { drep_id } => {
                CertificateTypeView::DRepDeregistration { drep_id: drep_id@ }
            },
            CertificateType::DRepUpdate { drep_id } => {
                CertificateTypeView::DRepUpdate { drep_id: drep_id@ }
            },
            CertificateType::CommitteeHotAuth {
                committee_cold_credential,
                committee_hot_credential,
            } => CertificateTypeView::CommitteeHotAuth {
                committee_cold_credential: committee_cold_credential@,
                committee_hot_credential: committee_hot_credential@,
            },
            CertificateType::CommitteeColdResign { committee_cold_credential } => {
                CertificateTypeView::CommitteeColdResign {
                    committee_cold_credential: committee_cold_credential@,
                }
            },
            CertificateType::StakeRegistrationAndDelegation { reward_address, pool_id } => {
                CertificateTypeView::StakeRegistrationAndDelegation {
                    reward_address: reward_address@,
                    pool_id: pool_id@,
                }
            },
            CertificateType::StakeAndVoteDelegation { reward_address, pool_id, drep } => {
                CertificateTypeView::StakeAndVoteDelegation {
                    reward_address: reward_address@,
                    pool_id: pool_id@,
                    drep: drep@,
                }
            },
            CertificateType::StakeVoteRegistrationAndDelegation {
                reward_address,
                pool_id,
                drep,
            } => CertificateTypeView::StakeVoteRegistrationAndDelegation {
                reward_address: reward_address@,
                pool_id: pool_id@,
                drep: drep@,
            },
            CertificateType::VoteDelegation { reward_address, drep } => {
                CertificateTypeView::VoteDelegation { reward_address: reward_address@, drep: drep@ }
            },
            CertificateType::VoteRegistrationAndDelegation { reward_address, drep } => {
                CertificateTypeView::VoteRegistrationAndDelegation {
                    reward_address: reward_address@,
                    drep: drep@,
                }
            },
            CertificateType::GenesisKeyDelegation => CertificateTypeView::GenesisKeyDelegation,
            CertificateType::MoveInstantaneousRewardsCert => {
                CertificateTypeView::MoveInstantaneousRewardsCert
            },
        }
    }
}

/// A certificate and its place in the transaction.
#[derive(Debug)]
pub struct CertificateInfo {
    pub cert_index: u32,
    pub cert_type: CertificateType,
}

/// A certificate and its place, the certificate taken by its view.
#[verifier::ext_equal]
pub struct CertificateInfoView {
    pub cert_index: u32,
    pub cert_type: CertificateTypeView,
}

impl View for CertificateInfo {
    type V = CertificateInfoView;

    open spec fn view(&self) -> CertificateInfoView {
        CertificateInfoView { cert_index: self.cert_index, cert_type: self.cert_type@ }
    }
}

/// What is registered, and what the certificates of a transaction change.
#[derive(Debug)]
pub struct RegistrationState {
    /// Tracks which entities are registered at the start of tx processing
    pub initial_registrations: UniqueVec<RegistrableEntity>,
    /// Tracks registration changes made by certificates in this tx
    pub registrations_in_tx: UniqueVec<RegistrableEntity>,
    pub deregistrations_in_tx: UniqueVec<RegistrableEntity>,
    /// Pool retirements scheduled in this tx: the epoch for each pool
    pub pool_retirements_in_tx: TextMap,
    /// Committee resignations in this tx
    pub committee_resignations_in_tx: UniqueVec<LocalCredential>,
}

/// What is registered, as sets and maps.
#[verifier::ext_equal]
pub struct StateView {
    pub initial: Set<EntityView>,
    pub registered: Set<EntityView>,
    pub deregistered: Set<EntityView>,
    pub retirements: Map<Seq<char>, u64>,
    pub resignations: Set<CredentialView>,
}

impl View for RegistrationState {
    type V = StateView;

    open spec fn view(&self) -> StateView {
        StateView {
            initial: self.initial_registrations.set(),
            registered: self.registrations_in_tx.set(),
            deregistered: self.deregistrations_in_tx.set(),
            retirements: self.pool_retirements_in_tx.map(),
            resignations: self.committee_resignations_in_tx.set(),
        }
    }
}

impl RegistrationState {
    /// Every set and the map hold nothing twice.
    pub open spec fn wf(self) -> bool {
        &&& self.initial_registrations.wf()
        &&& self.registrations_in_tx.wf()
        &&& self.deregistrations_in_tx.wf()
        &&& self.pool_retirements_in_tx.wf()
        &&& self.committee_resignations_in_tx.wf()
    }

    /// The state in which nothing is registered.
    pub fn new() -> (state: Self)
        ensures
            state.wf(),
            state@ == StateView::empty(),
    {
        RegistrationState {
            initial_registrations: UniqueVec::new(),
            registrations_in_tx: UniqueVec::new(),
            deregistrations_in_tx: UniqueVec::new(),
            pool_retirements_in_tx: TextMap::new(),
            committee_resignations_in_tx: UniqueVec::new(),
        }
    }
}

impl StateView {
    /// The state in which nothing is registered.
    pub open spec fn empty() -> StateView {
        StateView {
            initial: Set::empty(),
            registered: Set::empty(),
            deregistered: Set::empty(),
            retirements: Map::empty(),
            resignations: Set::empty(),
        }
    }

    /// The state after an entity is registered by a certificate.
    pub open spec fn with_registered(self, entity: EntityView) -> StateView {
        StateView {
            registered: self.registered.insert(entity),
            deregistered: self.deregistered.remove(entity),
            ..self
        }
    }

    /// The state after an entity is deregistered by a certificate.
    pub open spec fn with_deregistered(self, entity: EntityView) -> StateView {
        StateView {
            registered: self.registered.remove(entity),
            deregistered: self.deregistered.insert(entity),
            ..self
        }
    }

    /// The state after a certificate.
    pub open spec fn updated(self, cert_type: CertificateTypeView) -> StateView {
        match cert_type {
            CertificateTypeView::StakeRegistration { reward_address }
            | CertificateTypeView::StakeRegistrationAndDelegation { reward_address, .. }
            | CertificateTypeView::StakeVoteRegistrationAndDelegation { reward_address, .. }
            | CertificateTypeView::VoteRegistrationAndDelegation { reward_address, .. } => {
                self.with_registered(EntityView::Account(reward_address))
            },
            CertificateTypeView::StakeDeregistration { reward_address } => {
                self.with_deregistered(EntityView::Account(reward_address))
            },
            CertificateTypeView::PoolRegistration { pool_id, .. } => StateView {
                registered: self.registered.insert(EntityView::Pool(pool_id)),
                retirements: self.retirements.remove(pool_id),
                ..self
            },
            CertificateTypeView::PoolRetirement { pool_id, retirement_epoch } => StateView {
                retirements: self.retirements.insert(pool_id, retirement_epoch),
                ..self
            },
            CertificateTypeView::DRepRegistration { drep_id } => {
                self.with_registered(EntityView::DRep(drep_id))
            },
            CertificateTypeView::DRepDeregistration { drep_id } => {
                self.with_deregistered(EntityView::DRep(drep_id))
            },
            CertificateTypeView::CommitteeColdResign { committee_cold_credential } => StateView {
                resignations: self.resignations.insert(committee_cold_credential),
                ..self
            },
            _ => self,
        }
    }

    /// Registered at the start, or by a certificate.
    pub open spec fn is_registered(self, entity: EntityView) -> bool {
        self.initial.contains(entity) || self.registered.contains(entity)
    }

    /// Registered, and not deregistered by a certificate.
    pub open spec fn is_available(self, entity: EntityView) -> bool {
        self.is_registered(entity) && !self.deregistered.contains(entity)
    }

    /// Registered at the start, and not deregistered by a certificate.
    pub open spec fn is_already_registered(self, entity: EntityView) -> bool {
        self.initial.contains(entity) && !self.deregistered.contains(entity)
    }

    /// The pool is registered, and no certificate retires it.
    pub open spec fn is_pool_available(self, pool_id: Seq<char>) -> bool {
        self.is_registered(EntityView::Pool(pool_id)) && !self.retirements.contains_key(pool_id)
    }
}

/// The state after certificates, one after the other.
pub open spec fn state_after(
    state: StateView,
    certificates: Seq<CertificateInfoView>,
) -> StateView
    decreases certificates.len(),
{
    if certificates.len() == 0 {
        state
    } else {
        state_after(state, certificates.drop_last()).updated(certificates.last().cert_type)
    }
}

/// Whether the account at index `i` is registered and is that entity.
pub open spec fn account_is(
    accounts: Seq<AccountInputContext>,
    i: int,
    entity: EntityView,
) -> bool {
    accounts[i].is_registered && entity == EntityView::Account(accounts[i].bech32_address@)
}

/// Whether the pool at index `i` is registered and is that entity.
pub open spec fn pool_is(pools: Seq<PoolInputContext>, i: int, entity: EntityView) -> bool {
    pools[i].is_registered && entity == EntityView::Pool(pools[i].pool_id@)
}

/// Whether the representative at index `i` is registered and is that entity.
pub open spec fn drep_is(dreps: Seq<DRepInputContext>, i: int, entity: EntityView) -> bool {
    dreps[i].is_registered && entity == EntityView::DRep(dreps[i].bech32_drep@)
}

/// The registered among the accounts.
pub open spec fn account_entities(accounts: Seq<AccountInputContext>) -> Set<EntityView> {
    Set::new(
        |entity: EntityView|
            exists|i: int| 0 <= i < accounts.len() && #[trigger] account_is(accounts, i, entity),
    )
}

/// The registered among the pools.
pub open spec fn pool_entities(pools: Seq<PoolInputContext>) -> Set<EntityView> {
    Set::new(
        |entity: EntityView|
            exists|i: int| 0 <= i < pools.len() && #[trigger] pool_is(pools, i, entity),
    )
}

/// The registered among the representatives.
pub open spec fn drep_entities(dreps: Seq<DRepInputContext>) -> Set<EntityView> {
    Set::new(
        |entity: EntityView|
            exists|i: int| 0 <= i < dreps.len() && #[trigger] drep_is(dreps, i, entity),
    )
}

/// What the ledger knows to be registered.
pub open spec fn initial_entities(context: ValidationInputContext) -> Set<EntityView> {
    account_entities(context.account_contexts@).union(
        pool_entities(context.pool_contexts@),
    ).union(drep_entities(context.drep_contexts@))
}

/// The state before any certificate.
pub open spec fn initial_state(context: ValidationInputContext) -> StateView {
    StateView { initial: initial_entities(context), ..StateView::empty() }
}

proof fn account_entities_grow(accounts: Seq<AccountInputContext>, i: int)
    requires
        0 <= i < accounts.len(),
    ensures
        account_entities(accounts.take(i + 1)) == if accounts[i].is_registered {
            account_entities(accounts.take(i)).insert(
                EntityView::Account(accounts[i].bech32_address@),
            )
        } else {
            account_entities(accounts.take(i))
        },
{
    let fewer = accounts.take(i);
    let more = accounts.take(i + 1);
    assert forall|entity: EntityView, j: int| 0 <= j < i implies #[trigger] account_is(
        more,
        j,
        entity,
    ) == account_is(fewer, j, entity) by {}
    assert forall|entity: EntityView| account_entities(more).contains(entity) <==> (
    account_entities(fewer).contains(entity) || account_is(more, i, entity)) by {
        if account_entities(more).contains(entity) {
            let j = choose|j: int| 0 <= j < more.len() && #[trigger] account_is(more, j, entity);
            assert(j < i ==> account_is(fewer, j, entity));
        }
        if account_entities(fewer).contains(entity) {
            let j = choose|j: int| 0 <= j < fewer.len() && #[trigger] account_is(fewer, j, entity);
            assert(account_is(more, j, entity));
        }
    }
    assert(account_entities(more) =~= if accounts[i].is_registered {
        account_entities(fewer).insert(EntityView::Account(accounts[i].bech32_address@))
    } else {
        account_entities(fewer)
    });
}

proof fn pool_entities_grow(pools: Seq<PoolInputContext>, i: int)
    requires
        0 <= i < pools.len(),
    ensures
        pool_entities(pools.take(i + 1)) == if pools[i].is_registered {
            pool_entities(pools.take(i)).insert(EntityView::Pool(pools[i].pool_id@))
        } else {
            pool_entities(pools.take(i))
        },
{
    let fewer = pools.take(i);
    let more = pools.take(i + 1);
    assert forall|entity: EntityView, j: int| 0 <= j < i implies #[trigger] pool_is(
        more,
        j,
        entity,
    ) == pool_is(fewer, j, entity) by {}
    assert forall|entity: EntityView| pool_entities(more).contains(entity) <==> (pool_entities(
        fewer,
    ).contains(entity) || pool_is(more, i, entity)) by {
        if pool_entities(more).contains(entity) {
            let j = choose|j: int| 0 <= j < more.len() && #[trigger] pool_is(more, j, entity);
            assert(j < i ==> pool_is(fewer, j, entity));
        }
        if pool_entities(fewer).contains(entity) {
            let j = choose|j: int| 0 <= j < fewer.len() && #[trigger] pool_is(fewer, j, entity);
            assert(pool_is(more, j, entity));
        }
    }
    assert(pool_entities(more) =~= if pools[i].is_registered {
        pool_entities(fewer).insert(EntityView::Pool(pools[i].pool_id@))
    } else {
        pool_entities(fewer)
    });
}

proof fn drep_entities_grow(dreps: Seq<DRepInputContext>, i: int)
    requires
        0 <= i < dreps.len(),
    ensures
        drep_entities(dreps.take(i + 1)) == if dreps[i].is_registered {
            drep_entities(dreps.take(i)).insert(EntityView::DRep(dreps[i].bech32_drep@))
        } else {
            drep_entities(dreps.take(i))
        },
{
    let fewer = dreps.take(i);
    let more = dreps.take(i + 1);
    assert forall|entity: EntityView, j: int| 0 <= j < i implies #[trigger] drep_is(
        more,
        j,
        entity,
    ) == drep_is(fewer, j, entity) by {}
    assert forall|entity: EntityView| drep_entities(more).contains(entity) <==> (drep_entities(
        fewer,
    ).contains(entity) || drep_is(more, i, entity)) by {
        if drep_entities(more).contains(entity) {
            let j = choose|j: int| 0 <= j < more.len() && #[trigger] drep_is(more, j, entity);
            assert(j < i ==> drep_is(fewer, j, entity));
        }
        if drep_entities(fewer).contains(entity) {
            let j = choose|j: int| 0 <= j < fewer.len() && #[trigger] drep_is(fewer, j, entity);
            assert(drep_is(more, j, entity));
        }
    }
    assert(drep_entities(more) =~= if dreps[i].is_registered {
        drep_entities(fewer).insert(EntityView::DRep(dreps[i].bech32_drep@))
    } else {
        drep_entities(fewer)
    });
}

/// The reward address of a credential on a network.
pub open spec fn address_of(credential: CredentialView, network: NetworkType) -> Seq<char> {
    reward_address_text(network_id(network), credential)
}

/// The identifier of the representative that acts by a credential.
pub open spec fn voter_id(credential: CredentialView) -> Seq<char> {
    drep_id(DRepView::of_credential(credential))
}

/// What a certificate asks for on a network.
pub open spec fn processed(cert: CertificateView, network: NetworkType) -> CertificateTypeView {
    match cert {
        CertificateView::StakeRegistration { credential } => {
            CertificateTypeView::StakeRegistration {
                reward_address: address_of(credential, network),
            }
        },
        CertificateView::StakeDeregistration { credential } => {
            CertificateTypeView::StakeDeregistration {
                reward_address: address_of(credential, network),
            }
        },
        CertificateView::StakeDelegation { credential, pool } => {
            CertificateTypeView::StakeDelegation {
                reward_address: address_of(credential, network),
                pool_id: hex_text(pool),
            }
        },
        CertificateView::PoolRegistration { operator, cost } => {
            CertificateTypeView::PoolRegistration { pool_id: hex_text(operator), pool_cost: cost }
        },
        CertificateView::PoolRetirement { pool, epoch } => {
            CertificateTypeView::PoolRetirement {
                pool_id: hex_text(pool),
                retirement_epoch: epoch as u64,
            }
        },
        CertificateView::DRepRegistration { credential } => {
            CertificateTypeView::DRepRegistration { drep_id: voter_id(credential) }
        },
        CertificateView::DRepDeregistration { credential } => {
            CertificateTypeView::DRepDeregistration { drep_id: voter_id(credential) }
        },
        CertificateView::DRepUpdate { credential } => {
            CertificateTypeView::DRepUpdate { drep_id: voter_id(credential) }
        },
        CertificateView::CommitteeHotAuth { cold, hot } => {
            CertificateTypeView::CommitteeHotAuth {
                committee_cold_credential: cold,
                committee_hot_credential: hot,
            }
        },
        CertificateView::CommitteeColdResign { cold } => {
            CertificateTypeView::CommitteeColdResign { committee_cold_credential: cold }
        },
        CertificateView::StakeRegistrationAndDelegation { credential, pool } => {
            CertificateTypeView::StakeRegistrationAndDelegation {
                reward_address: address_of(credential, network),
                pool_id: hex_text(pool),
            }
        },
        CertificateView::StakeAndVoteDelegation { credential, pool, drep } => {
            CertificateTypeView::StakeAndVoteDelegation {
                reward_address: address_of(credential, network),
                pool_id: hex_text(pool),
                drep: drep_id(drep),
            }
        },
        CertificateView::StakeVoteRegistrationAndDelegation { credential, pool, drep } => {
            CertificateTypeView::StakeVoteRegistrationAndDelegation {
                reward_address: address_of(credential, network),
                pool_id: hex_text(pool),
                drep: drep_id(drep),
            }
        },
        CertificateView::VoteDelegation { credential, drep } => {
            CertificateTypeView::VoteDelegation {
                reward_address: address_of(credential, network),
                drep: drep_id(drep),
            }
        },
        CertificateView::VoteRegistrationAndDelegation { credential, drep } => {
            CertificateTypeView::VoteRegistrationAndDelegation {
                reward_address: address_of(credential, network),
                drep: drep_id(drep),
            }
        },
        CertificateView::GenesisKeyDelegation => CertificateTypeView::GenesisKeyDelegation,
        CertificateView::MoveInstantaneousRewardsCert => {
            CertificateTypeView::MoveInstantaneousRewardsCert
        },
    }
}

/// What the certificates of a transaction ask for, each with its index.
pub open spec fn all_processed(certs: Seq<CertificateView>, network: NetworkType) -> Seq<
    CertificateInfoView,
> {
    Seq::new(
        certs.len(),
        |i: int|
            CertificateInfoView { cert_index: i as u32, cert_type: processed(certs[i], network) },
    )
}

/// The part of the transaction that a report on a certificate is about.
pub open spec fn certificate_location(cert_index: u32) -> Seq<char> {
    "transaction.body.certs."@ + decimal(cert_index as nat)
}

fn location_text(cert_index: u32) -> (location: String)
    ensures
        location@ == certificate_location(cert_index),
{
    let mut location = "transaction.body.certs.".to_owned();
    location.append(decimal_text(cert_index as u128).as_str());
    location
}

/// Errors on a certificate, each with its location.
pub open spec fn located_errors(errors: Seq<Phase1ErrorView>, cert_index: u32) -> Seq<
    LocatedError,
> {
    Seq::new(
        errors.len(),
        |i: int|
            LocatedError { error: errors[i], location: certificate_location(cert_index) },
    )
}

/// Warnings on a certificate, each with its location.
pub open spec fn located_warnings(warnings: Seq<Phase1WarningView>, cert_index: u32) -> Seq<
    LocatedWarning,
> {
    Seq::new(
        warnings.len(),
        |i: int|
            LocatedWarning { warning: warnings[i], location: certificate_location(cert_index) },
    )
}

/// The error, if the condition holds.
pub open spec fn error_if(condition: bool, error: Phase1ErrorView) -> Seq<Phase1ErrorView> {
    if condition {
        seq![error]
    } else {
        Seq::empty()
    }
}

/// The warning, if the condition holds.
pub open spec fn warning_if(condition: bool, warning: Phase1WarningView) -> Seq<
    Phase1WarningView,
> {
    if condition {
        seq![warning]
    } else {
        Seq::empty()
    }
}

/// Whether the committee member had resigned before this transaction: the current
/// committee decides, and where it does not know the member, the potential one.
pub open spec fn resigned_before(context: ValidationInputContext, cold: CredentialView) -> bool {
    match first_member(context.current_committee_members@, cold) {
        Some(member) => member.is_resigned,
        None => match first_member(context.potential_committee_members@, cold) {
            Some(member) => member.is_resigned,
            None => false,
        },
    }
}

/// Whether the current or the potential committee has the member.
pub open spec fn is_member(context: ValidationInputContext, cold: CredentialView) -> bool {
    ||| first_member(context.current_committee_members@, cold) is Some
    ||| first_member(context.potential_committee_members@, cold) is Some
}

/// The balance that keeps an account from being deregistered: one above zero.
pub open spec fn blocking_balance(
    context: ValidationInputContext,
    reward_address: Seq<char>,
) -> Option<u64> {
    match first_account(context.account_contexts@, reward_address) {
        Some(account) => match account.balance {
            Some(balance) => if balance > 0 {
                Some(balance)
            } else {
                None
            },
            None => None,
        },
        None => None,
    }
}

/// The error on an account that is to be registered.
pub open spec fn new_account_errors(state: StateView, reward_address: Seq<char>) -> Seq<
    Phase1ErrorView,
> {
    error_if(
        state.is_already_registered(EntityView::Account(reward_address)),
        Phase1ErrorView::StakeAlreadyRegistered { reward_address },
    )
}

/// The error on an account that has to be registered.
pub open spec fn account_errors(state: StateView, reward_address: Seq<char>) -> Seq<
    Phase1ErrorView,
> {
    error_if(
        !state.is_available(EntityView::Account(reward_address)),
        Phase1ErrorView::StakeNotRegistered { reward_address },
    )
}

/// The error on a pool that has to be registered.
pub open spec fn pool_errors(state: StateView, pool_id: Seq<char>) -> Seq<Phase1ErrorView> {
    error_if(
        !state.is_pool_available(pool_id),
        Phase1ErrorView::StakePoolNotRegistered { pool_id },
    )
}

/// The errors on a certificate.
pub open spec fn certificate_errors(
    state: StateView,
    context: ValidationInputContext,
    cert_type: CertificateTypeView,
    current_epoch: u64,
) -> Seq<Phase1ErrorView> {
    match cert_type {
        CertificateTypeView::StakeRegistration { reward_address } => {
            new_account_errors(state, reward_address)
        },
        CertificateTypeView::StakeDeregistration { reward_address } => {
            if state.is_available(EntityView::Account(reward_address)) {
                match blocking_balance(context, reward_address) {
                    Some(remaining_balance) => seq![
                        Phase1ErrorView::StakeNonZeroAccountBalance {
                            reward_address,
                            remaining_balance,
                        },
                    ],
                    None => Seq::empty(),
                }
            } else {
                seq![Phase1ErrorView::StakeNotRegistered { reward_address }]
            }
        },
        CertificateTypeView::StakeDelegation { reward_address, pool_id } => {
            account_errors(state, reward_address) + pool_errors(state, pool_id)
        },
        CertificateTypeView::PoolRegistration { pool_cost, .. } => {
            let min_cost = context.protocol_parameters.min_pool_cost;
            error_if(
                pool_cost < min_cost,
                Phase1ErrorView::StakePoolCostTooLow { specified_cost: pool_cost, min_cost },
            )
        },
        CertificateTypeView::PoolRetirement { pool_id, retirement_epoch } => {
            let min_epoch = current_epoch + 1;
            let max_epoch = current_epoch
                + context.protocol_parameters.max_epoch_for_pool_retirement;
            error_if(
                !state.is_registered(EntityView::Pool(pool_id)),
                Phase1ErrorView::StakePoolNotRegistered { pool_id },
            ) + error_if(
                retirement_epoch < min_epoch || retirement_epoch > max_epoch,
                Phase1ErrorView::WrongRetirementEpoch {
                    specified_epoch: retirement_epoch,
                    current_epoch,
                    min_epoch: min_epoch as u64,
                    max_epoch: max_epoch as u64,
                },
            )
        },
        CertificateTypeView::StakeRegistrationAndDelegation { reward_address, pool_id } => {
            new_account_errors(state, reward_address) + pool_errors(state, pool_id)
        },
        CertificateTypeView::StakeAndVoteDelegation { reward_address, pool_id, .. } => {
            account_errors(state, reward_address) + pool_errors(state, pool_id)
        },
        CertificateTypeView::StakeVoteRegistrationAndDelegation { reward_address, pool_id, .. } => {
            new_account_errors(state, reward_address) + pool_errors(state, pool_id)
        },
        CertificateTypeView::VoteDelegation { reward_address, .. } => {
            account_errors(state, reward_address)
        },
        CertificateTypeView::VoteRegistrationAndDelegation { reward_address, .. } => {
            new_account_errors(state, reward_address)
        },
        CertificateTypeView::GenesisKeyDelegation => {
            seq![Phase1ErrorView::GenesisKeyDelegationCertificateIsNotSupported]
        },
        CertificateTypeView::MoveInstantaneousRewardsCert => {
            seq![Phase1ErrorView::MoveInstantaneousRewardsCertificateIsNotSupported]
        },
        CertificateTypeView::CommitteeHotAuth {
            committee_cold_credential: cold,
            committee_hot_credential: hot,
        } => {
            error_if(
                state.resignations.contains(cold),
                Phase1ErrorView::CommitteeHasPreviouslyResigned { committee_credential: hot },
            ) + error_if(
                resigned_before(context, cold),
                Phase1ErrorView::CommitteeHasPreviouslyResigned { committee_credential: hot },
            ) + error_if(
                !is_member(context, cold),
                Phase1ErrorView::CommitteeIsUnknown { committee_key_hash: cold },
            )
        },
        CertificateTypeView::CommitteeColdResign { committee_cold_credential: cold } => {
            error_if(
                resigned_before(context, cold),
                Phase1ErrorView::CommitteeHasPreviouslyResigned { committee_credential: cold },
            ) + error_if(
                !is_member(context, cold),
                Phase1ErrorView::CommitteeIsUnknown { committee_key_hash: cold },
            )
        },
        CertificateTypeView::DRepRegistration { .. }
        | CertificateTypeView::DRepDeregistration { .. }
        | CertificateTypeView::DRepUpdate { .. } => Seq::empty(),
    }
}

/// The warning on an entity that a certificate of the transaction registers.
pub open spec fn duplicate_warnings(
    state: StateView,
    entity: EntityView,
    entity_type: Seq<char>,
    entity_id: Seq<char>,
    cert_index: u32,
) -> Seq<Phase1WarningView> {
    warning_if(
        state.registered.contains(entity),
        Phase1WarningView::DuplicateRegistrationInTx { entity_type, entity_id, cert_index },
    )
}

/// The warning on a representative that should be registered.
pub open spec fn drep_warnings(state: StateView, drep_id: Seq<char>, cert_index: u32) -> Seq<
    Phase1WarningView,
> {
    warning_if(
        !state.is_available(EntityView::DRep(drep_id)),
        Phase1WarningView::DRepNotRegistered { cert_index },
    )
}

/// The warning on a representative that a vote is delegated to. A standing vote,
/// whose identifier is empty, needs no registration.
pub open spec fn delegate_warnings(state: StateView, drep: Seq<char>, cert_index: u32) -> Seq<
    Phase1WarningView,
> {
    if drep.len() == 0 {
        Seq::empty()
    } else {
        drep_warnings(state, drep, cert_index)
    }
}

/// The warning on an account that is to be registered.
pub open spec fn new_account_warnings(
    state: StateView,
    reward_address: Seq<char>,
    cert_index: u32,
) -> Seq<Phase1WarningView> {
    duplicate_warnings(
        state,
        EntityView::Account(reward_address),
        "stake key"@,
        reward_address,
        cert_index,
    )
}

/// The warnings on a certificate.
pub open spec fn certificate_warnings(state: StateView, info: CertificateInfoView) -> Seq<
    Phase1WarningView,
> {
    let cert_index = info.cert_index;
    match info.cert_type {
        CertificateTypeView::StakeRegistration { reward_address } => {
            new_account_warnings(state, reward_address, cert_index)
        },
        CertificateTypeView::StakeRegistrationAndDelegation { reward_address, .. } => {
            new_account_warnings(state, reward_address, cert_index)
        },
        CertificateTypeView::StakeVoteRegistrationAndDelegation { reward_address, drep, .. } => {
            new_account_warnings(state, reward_address, cert_index) + delegate_warnings(
                state,
                drep,
                cert_index,
            )
        },
        CertificateTypeView::VoteRegistrationAndDelegation { reward_address, drep } => {
            new_account_warnings(state, reward_address, cert_index) + delegate_warnings(
                state,
                drep,
                cert_index,
            )
        },
        CertificateTypeView::StakeAndVoteDelegation { drep, .. } => {
            delegate_warnings(state, drep, cert_index)
        },
        CertificateTypeView::VoteDelegation { drep, .. } => {
            delegate_warnings(state, drep, cert_index)
        },
        CertificateTypeView::PoolRegistration { pool_id, .. } => {
            duplicate_warnings(state, EntityView::Pool(pool_id), "pool"@, pool_id, cert_index)
                + warning_if(
                state.initial.contains(EntityView::Pool(pool_id))
                    && !state.retirements.contains_key(pool_id),
                Phase1WarningView::PoolAlreadyRegistered { pool_id },
            )
        },
        CertificateTypeView::DRepRegistration { drep_id } => {
            duplicate_warnings(state, EntityView::DRep(drep_id), "DRep"@, drep_id, cert_index)
                + warning_if(
                state.is_already_registered(EntityView::DRep(drep_id)),
                Phase1WarningView::DRepAlreadyRegistered { drep_id },
            )
        },
        CertificateTypeView::DRepDeregistration { drep_id } => {
            drep_warnings(state, drep_id, cert_index)
        },
        CertificateTypeView::DRepUpdate { drep_id } => drep_warnings(state, drep_id, cert_index),
        CertificateTypeView::CommitteeHotAuth {
            committee_cold_credential: cold,
            committee_hot_credential: hot,
        } => {
            warning_if(
                state.resignations.contains(cold),
                Phase1WarningView::DuplicateCommitteeHotRegistrationInTx {
                    committee_credential: hot,
                    cert_index,
                },
            )
        },
        CertificateTypeView::CommitteeColdResign { committee_cold_credential: cold } => {
            warning_if(
                state.resignations.contains(cold),
                Phase1WarningView::DuplicateCommitteeColdResignationInTx {
                    committee_credential: cold,
                    cert_index,
                },
            )
        },
        _ => Seq::empty(),
    }
}

/// The errors on certificates, in order, each with its location.
pub open spec fn all_errors(
    state: StateView,
    context: ValidationInputContext,
    certificates: Seq<CertificateInfoView>,
    current_epoch: u64,
) -> Seq<LocatedError>
    decreases certificates.len(),
{
    if certificates.len() == 0 {
        Seq::empty()
    } else {
        let last = certificates.last();
        all_errors(state, context, certificates.drop_last(), current_epoch) + located_errors(
            certificate_errors(state, context, last.cert_type, current_epoch),
            last.cert_index,
        )
    }
}

/// The warnings on certificates, in order, each with its location.
pub open spec fn all_warnings(
    state: StateView,
    certificates: Seq<CertificateInfoView>,
) -> Seq<LocatedWarning>
    decreases certificates.len(),
{
    if certificates.len() == 0 {
        Seq::empty()
    } else {
        let last = certificates.last();
        all_warnings(state, certificates.drop_last()) + located_warnings(
            certificate_warnings(state, last),
            last.cert_index,
        )
    }
}

/// Standard epoch length in slots (5 days)
pub const SLOTS_PER_EPOCH: u64 = 432000;

/// The epoch that a slot is in.
pub open spec fn epoch_of(slot: u64) -> u64 {
    slot / SLOTS_PER_EPOCH
}

/// The errors on the certificates of a transaction. Each is judged by what is registered
/// when all of them have been taken in.
pub open spec fn transaction_errors(
    certs: Seq<CertificateView>,
    context: ValidationInputContext,
) -> Seq<LocatedError> {
    let infos = all_processed(certs, context.network_type);
    all_errors(
        state_after(initial_state(context), infos),
        context,
        infos,
        epoch_of(context.slot),
    )
}

/// The warnings on the certificates of a transaction.
pub open spec fn transaction_warnings(
    certs: Seq<CertificateView>,
    context: ValidationInputContext,
) -> Seq<LocatedWarning> {
    let infos = all_processed(certs, context.network_type);
    all_warnings(state_after(initial_state(context), infos), infos)
}

/// Certificates, taken by their views.
pub open spec fn info_views(certificates: Seq<CertificateInfo>) -> Seq<CertificateInfoView> {
    Seq::new(certificates.len(), |i: int| certificates[i]@)
}

/// Adds an error on a certificate to the report.
fn report_error(errors: &mut Vec<ValidationPhase1Error>, error: Phase1Error, cert_index: u32)
    ensures
        error_views(final(errors)@) == error_views(old(errors)@) + located_errors(
            seq![error@],
            cert_index,
        ),
{
    errors.push(ValidationPhase1Error::new(error, location_text(cert_index)));
    assert(error_views(errors@) =~= error_views(old(errors)@) + located_errors(
        seq![error@],
        cert_index,
    ));
}

/// Adds a warning on a certificate to the report.
fn report_warning(
    warnings: &mut Vec<ValidationPhase1Warning>,
    warning: Phase1Warning,
    cert_index: u32,
)
    ensures
        warning_views(final(warnings)@) == warning_views(old(warnings)@) + located_warnings(
            seq![warning@],
            cert_index,
        ),
{
    warnings.push(ValidationPhase1Warning::new(warning, location_text(cert_index)));
    assert(warning_views(warnings@) =~= warning_views(old(warnings)@) + located_warnings(
        seq![warning@],
        cert_index,
    ));
}

/// Checks the certificates of one transaction.
pub struct RegistrationValidator<'a> {
    certificates: Vec<CertificateInfo>,
    registration_state: RegistrationState,
    validation_input_context: &'a ValidationInputContext,
}

impl<'a> RegistrationValidator<'a> {
    /// The certificates, each with its index.
    pub closed spec fn certificates(self) -> Seq<CertificateInfoView> {
        info_views(self.certificates@)
    }

    /// What is registered, with all certificates taken in.
    pub closed spec fn state(self) -> StateView {
        self.registration_state@
    }

    /// What is known of the ledger.
    pub closed spec fn context(self) -> ValidationInputContext {
        *self.validation_input_context
    }

    /// Whether this is the validator for these certificates.
    pub open spec fn is_for(self, certs: Seq<CertificateView>) -> bool {
        &&& self.certificates() == all_processed(certs, self.context().network_type)
        &&& self.state() == state_after(initial_state(self.context()), self.certificates())
    }

    /// A validator for the certificates of `tx_body`.
    pub fn new(
        tx_body: &csl::TransactionBody,
        validation_input_context: &'a ValidationInputContext,
    ) -> (validator: Self)
        ensures
            validator.context() == *validation_input_context,
            validator.certificates() == all_processed(
                certificates_in(*tx_body),
                validation_input_context.network_type,
            ),
            validator.state() == state_after(
                initial_state(*validation_input_context),
                validator.certificates(),
            ),
            validator.is_for(certificates_in(*tx_body)),
    {
        let certificates = read_certificates(tx_body);
        Self::of_certificates(&certificates, validation_input_context)
    }

    /// A validator for certificates that have been read out of a transaction.
    pub fn of_certificates(
        certs: &Vec<Certificate>,
        validation_input_context: &'a ValidationInputContext,
    ) -> (validator: Self)
        requires
            forall|i: int| 0 <= i < certs@.len() ==> (#[trigger] certs@[i])@.wf(),
        ensures
            validator.context() == *validation_input_context,
            validator.certificates() == all_processed(
                certificate_views(certs@),
                validation_input_context.network_type,
            ),
            validator.state() == state_after(
                initial_state(*validation_input_context),
                validator.certificates(),
            ),
            validator.is_for(certificate_views(certs@)),
    {
        let mut certificates: Vec<CertificateInfo> = Vec::new();
        let mut registration_state = RegistrationState::new();

        // Load initial registration state from validation context
        Self::load_initial_state(&mut registration_state, validation_input_context);
        proof {
            assert(registration_state@.initial =~= initial_entities(*validation_input_context));
        }

        // Process certificates and collect information
        let ghost network = validation_input_context.network_type;
        let ghost all = all_processed(certificate_views(certs@), network);
        let ghost start = registration_state@;
        assert(info_views(certificates@) =~= all.take(0));
        let mut i: usize = 0;
        while i < certs.len()
            invariant
                i <= certs@.len(),
                network == validation_input_context.network_type,
                all == all_processed(certificate_views(certs@), network),
                forall|j: int| 0 <= j < certs@.len() ==> (#[trigger] certs@[j])@.wf(),
                info_views(certificates@) == all.take(i as int),
                registration_state.wf(),
                registration_state@ == state_after(start, all.take(i as int)),
            decreases certs@.len() - i,
        {
            let cert_info = Self::process_certificate(
                &certs[i],
                #[verifier::truncate]
                (i as u32),
                validation_input_context,
            );
            Self::update_state(&mut registration_state, &cert_info.cert_type);
            proof {
                assert(all.take(i + 1).drop_last() =~= all.take(i as int));
                assert(all.take(i + 1).last() == all[i as int]);
                assert(cert_info@ == all[i as int]);
            }
            certificates.push(cert_info);
            assert(info_views(certificates@) =~= all.take(i + 1));
            i = i + 1;
        }
        assert(all.take(i as int) =~= all);

        RegistrationValidator { certificates, registration_state, validation_input_context }
    }

    /// What a certificate asks for on the network of the context.
    pub fn process_certificate(
        cert: &Certificate,
        cert_index: u32,
        context: &ValidationInputContext,
    ) -> (info: CertificateInfo)
        requires
            cert@.wf(),
        ensures
            info@ == (CertificateInfoView {
                cert_index,
                cert_type: processed(cert@, context.network_type),
            }),
    {
        let network = &context.network_type;
        let cert_type = match cert {
            Certificate::StakeRegistration { credential } => CertificateType::StakeRegistration {
                reward_address: credential_to_bech32_reward_address(credential, network),
            },
            Certificate::StakeDeregistration { credential } => {
                CertificateType::StakeDeregistration {
                    reward_address: credential_to_bech32_reward_address(credential, network),
                }
            },
            Certificate::StakeDelegation { credential, pool } => CertificateType::StakeDelegation {
                reward_address: credential_to_bech32_reward_address(credential, network),
                pool_id: hex_encode(pool.as_slice()),
            },
            Certificate::PoolRegistration { operator, cost } => {
                CertificateType::PoolRegistration {
                    pool_id: hex_encode(operator.as_slice()),
                    pool_cost: *cost,
                }
            },
            Certificate::PoolRetirement { pool, epoch } => CertificateType::PoolRetirement {
                pool_id: hex_encode(pool.as_slice()),
                retirement_epoch: *epoch as u64,
            },
            Certificate::DRepRegistration { credential } => CertificateType::DRepRegistration {
                drep_id: drep_to_id(&LocalDRep::new_from_credential(credential)),
            },
            Certificate::DRepDeregistration { credential } => {
                CertificateType::DRepDeregistration {
                    drep_id: drep_to_id(&LocalDRep::new_from_credential(credential)),
                }
            },
            Certificate::DRepUpdate { credential } => CertificateType::DRepUpdate {
                drep_id: drep_to_id(&LocalDRep::new_from_credential(credential)),
            },
            Certificate::CommitteeHotAuth { cold, hot } => CertificateType::CommitteeHotAuth {
                committee_cold_credential: cold.copy(),
                committee_hot_credential: hot.copy(),
            },
            Certificate::CommitteeColdResign { cold } => CertificateType::CommitteeColdResign {
                committee_cold_credential: cold.copy(),
            },
            Certificate::StakeRegistrationAndDelegation { credential, pool } => {
                CertificateType::StakeRegistrationAndDelegation {
                    reward_address: credential_to_bech32_reward_address(credential, network),
                    pool_id: hex_encode(pool.as_slice()),
                }
            },
            Certificate::StakeAndVoteDelegation { credential, pool, drep } => {
                CertificateType::StakeAndVoteDelegation {
                    reward_address: credential_to_bech32_reward_address(credential, network),
                    pool_id: hex_encode(pool.as_slice()),
                    drep: drep_to_id(drep),
                }
            },
            Certificate::StakeVoteRegistrationAndDelegation { credential, pool, drep } => {
                CertificateType::StakeVoteRegistrationAndDelegation {
                    reward_address: credential_to_bech32_reward_address(credential, network),
                    pool_id: hex_encode(pool.as_slice()),
                    drep: drep_to_id(drep),
                }
            },
            Certificate::VoteDelegation { credential, drep } => CertificateType::VoteDelegation {
                reward_address: credential_to_bech32_reward_address(credential, network),
                drep: drep_to_id(drep),
            },
            Certificate::VoteRegistrationAndDelegation { credential, drep } => {
                CertificateType::VoteRegistrationAndDelegation {
                    reward_address: credential_to_bech32_reward_address(credential, network),
                    drep: drep_to_id(drep),
                }
            },
            // These certificate types are not supported
            Certificate::GenesisKeyDelegation => CertificateType::GenesisKeyDelegation,
            Certificate::MoveInstantaneousRewardsCert => {
                CertificateType::MoveInstantaneousRewardsCert
            },
        };
        CertificateInfo { cert_index, cert_type }
    }

    /// Whether the entity is registered at the start, or by a certificate.
    fn is_registered(&self, entity: &RegistrableEntity) -> (registered: bool)
        ensures
            registered == self.state().is_registered(entity@),
    {
        self.registration_state.initial_registrations.contains(entity)
            || self.registration_state.registrations_in_tx.contains(entity)
    }

    /// Whether the entity is registered, and no certificate deregisters it.
    fn is_available(&self, entity: &RegistrableEntity) -> (available: bool)
        ensures
            available == self.state().is_available(entity@),
    {
        self.is_registered(entity) && !self.registration_state.deregistrations_in_tx.contains(
            entity,
        )
    }

    /// Whether the entity is registered at the start, and no certificate
    /// deregisters it.
    fn is_already_registered(&self, entity: &RegistrableEntity) -> (registered: bool)
        ensures
            registered == self.state().is_already_registered(entity@),
    {
        self.registration_state.initial_registrations.contains(entity)
            && !self.registration_state.deregistrations_in_tx.contains(entity)
    }

    /// Check for duplicate registration in the same transaction
    fn check_duplicate(
        &self,
        entity: &RegistrableEntity,
        entity_type: &str,
        entity_id: &String,
        cert_index: u32,
        warnings: &mut Vec<ValidationPhase1Warning>,
    )
        ensures
            warning_views(final(warnings)@) == warning_views(old(warnings)@) + located_warnings(
                duplicate_warnings(self.state(), entity@, entity_type@, entity_id@, cert_index),
                cert_index,
            ),
    {
        if self.registration_state.registrations_in_tx.contains(entity) {
            report_warning(
                warnings,
                Phase1Warning::DuplicateRegistrationInTx {
                    entity_type: entity_type.to_owned(),
                    entity_id: entity_id.clone(),
                    cert_index,
                },
                cert_index,
            );
        } else {
            assert(warning_views(warnings@) =~= warning_views(old(warnings)@)
                + located_warnings(Seq::empty(), cert_index));
        }
    }

    /// Check if stake key is already registered, or registered twice
    fn check_new_account(
        &self,
        reward_address: &String,
        cert_index: u32,
        errors: &mut Vec<ValidationPhase1Error>,
        warnings: &mut Vec<ValidationPhase1Warning>,
    )
        ensures
            error_views(final(errors)@) == error_views(old(errors)@) + located_errors(
                new_account_errors(self.state(), reward_address@),
                cert_index,
            ),
            warning_views(final(warnings)@) == warning_views(old(warnings)@) + located_warnings(
                new_account_warnings(self.state(), reward_address@, cert_index),
                cert_index,
            ),
    {
        let entity = RegistrableEntity::Account(reward_address.clone());
        self.check_duplicate(&entity, "stake key", reward_address, cert_index, warnings);
        if self.is_already_registered(&entity) {
            report_error(
                errors,
                Phase1Error::StakeAlreadyRegistered { reward_address: reward_address.clone() },
                cert_index,
            );
        } else {
            assert(error_views(errors@) =~= error_views(old(errors)@) + located_errors(
                Seq::empty(),
                cert_index,
            ));
        }
    }

    /// Check if stake key is registered
    fn check_account(
        &self,
        reward_address: &String,
        cert_index: u32,
        errors: &mut Vec<ValidationPhase1Error>,
    )
        ensures
            error_views(final(errors)@) == error_views(old(errors)@) + located_errors(
                account_errors(self.state(), reward_address@),
                cert_index,
            ),
    {
        if !self.is_available(&RegistrableEntity::Account(reward_address.clone())) {
            report_error(
                errors,
                Phase1Error::StakeNotRegistered { reward_address: reward_address.clone() },
                cert_index,
            );
        } else {
            assert(error_views(errors@) =~= error_views(old(errors)@) + located_errors(
                Seq::empty(),
                cert_index,
            ));
        }
    }

    /// Check if pool is registered
    fn check_pool(
        &self,
        pool_id: &String,
        cert_index: u32,
        errors: &mut Vec<ValidationPhase1Error>,
    )
        ensures
            error_views(final(errors)@) == error_views(old(errors)@) + located_errors(
                pool_errors(self.state(), pool_id@),
                cert_index,
            ),
    {
        let is_pool_registered = self.is_registered(&RegistrableEntity::Pool(pool_id.clone()));
        let is_pool_retiring = self.registration_state.pool_retirements_in_tx.contains_key(pool_id);
        if !is_pool_registered || is_pool_retiring {
            report_error(
                errors,
                Phase1Error::StakePoolNotRegistered { pool_id: pool_id.clone() },
                cert_index,
            );
        } else {
            assert(error_views(errors@) =~= error_views(old(errors)@) + located_errors(
                Seq::empty(),
                cert_index,
            ));
        }
    }

    /// Check if DRep is registered
    fn check_drep(
        &self,
        drep_id: &String,
        cert_index: u32,
        warnings: &mut Vec<ValidationPhase1Warning>,
    )
        ensures
            warning_views(final(warnings)@) == warning_views(old(warnings)@) + located_warnings(
                drep_warnings(self.state(), drep_id@, cert_index),
                cert_index,
            ),
    {
        if !self.is_available(&RegistrableEntity::DRep(drep_id.clone())) {
            report_warning(warnings, Phase1Warning::DRepNotRegistered { cert_index }, cert_index);
        } else {
            assert(warning_views(warnings@) =~= warning_views(old(warnings)@)
                + located_warnings(Seq::empty(), cert_index));
        }
    }

    /// Check if DRep is registered (if not empty)
    fn check_delegate(
        &self,
        drep: &String,
        cert_index: u32,
        warnings: &mut Vec<ValidationPhase1Warning>,
    )
        ensures
            warning_views(final(warnings)@) == warning_views(old(warnings)@) + located_warnings(
                delegate_warnings(self.state(), drep@, cert_index),
                cert_index,
            ),
    {
        if !drep.as_str().is_empty() {
            self.check_drep(drep, cert_index, warnings);
        } else {
            assert(warning_views(warnings@) =~= warning_views(old(warnings)@)
                + located_warnings(Seq::empty(), cert_index));
        }
    }

    /// Whether the committee member had resigned before this transaction.
    fn has_resigned_before(&self, cold: &LocalCredential) -> (resigned: bool)
        ensures
            resigned == resigned_before(self.context(), cold@),
    {
        let context = self.validation_input_context;
        if let Some(member) = context.find_current_committee_member_by_cold_credential(cold) {
            member.is_resigned
        } else if let Some(member) = context.find_potential_committee_member_by_cold_credential(
            cold,
        ) {
            member.is_resigned
        } else {
            false
        }
    }

    /// Check if committee cold key is in the list of committee members
    fn check_member(
        &self,
        cold: &LocalCredential,
        cert_index: u32,
        errors: &mut Vec<ValidationPhase1Error>,
    )
        ensures
            error_views(final(errors)@) == error_views(old(errors)@) + located_errors(
                error_if(
                    !is_member(self.context(), cold@),
                    Phase1ErrorView::CommitteeIsUnknown { committee_key_hash: cold@ },
                ),
                cert_index,
            ),
    {
        let context = self.validation_input_context;
        let is_potential_member = context.find_potential_committee_member_by_cold_credential(
            cold,
        ).is_some();
        let is_current_member = context.find_current_committee_member_by_cold_credential(
            cold,
        ).is_some();
        if !is_potential_member && !is_current_member {
            report_error(
                errors,
                Phase1Error::CommitteeIsUnknown { committee_key_hash: cold.copy() },
                cert_index,
            );
        } else {
            assert(error_views(errors@) =~= error_views(old(errors)@) + located_errors(
                Seq::empty(),
                cert_index,
            ));
        }
    }

    /// Adds what is to be said of a certificate to the reports.
    pub fn validate_certificate(
        &self,
        cert_info: &CertificateInfo,
        current_epoch: u64,
        errors: &mut Vec<ValidationPhase1Error>,
        warnings: &mut Vec<ValidationPhase1Warning>,
    )
        requires
            cert_info@.cert_type is PoolRetirement ==> {
                &&& current_epoch < u64::MAX
                &&& current_epoch + self.context().protocol_parameters.max_epoch_for_pool_retirement
                    <= u64::MAX
            },
        ensures
            error_views(final(errors)@) == error_views(old(errors)@) + located_errors(
                certificate_errors(
                    self.state(),
                    self.context(),
                    cert_info@.cert_type,
                    current_epoch,
                ),
                cert_info.cert_index,
            ),
            warning_views(final(warnings)@) == warning_views(old(warnings)@) + located_warnings(
                certificate_warnings(self.state(), cert_info@),
                cert_info.cert_index,
            ),
    {
        let cert_index = cert_info.cert_index;
        let ghost errors_before = error_views(errors@);
        let ghost warnings_before = warning_views(warnings@);
        let ghost expected_errors = certificate_errors(
            self.state(),
            self.context(),
            cert_info@.cert_type,
            current_epoch,
        );
        let ghost expected_warnings = certificate_warnings(self.state(), cert_info@);
        match &cert_info.cert_type {
            CertificateType::StakeRegistration { reward_address } => {
                self.check_new_account(reward_address, cert_index, errors, warnings);
            },
            CertificateType::StakeDeregistration { reward_address } => {
                let entity = RegistrableEntity::Account(reward_address.clone());
                if !self.is_available(&entity) {
                    report_error(
                        errors,
                        Phase1Error::StakeNotRegistered { reward_address: reward_address.clone() },
                        cert_index,
                    );
                } else {
                    // Check balance
                    if let Some(account_context) =
                        self.validation_input_context.find_account_context(reward_address) {
                        if let Some(balance) = account_context.balance {
                            if balance > 0 {
                                report_error(
                                    errors,
                                    Phase1Error::StakeNonZeroAccountBalance {
                                        reward_address: reward_address.clone(),
                                        remaining_balance: balance,
                                    },
                                    cert_index,
                                );
                            }
                        }
                    }
                }
            },
            CertificateType::StakeDelegation { reward_address, pool_id } => {
                self.check_account(reward_address, cert_index, errors);
                self.check_pool(pool_id, cert_index, errors);
            },
            CertificateType::PoolRegistration { pool_id, pool_cost } => {
                let entity = RegistrableEntity::Pool(pool_id.clone());
                self.check_duplicate(&entity, "pool", pool_id, cert_index, warnings);

                // Check pool cost
                let min_pool_cost: u64 =
                    self.validation_input_context.protocol_parameters.min_pool_cost;
                if *pool_cost < min_pool_cost {
                    report_error(
                        errors,
                        Phase1Error::StakePoolCostTooLow {
                            specified_cost: *pool_cost,
                            min_cost: min_pool_cost,
                        },
                        cert_index,
                    );
                }

                // Check if pool is already registered (warning only)
                if self.registration_state.initial_registrations.contains(&entity)
                    && !self.registration_state.pool_retirements_in_tx.contains_key(pool_id) {
                    report_warning(
                        warnings,
                        Phase1Warning::PoolAlreadyRegistered { pool_id: pool_id.clone() },
                        cert_index,
                    );
                }
            },
            CertificateType::PoolRetirement { pool_id, retirement_epoch } => {
                // Check if pool is registered
                if !self.is_registered(&RegistrableEntity::Pool(pool_id.clone())) {
                    report_error(
                        errors,
                        Phase1Error::StakePoolNotRegistered { pool_id: pool_id.clone() },
                        cert_index,
                    );
                }

                // Check retirement epoch validity
                let min_retirement_epoch: u64 = current_epoch + 1;
                let parameters = &self.validation_input_context.protocol_parameters;
                let max_retirement_epoch: u64 = current_epoch
                    + parameters.max_epoch_for_pool_retirement as u64;
                if *retirement_epoch < min_retirement_epoch || *retirement_epoch
                    > max_retirement_epoch {
                    report_error(
                        errors,
                        Phase1Error::WrongRetirementEpoch {
                            specified_epoch: *retirement_epoch,
                            current_epoch,
                            min_epoch: min_retirement_epoch,
                            max_epoch: max_retirement_epoch,
                        },
                        cert_index,
                    );
                }
            },
            CertificateType::DRepRegistration { drep_id } => {
                let entity = RegistrableEntity::DRep(drep_id.clone());
                self.check_duplicate(&entity, "DRep", drep_id, cert_index, warnings);

                // DRep re-registration is typically allowed for updates
                if self.is_already_registered(&entity) {
                    report_warning(
                        warnings,
                        Phase1Warning::DRepAlreadyRegistered { drep_id: drep_id.clone() },
                        cert_index,
                    );
                }
            },
            CertificateType::DRepDeregistration { drep_id } => {
                self.check_drep(drep_id, cert_index, warnings);
            },
            CertificateType::DRepUpdate { drep_id } => {
                self.check_drep(drep_id, cert_index, warnings);
            },
            CertificateType::StakeRegistrationAndDelegation { reward_address, pool_id } => {
                self.check_new_account(reward_address, cert_index, errors, warnings);
                self.check_pool(pool_id, cert_index, errors);
            },
            CertificateType::StakeAndVoteDelegation { reward_address, pool_id, drep } => {
                self.check_account(reward_address, cert_index, errors);
                self.check_pool(pool_id, cert_index, errors);
                self.check_delegate(drep, cert_index, warnings);
            },
            CertificateType::StakeVoteRegistrationAndDelegation {
                reward_address,
                pool_id,
                drep,
            } => {
                self.check_new_account(reward_address, cert_index, errors, warnings);
                self.check_pool(pool_id, cert_index, errors);
                self.check_delegate(drep, cert_index, warnings);
            },
            CertificateType::VoteDelegation { reward_address, drep } => {
                self.check_account(reward_address, cert_index, errors);
                self.check_delegate(drep, cert_index, warnings);
            },
            CertificateType::VoteRegistrationAndDelegation { reward_address, drep } => {
                self.check_new_account(reward_address, cert_index, errors, warnings);
                self.check_delegate(drep, cert_index, warnings);
            },
            CertificateType::GenesisKeyDelegation => {
                report_error(
                    errors,
                    Phase1Error::GenesisKeyDelegationCertificateIsNotSupported,
                    cert_index,
                );
            },
            CertificateType::MoveInstantaneousRewardsCert => {
                report_error(
                    errors,
                    Phase1Error::MoveInstantaneousRewardsCertificateIsNotSupported,
                    cert_index,
                );
            },
            CertificateType::CommitteeHotAuth {
                committee_cold_credential,
                committee_hot_credential,
            } => {
                // Check if committee member has already resigned in this transaction
                if self.registration_state.committee_resignations_in_tx.contains(
                    committee_cold_credential,
                ) {
                    report_warning(
                        warnings,
                        Phase1Warning::DuplicateCommitteeHotRegistrationInTx {
                            committee_credential: committee_hot_credential.copy(),
                            cert_index,
                        },
                        cert_index,
                    );
                    report_error(
                        errors,
                        Phase1Error::CommitteeHasPreviouslyResigned {
                            committee_credential: committee_hot_credential.copy(),
                        },
                        cert_index,
                    );
                }

                // Check if committee member has already resigned previously
                if self.has_resigned_before(committee_cold_credential) {
                    report_error(
                        errors,
                        Phase1Error::CommitteeHasPreviouslyResigned {
                            committee_credential: committee_hot_credential.copy(),
                        },
                        cert_index,
                    );
                }
                self.check_member(committee_cold_credential, cert_index, errors);
            },
            CertificateType::CommitteeColdResign { committee_cold_credential } => {
                // Check if committee member has already resigned previously
                if self.has_resigned_before(committee_cold_credential) {
                    report_error(
                        errors,
                        Phase1Error::CommitteeHasPreviouslyResigned {
                            committee_credential: committee_cold_credential.copy(),
                        },
                        cert_index,
                    );
                }
                if self.registration_state.committee_resignations_in_tx.contains(
                    committee_cold_credential,
                ) {
                    report_warning(
                        warnings,
                        Phase1Warning::DuplicateCommitteeColdResignationInTx {
                            committee_credential: committee_cold_credential.copy(),
                            cert_index,
                        },
                        cert_index,
                    );
                }
                self.check_member(committee_cold_credential, cert_index, errors);
            },
        }
        assert(error_views(errors@) =~= errors_before + located_errors(
            expected_errors,
            cert_index,
        ));
        assert(warning_views(warnings@) =~= warnings_before + located_warnings(
            expected_warnings,
            cert_index,
        ));
    }

    /// Checks every certificate, in order.
    pub fn validate(&self) -> (result: ValidationResult)
        ensures
            error_views(result.errors@) == all_errors(
                self.state(),
                self.context(),
                self.certificates(),
                epoch_of(self.context().slot),
            ),
            warning_views(result.warnings@) == all_warnings(self.state(), self.certificates()),
            forall|certs: Seq<CertificateView>| #[trigger]
                self.is_for(certs) ==> {
                    &&& error_views(result.errors@) == transaction_errors(certs, self.context())
                    &&& warning_views(result.warnings@) == transaction_warnings(
                        certs,
                        self.context(),
                    )
                },
    {
        let mut errors: Vec<ValidationPhase1Error> = Vec::new();
        let mut warnings: Vec<ValidationPhase1Warning> = Vec::new();

        // Calculate epoch parameters
        let current_epoch: u64 = self.validation_input_context.slot / SLOTS_PER_EPOCH;

        let ghost all = self.certificates();
        assert(error_views(errors@) =~= Seq::empty());
        assert(warning_views(warnings@) =~= Seq::empty());
        let mut i: usize = 0;
        while i < self.certificates.len()
            invariant
                i <= self.certificates@.len(),
                all == self.certificates(),
                all.len() == self.certificates@.len(),
                current_epoch <= u64::MAX / SLOTS_PER_EPOCH,
                error_views(errors@) == all_errors(
                    self.state(),
                    self.context(),
                    all.take(i as int),
                    current_epoch,
                ),
                warning_views(warnings@) == all_warnings(self.state(), all.take(i as int)),
            decreases self.certificates@.len() - i,
        {
            self.validate_certificate(
                &self.certificates[i],
                current_epoch,
                &mut errors,
                &mut warnings,
            );
            proof {
                assert(all.take(i + 1).drop_last() =~= all.take(i as int));
                assert(all.take(i + 1).last() == self.certificates@[i as int]@);
            }
            i = i + 1;
        }
        assert(all.take(i as int) =~= all);
        ValidationResult::new_phase_1(errors, warnings)
    }

    /// Takes in what the ledger knows to be registered.
    pub fn load_initial_state(state: &mut RegistrationState, context: &ValidationInputContext)
        requires
            old(state).wf(),
        ensures
            final(state).wf(),
            final(state)@ == (StateView {
                initial: old(state)@.initial.union(initial_entities(*context)),
                ..old(state)@
            }),
    {
        let ghost before = state@;
        let ghost accounts = context.account_contexts@;
        let ghost pools = context.pool_contexts@;
        let ghost dreps = context.drep_contexts@;

        // Load registered accounts
        let mut i: usize = 0;
        assert(state@.initial =~= before.initial.union(account_entities(accounts.take(0))));
        while i < context.account_contexts.len()
            invariant
                i <= accounts.len(),
                accounts == context.account_contexts@,
                state.wf(),
                state@ == (StateView {
                    initial: before.initial.union(account_entities(accounts.take(i as int))),
                    ..before
                }),
            decreases accounts.len() - i,
        {
            let account = &context.account_contexts[i];
            if account.is_registered {
                state.initial_registrations.insert(
                    RegistrableEntity::Account(account.bech32_address.clone()),
                );
            }
            proof {
                account_entities_grow(accounts, i as int);
                assert(state@.initial =~= before.initial.union(
                    account_entities(accounts.take(i + 1)),
                ));
            }
            i = i + 1;
        }
        assert(accounts.take(i as int) =~= accounts);

        // Load registered pools
        let ghost with_accounts = state@.initial;
        let mut i: usize = 0;
        assert(state@.initial =~= with_accounts.union(pool_entities(pools.take(0))));
        while i < context.pool_contexts.len()
            invariant
                i <= pools.len(),
                pools == context.pool_contexts@,
                state.wf(),
                state@ == (StateView {
                    initial: with_accounts.union(pool_entities(pools.take(i as int))),
                    ..before
                }),
            decreases pools.len() - i,
        {
            let pool = &context.pool_contexts[i];
            if pool.is_registered {
                state.initial_registrations.insert(RegistrableEntity::Pool(pool.pool_id.clone()));
            }
            proof {
                pool_entities_grow(pools, i as int);
                assert(state@.initial =~= with_accounts.union(pool_entities(pools.take(i + 1))));
            }
            i = i + 1;
        }
        assert(pools.take(i as int) =~= pools);

        // Load registered DReps
        let ghost with_pools = state@.initial;
        let mut i: usize = 0;
        assert(state@.initial =~= with_pools.union(drep_entities(dreps.take(0))));
        while i < context.drep_contexts.len()
            invariant
                i <= dreps.len(),
                dreps == context.drep_contexts@,
                state.wf(),
                state@ == (StateView {
                    initial: with_pools.union(drep_entities(dreps.take(i as int))),
                    ..before
                }),
            decreases dreps.len() - i,
        {
            let drep = &context.drep_contexts[i];
            if drep.is_registered {
                state.initial_registrations.insert(
                    RegistrableEntity::DRep(drep.bech32_drep.clone()),
                );
            }
            proof {
                drep_entities_grow(dreps, i as int);
                assert(state@.initial =~= with_pools.union(drep_entities(dreps.take(i + 1))));
            }
            i = i + 1;
        }
        assert(dreps.take(i as int) =~= dreps);
        assert(state@.initial =~= before.initial.union(initial_entities(*context)));
    }

    /// Takes in what a certificate changes.
    pub fn update_state(state: &mut RegistrationState, cert_type: &CertificateType)
        requires
            old(state).wf(),
        ensures
            final(state).wf(),
            final(state)@ == old(state)@.updated(cert_type@),
    {
        match cert_type {
            CertificateType::StakeRegistration { reward_address }
            | CertificateType::StakeRegistrationAndDelegation { reward_address, .. }
            | CertificateType::StakeVoteRegistrationAndDelegation { reward_address, .. }
            | CertificateType::VoteRegistrationAndDelegation { reward_address, .. } => {
                state.registrations_in_tx.insert(
                    RegistrableEntity::Account(reward_address.clone()),
                );
                state.deregistrations_in_tx.remove(
                    &RegistrableEntity::Account(reward_address.clone()),
                );
            },
            CertificateType::StakeDeregistration { reward_address } => {
                state.deregistrations_in_tx.insert(
                    RegistrableEntity::Account(reward_address.clone()),
                );
                state.registrations_in_tx.remove(
                    &RegistrableEntity::Account(reward_address.clone()),
                );
            },
            CertificateType::PoolRegistration { pool_id, .. } => {
                state.registrations_in_tx.insert(RegistrableEntity::Pool(pool_id.clone()));
                state.pool_retirements_in_tx.remove(pool_id);
            },
            CertificateType::PoolRetirement { pool_id, retirement_epoch } => {
                state.pool_retirements_in_tx.insert(pool_id.clone(), *retirement_epoch);
            },
            CertificateType::DRepRegistration { drep_id } => {
                state.registrations_in_tx.insert(RegistrableEntity::DRep(drep_id.clone()));
                state.deregistrations_in_tx.remove(&RegistrableEntity::DRep(drep_id.clone()));
            },
            CertificateType::DRepDeregistration { drep_id } => {
                state.deregistrations_in_tx.insert(RegistrableEntity::DRep(drep_id.clone()));
                state.registrations_in_tx.remove(&RegistrableEntity::DRep(drep_id.clone()));
            },
            CertificateType::CommitteeColdResign { committee_cold_credential } => {
                state.committee_resignations_in_tx.insert(committee_cold_credential.copy());
            },
            CertificateType::DRepUpdate { .. }
            | CertificateType::StakeDelegation { .. }
            | CertificateType::StakeAndVoteDelegation { .. }
            | CertificateType::VoteDelegation { .. }
            | CertificateType::CommitteeHotAuth { .. }
            | CertificateType::GenesisKeyDelegation
            | CertificateType::MoveInstantaneousRewardsCert => {
                // These don't affect registration state
            },
        }
    }
}

} // verus!
