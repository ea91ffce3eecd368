//! What the checks report.

use vstd::prelude::*;

use crate::validators::common::{CredentialView, LocalCredential};

verus! {

/// A reason for which the ledger refuses a transaction.
#[derive(Debug)]
pub enum Phase1Error {
    StakeAlreadyRegistered { reward_address: String },
    StakeNotRegistered { reward_address: String },
    StakeNonZeroAccountBalance { reward_address: String, remaining_balance: u64 },
    StakePoolNotRegistered { pool_id: String },
    StakePoolCostTooLow { specified_cost: u64, min_cost: u64 },
    WrongRetirementEpoch {
        specified_epoch: u64,
        current_epoch: u64,
        min_epoch: u64,
        max_epoch: u64,
    },
    GenesisKeyDelegationCertificateIsNotSupported,
    MoveInstantaneousRewardsCertificateIsNotSupported,
    CommitteeHasPreviouslyResigned { committee_credential: LocalCredential },
    CommitteeIsUnknown { committee_key_hash: LocalCredential },
}

/// An error, with what it holds taken by its view.
#[verifier::ext_equal]
pub enum Phase1ErrorView {
    StakeAlreadyRegistered { reward_address: Seq<char> },
    StakeNotRegistered { reward_address: Seq<char> },
    StakeNonZeroAccountBalance { reward_address: Seq<char>, remaining_balance: u64 },
    StakePoolNotRegistered { pool_id: Seq<char> },
    StakePoolCostTooLow { specified_cost: u64, min_cost: u64 },
    WrongRetirementEpoch {
        specified_epoch: u64,
        current_epoch: u64,
        min_epoch: u64,
        max_epoch: u64,
    },
    GenesisKeyDelegationCertificateIsNotSupported,
    MoveInstantaneousRewardsCertificateIsNotSupported,
    CommitteeHasPreviouslyResigned { committee_credential: CredentialView },
    CommitteeIsUnknown { committee_key_hash: CredentialView },
}

impl View for Phase1Error {
    type V = Phase1ErrorView;

    open spec fn view(&self) -> Phase1ErrorView {
        match *self {
            Phase1Error::StakeAlreadyRegistered { reward_address } => {
                Phase1ErrorView::StakeAlreadyRegistered { reward_address: reward_address@ }
            },
            Phase1Error::StakeNotRegistered { reward_address } => {
                Phase1ErrorView::StakeNotRegistered { reward_address: reward_address@ }
            },
            Phase1Error::StakeNonZeroAccountBalance { reward_address, remaining_balance } => {
                Phase1ErrorView::StakeNonZeroAccountBalance {
                    reward_address: reward_address@,
                    remaining_balance,
                }
            },
            Phase1Error::StakePoolNotRegistered { pool_id } => {
                Phase1ErrorView::StakePoolNotRegistered { pool_id: pool_id@ }
            },
            Phase1Error::StakePoolCostTooLow { specified_cost, min_cost } => {
                Phase1ErrorView::StakePoolCostTooLow { specified_cost, min_cost }
            },
            Phase1Error::WrongRetirementEpoch {
                specified_epoch,
                current_epoch,
                min_epoch,
                max_epoch,
            } => Phase1ErrorView::WrongRetirementEpoch {
                specified_epoch,
                current_epoch,
                min_epoch,
                max_epoch,
            },
            Phase1Error::GenesisKeyDelegationCertificateIsNotSupported => {
                Phase1ErrorView::GenesisKeyDelegationCertificateIsNotSupported
            },
            Phase1Error::MoveInstantaneousRewardsCertificateIsNotSupported => {
                Phase1ErrorView::MoveInstantaneousRewardsCertificateIsNotSupported
            },
            Phase1Error::CommitteeHasPreviouslyResigned { committee_credential } => {
                Phase1ErrorView::CommitteeHasPreviouslyResigned {
                    committee_credential: committee_credential@,
                }
            },
            Phase1Error::CommitteeIsUnknown { committee_key_hash } => {
                Phase1ErrorView::CommitteeIsUnknown { committee_key_hash: committee_key_hash@ }
            },
        }
    }
}

/// Something in a transaction that is likely not meant.
#[derive(Debug)]
pub enum Phase1Warning {
    DuplicateRegistrationInTx { entity_type: String, entity_id: String, cert_index: u32 },
    PoolAlreadyRegistered { pool_id: String },
    DRepAlreadyRegistered { drep_id: String },
    DRepNotRegistered { cert_index: u32 },
    DuplicateCommitteeHotRegistrationInTx {
        committee_credential: LocalCredential,
        cert_index: u32,
    },
    DuplicateCommitteeColdResignationInTx {
        committee_credential: LocalCredential,
        cert_index: u32,
    },
}

/// A warning, with what it holds taken by its view.
#[verifier::ext_equal]
pub enum Phase1WarningView {
    DuplicateRegistrationInTx { entity_type: Seq<char>, entity_id: Seq<char>, cert_index: u32 },
    PoolAlreadyRegistered { pool_id: Seq<char> },
    DRepAlreadyRegistered { drep_id: Seq<char> },
    DRepNotRegistered { cert_index: u32 },
    DuplicateCommitteeHotRegistrationInTx { committee_credential: CredentialView, cert_index: u32 },
    DuplicateCommitteeColdResignationInTx { committee_credential: CredentialView, cert_index: u32 },
}

impl View for Phase1Warning {
    type V = Phase1WarningView;

    open spec fn view(&self) -> Phase1WarningView {
        match *self {
            Phase1Warning::DuplicateRegistrationInTx { entity_type, entity_id, cert_index } => {
                Phase1WarningView::DuplicateRegistrationInTx {
                    entity_type: entity_type@,
                    entity_id: entity_id@,
                    cert_index,
                }
            },
            Phase1Warning::PoolAlreadyRegistered { pool_id } => {
                Phase1WarningView::PoolAlreadyRegistered { pool_id: pool_id@ }
            },
            Phase1Warning::DRepAlreadyRegistered { drep_id } => {
                Phase1WarningView::DRepAlreadyRegistered { drep_id: drep_id@ }
            },
            Phase1Warning::DRepNotRegistered { cert_index } => {
                Phase1WarningView::DRepNotRegistered { cert_index }
            },
            Phase1Warning::DuplicateCommitteeHotRegistrationInTx {
                committee_credential,
                cert_index,
            } => Phase1WarningView::DuplicateCommitteeHotRegistrationInTx {
                committee_credential: committee_credential@,
                cert_index,
            },
            Phase1Warning::DuplicateCommitteeColdResignationInTx {
                committee_credential,
                cert_index,
            } => Phase1WarningView::DuplicateCommitteeColdResignationInTx {
                committee_credential: committee_credential@,
                cert_index,
            },
        }
    }
}

/// An error, and the part of the transaction that it is about.
#[derive(Debug)]
pub struct ValidationPhase1Error {
    pub error: Phase1Error,
    pub location: String,
}

/// An error and its location, taken by their views.
#[verifier::ext_equal]
pub struct LocatedError {
    pub error: Phase1ErrorView,
    pub location: Seq<char>,
}

impl View for ValidationPhase1Error {
    type V = LocatedError;

    open spec fn view(&self) -> LocatedError {
        LocatedError { error: self.error@, location: self.location@ }
    }
}

impl ValidationPhase1Error {
    /// An error at `location`.
    pub fn new(error: Phase1Error, location: String) -> (located: Self)
        ensures
            located@ == (LocatedError { error: error@, location: location@ }),
    {
        ValidationPhase1Error { error, location }
    }
}

/// Errors, taken by their views.
pub open spec fn error_views(errors: Seq<ValidationPhase1Error>) -> Seq<LocatedError> {
    Seq::new(errors.len(), |i: int| errors[i]@)
}

/// A warning, and the part of the transaction that it is about.
#[derive(Debug)]
pub struct ValidationPhase1Warning {
    pub warning: Phase1Warning,
    pub location: String,
}

/// A warning and its location, taken by their views.
#[verifier::ext_equal]
pub struct LocatedWarning {
    pub warning: Phase1WarningView,
    pub location: Seq<char>,
}

impl View for ValidationPhase1Warning {
    type V = LocatedWarning;

    open spec fn view(&self) -> LocatedWarning {
        LocatedWarning { warning: self.warning@, location: self.location@ }
    }
}

impl ValidationPhase1Warning {
    /// A warning at `location`.
    pub fn new(warning: Phase1Warning, location: String) -> (located: Self)
        ensures
            located@ == (LocatedWarning { warning: warning@, location: location@ }),
    {
        ValidationPhase1Warning { warning, location }
    }
}

/// Warnings, taken by their views.
pub open spec fn warning_views(warnings: Seq<ValidationPhase1Warning>) -> Seq<LocatedWarning> {
    Seq::new(warnings.len(), |i: int| warnings[i]@)
}

} // verus!
