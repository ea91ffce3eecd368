//! When each error and each warning is reported, whatever the certificate.

use vstd::prelude::*;

use crate::validators::common::CredentialView;
use crate::validators::input_contexts::{
    first_account, first_member, AccountInputContext, CommitteeInputContext,
    ValidationInputContext,
};
use crate::validators::phase_1::errors::{Phase1ErrorView, Phase1WarningView};
use crate::validators::phase_1::validation::registration::{
    certificate_errors, certificate_warnings, error_if, warning_if, CertificateInfoView,
    CertificateTypeView, EntityView, StateView,
};
use crate::validators::phase_1::validation::registration_laws::registers;

verus! {

broadcast proof fn in_either<T>(first: Seq<T>, second: Seq<T>, item: T)
    ensures
        #[trigger] (first + second).contains(item) <==> first.contains(item) || second.contains(
            item,
        ),
{
    let both = first + second;
    if first.contains(item) {
        let i = choose|i: int| 0 <= i < first.len() && first[i] == item;
        assert(both[i] == item);
    }
    if second.contains(item) {
        let i = choose|i: int| 0 <= i < second.len() && second[i] == item;
        assert(both[first.len() + i] == item);
    }
    if both.contains(item) {
        let i = choose|i: int| 0 <= i < both.len() && both[i] == item;
        if i < first.len() {
            assert(first[i] == item);
        } else {
            assert(second[i - first.len()] == item);
        }
    }
}

broadcast proof fn in_error_if(condition: bool, error: Phase1ErrorView, item: Phase1ErrorView)
    ensures
        #[trigger] error_if(condition, error).contains(item) <==> condition && item == error,
{
    if condition {
        assert(error_if(condition, error)[0] == error);
    }
}

broadcast proof fn in_warning_if(
    condition: bool,
    warning: Phase1WarningView,
    item: Phase1WarningView,
)
    ensures
        #[trigger] warning_if(condition, warning).contains(item) <==> condition && item == warning,
{
    if condition {
        assert(warning_if(condition, warning)[0] == warning);
    }
}

broadcast proof fn in_single(error: Phase1ErrorView, item: Phase1ErrorView)
    ensures
        #[trigger] seq![error].contains(item) <==> item == error,
{
    assert(seq![error][0] == error);
}

broadcast group group_reported {
    in_either,
    in_error_if,
    in_warning_if,
    in_single,
}

/// The account that has to be registered for a certificate: that which it deregisters, or
/// delegates without registering it.
pub open spec fn needed_account(cert_type: CertificateTypeView) -> Option<Seq<char>> {
    match cert_type {
        CertificateTypeView::StakeDeregistration { reward_address } => Some(reward_address),
        CertificateTypeView::StakeDelegation { reward_address, .. } => Some(reward_address),
        CertificateTypeView::StakeAndVoteDelegation { reward_address, .. } => Some(reward_address),
        CertificateTypeView::VoteDelegation { reward_address, .. } => Some(reward_address),
        _ => None,
    }
}

/// The pool that a certificate delegates stake to.
pub open spec fn delegated_pool(cert_type: CertificateTypeView) -> Option<Seq<char>> {
    match cert_type {
        CertificateTypeView::StakeDelegation { pool_id, .. } => Some(pool_id),
        CertificateTypeView::StakeAndVoteDelegation { pool_id, .. } => Some(pool_id),
        CertificateTypeView::StakeRegistrationAndDelegation { pool_id, .. } => Some(pool_id),
        CertificateTypeView::StakeVoteRegistrationAndDelegation { pool_id, .. } => Some(pool_id),
        _ => None,
    }
}

/// The representative that should be registered for a certificate: that which it
/// deregisters or updates, or delegates a vote to, unless the vote is a standing one.
pub open spec fn needed_drep(cert_type: CertificateTypeView) -> Option<Seq<char>> {
    match cert_type {
        CertificateTypeView::DRepDeregistration { drep_id } => Some(drep_id),
        CertificateTypeView::DRepUpdate { drep_id } => Some(drep_id),
        CertificateTypeView::VoteDelegation { drep, .. }
        | CertificateTypeView::StakeAndVoteDelegation { drep, .. }
        | CertificateTypeView::VoteRegistrationAndDelegation { drep, .. }
        | CertificateTypeView::StakeVoteRegistrationAndDelegation { drep, .. } => {
            if drep.len() > 0 {
                Some(drep)
            } else {
                None
            }
        },
        _ => None,
    }
}

/// Whether the entity was registered at the start or becomes so by a certificate, and no
/// certificate deregisters it.
pub open spec fn stands(state: StateView, entity: EntityView) -> bool {
    &&& state.initial.contains(entity) || state.registered.contains(entity)
    &&& !state.deregistered.contains(entity)
}

/// An account is reported as not registered exactly by the certificates that need it, and
/// exactly if it does not stand.
pub proof fn unregistered_account_is_refused(
    state: StateView,
    context: ValidationInputContext,
    cert_type: CertificateTypeView,
    current_epoch: u64,
    reward_address: Seq<char>,
)
    ensures
        certificate_errors(state, context, cert_type, current_epoch).contains(
            Phase1ErrorView::StakeNotRegistered { reward_address },
        ) <==> needed_account(cert_type) == Some(reward_address) && !stands(
            state,
            EntityView::Account(reward_address),
        ),
{
    broadcast use group_reported;

}

/// An account is reported as registered already exactly by the certificates that register
/// it, and exactly if it was registered at the start and no certificate deregisters it.
pub proof fn registered_account_is_refused(
    state: StateView,
    context: ValidationInputContext,
    cert_type: CertificateTypeView,
    current_epoch: u64,
    reward_address: Seq<char>,
)
    ensures
        certificate_errors(state, context, cert_type, current_epoch).contains(
            Phase1ErrorView::StakeAlreadyRegistered { reward_address },
        ) <==> {
            let account = EntityView::Account(reward_address);
            &&& registers(cert_type) == Some(account)
            &&& state.initial.contains(account)
            &&& !state.deregistered.contains(account)
        },
{
    broadcast use group_reported;

}

/// Whether the account at index `i` is the first with that address.
pub open spec fn is_first_account(
    accounts: Seq<AccountInputContext>,
    i: int,
    reward_address: Seq<char>,
) -> bool {
    &&& 0 <= i < accounts.len()
    &&& accounts[i].bech32_address@ == reward_address
    &&& forall|j: int| 0 <= j < i ==> (#[trigger] accounts[j]).bech32_address@ != reward_address
}

proof fn account_is_first(accounts: Seq<AccountInputContext>, reward_address: Seq<char>)
    ensures
        match first_account(accounts, reward_address) {
            Some(account) => exists|i: int| #[trigger]
                is_first_account(accounts, i, reward_address) && accounts[i] == account,
            None => forall|i: int|
                0 <= i < accounts.len() ==> (#[trigger] accounts[i]).bech32_address@
                    != reward_address,
        },
    decreases accounts.len(),
{
    if accounts.len() > 0 {
        if accounts[0].bech32_address@ == reward_address {
            assert(is_first_account(accounts, 0, reward_address));
        } else {
            let rest = accounts.drop_first();
            account_is_first(rest, reward_address);
            match first_account(rest, reward_address) {
                Some(account) => {
                    let i = choose|i: int| #[trigger]
                        is_first_account(rest, i, reward_address) && rest[i] == account;
                    assert(is_first_account(accounts, i + 1, reward_address)) by {
                        assert forall|j: int| 0 <= j < i + 1 implies (
                        #[trigger] accounts[j]).bech32_address@ != reward_address by {
                            if j > 0 {
                                assert(rest[j - 1] == accounts[j]);
                            }
                        }
                    }
                },
                None => {
                    assert forall|i: int| 0 <= i < accounts.len() implies (
                    #[trigger] accounts[i]).bech32_address@ != reward_address by {
                        if i > 0 {
                            assert(rest[i - 1] == accounts[i]);
                        }
                    }
                },
            }
        }
    }
}

/// A remaining balance is reported exactly where an account that stands is deregistered,
/// and the first account that the ledger knows by that address has this balance, which
/// is not zero.
pub proof fn balance_has_to_be_withdrawn(
    state: StateView,
    context: ValidationInputContext,
    cert_type: CertificateTypeView,
    current_epoch: u64,
    reward_address: Seq<char>,
    remaining_balance: u64,
)
    ensures
        certificate_errors(state, context, cert_type, current_epoch).contains(
            Phase1ErrorView::StakeNonZeroAccountBalance { reward_address, remaining_balance },
        ) <==> {
            &&& cert_type == (CertificateTypeView::StakeDeregistration { reward_address })
            &&& stands(state, EntityView::Account(reward_address))
            &&& remaining_balance > 0
            &&& exists|i: int| #[trigger]
                is_first_account(context.account_contexts@, i, reward_address)
                    && context.account_contexts@[i].balance == Some(remaining_balance)
        },
{
    broadcast use group_reported;

    account_is_first(context.account_contexts@, reward_address);
    let accounts = context.account_contexts@;
    if let Some(account) = first_account(accounts, reward_address) {
        let i = choose|i: int| #[trigger]
            is_first_account(accounts, i, reward_address) && accounts[i] == account;
        assert forall|j: int| #[trigger] is_first_account(accounts, j, reward_address) implies j
            == i by {
            if j < i {
                assert(accounts[j].bech32_address@ != reward_address);
            }
            if i < j {
                assert(accounts[i].bech32_address@ != reward_address);
            }
        }
    }
}

/// A pool is reported as not registered exactly where stake is delegated to a pool that is
/// registered neither at the start nor by a certificate, or that a certificate retires;
/// and where a pool is retired that is not registered.
pub proof fn unregistered_pool_is_refused(
    state: StateView,
    context: ValidationInputContext,
    cert_type: CertificateTypeView,
    current_epoch: u64,
    pool_id: Seq<char>,
)
    ensures
        certificate_errors(state, context, cert_type, current_epoch).contains(
            Phase1ErrorView::StakePoolNotRegistered { pool_id },
        ) <==> {
            let pool = EntityView::Pool(pool_id);
            let known = state.initial.contains(pool) || state.registered.contains(pool);
            ||| delegated_pool(cert_type) == Some(pool_id) && !(known
                && !state.retirements.contains_key(pool_id))
            ||| cert_type matches CertificateTypeView::PoolRetirement { pool_id: retired, .. }
                && retired == pool_id && !known
        },
{
    broadcast use group_reported;

}

/// A cost is reported as too low exactly where a pool is registered at a cost below the
/// least one.
pub proof fn cheap_pool_is_refused(
    state: StateView,
    context: ValidationInputContext,
    cert_type: CertificateTypeView,
    current_epoch: u64,
    specified_cost: u64,
    min_cost: u64,
)
    ensures
        certificate_errors(state, context, cert_type, current_epoch).contains(
            Phase1ErrorView::StakePoolCostTooLow { specified_cost, min_cost },
        ) <==> {
            &&& cert_type matches CertificateTypeView::PoolRegistration { pool_cost, .. }
            &&& pool_cost == specified_cost
            &&& min_cost == context.protocol_parameters.min_pool_cost
            &&& specified_cost < min_cost
        },
{
    broadcast use group_reported;

}

/// An epoch is reported as wrong exactly where a pool is to retire before the next epoch
/// or later than the parameters allow, with both limits.
pub proof fn wrong_retirement_epoch_is_refused(
    state: StateView,
    context: ValidationInputContext,
    cert_type: CertificateTypeView,
    now: u64,
    error: Phase1ErrorView,
)
    requires
        error is WrongRetirementEpoch,
        now + context.protocol_parameters.max_epoch_for_pool_retirement < u64::MAX,
    ensures
        certificate_errors(state, context, cert_type, now).contains(error) <==> {
            &&& cert_type matches CertificateTypeView::PoolRetirement { retirement_epoch, .. }
            &&& error matches Phase1ErrorView::WrongRetirementEpoch {
                specified_epoch,
                current_epoch,
                min_epoch,
                max_epoch,
            }
            &&& specified_epoch == retirement_epoch
            &&& current_epoch == now
            &&& min_epoch == now + 1
            &&& max_epoch - now == context.protocol_parameters.max_epoch_for_pool_retirement
            &&& !(min_epoch <= specified_epoch <= max_epoch)
        },
{
    broadcast use group_reported;

}

/// The two kinds that are no longer supported are reported exactly on themselves.
pub proof fn old_kinds_are_refused(
    state: StateView,
    context: ValidationInputContext,
    cert_type: CertificateTypeView,
    current_epoch: u64,
)
    ensures
        certificate_errors(state, context, cert_type, current_epoch).contains(
            Phase1ErrorView::GenesisKeyDelegationCertificateIsNotSupported,
        ) <==> cert_type is GenesisKeyDelegation,
        certificate_errors(state, context, cert_type, current_epoch).contains(
            Phase1ErrorView::MoveInstantaneousRewardsCertificateIsNotSupported,
        ) <==> cert_type is MoveInstantaneousRewardsCert,
{
    broadcast use group_reported;

}

/// Whether the member at index `i` is the first with that cold credential.
pub open spec fn is_first_member(
    members: Seq<CommitteeInputContext>,
    i: int,
    cold: CredentialView,
) -> bool {
    &&& 0 <= i < members.len()
    &&& members[i].committee_member_cold@ == cold
    &&& forall|j: int| 0 <= j < i ==> (#[trigger] members[j]).committee_member_cold@ != cold
}

/// Whether a member has that cold credential.
pub open spec fn has_member(members: Seq<CommitteeInputContext>, cold: CredentialView) -> bool {
    exists|i: int| 0 <= i < members.len() && (#[trigger] members[i]).committee_member_cold@ == cold
}

/// Whether the first member with that cold credential has resigned.
pub open spec fn has_resigned(members: Seq<CommitteeInputContext>, cold: CredentialView) -> bool {
    exists|i: int| #[trigger] is_first_member(members, i, cold) && members[i].is_resigned
}

proof fn member_is_first(members: Seq<CommitteeInputContext>, cold: CredentialView)
    ensures
        first_member(members, cold) is Some <==> has_member(members, cold),
        first_member(members, cold) matches Some(member) ==> (member.is_resigned <==> has_resigned(
            members,
            cold,
        )),
        first_member(members, cold) is None ==> !has_resigned(members, cold),
    decreases members.len(),
{
    if members.len() > 0 {
        let rest = members.drop_first();
        if members[0].committee_member_cold@ == cold {
            assert(is_first_member(members, 0, cold));
            assert forall|j: int| #[trigger] is_first_member(members, j, cold) implies j == 0 by {
                if 0 < j {
                    assert(members[0].committee_member_cold@ != cold);
                }
            }
        } else {
            member_is_first(rest, cold);
            assert forall|j: int| 1 <= j implies #[trigger] is_first_member(members, j, cold)
                == is_first_member(rest, j - 1, cold) by {
                if is_first_member(members, j, cold) {
                    assert forall|k: int| 0 <= k < j - 1 implies (
                    #[trigger] rest[k]).committee_member_cold@ != cold by {
                        assert(rest[k] == members[k + 1]);
                    }
                }
                if is_first_member(rest, j - 1, cold) {
                    assert forall|k: int| 0 <= k < j implies (
                    #[trigger] members[k]).committee_member_cold@ != cold by {
                        if k > 0 {
                            assert(rest[k - 1] == members[k]);
                        }
                    }
                }
            }
            if has_resigned(rest, cold) {
                let i = choose|i: int| #[trigger]
                    is_first_member(rest, i, cold) && rest[i].is_resigned;
                assert(is_first_member(members, i + 1, cold) && members[i + 1].is_resigned);
            }
            if has_resigned(members, cold) {
                let i = choose|i: int| #[trigger]
                    is_first_member(members, i, cold) && members[i].is_resigned;
                assert(is_first_member(rest, i - 1, cold) && rest[i - 1].is_resigned);
            }
            if has_member(rest, cold) {
                let i = choose|i: int|
                    0 <= i < rest.len() && (#[trigger] rest[i]).committee_member_cold@ == cold;
                assert(members[i + 1].committee_member_cold@ == cold);
            }
            if has_member(members, cold) {
                let i = choose|i: int|
                    0 <= i < members.len() && (#[trigger] members[i]).committee_member_cold@
                        == cold;
                assert(rest[i - 1].committee_member_cold@ == cold);
            }
        }
    }
}

/// Whether the ledger knows the member to have resigned: by the current committee, or by
/// the potential one where the current one does not have the member.
pub open spec fn known_to_have_resigned(
    context: ValidationInputContext,
    cold: CredentialView,
) -> bool {
    ||| has_resigned(context.current_committee_members@, cold)
    ||| !has_member(context.current_committee_members@, cold) && has_resigned(
        context.potential_committee_members@,
        cold,
    )
}

/// An earlier resignation is reported exactly where a member that has resigned, by the
/// ledger or by a certificate, authorises a hot credential, which is reported; and where
/// one that has resigned by the ledger resigns anew.
pub proof fn resigned_member_is_refused(
    state: StateView,
    context: ValidationInputContext,
    cert_type: CertificateTypeView,
    current_epoch: u64,
    committee_credential: CredentialView,
)
    ensures
        certificate_errors(state, context, cert_type, current_epoch).contains(
            Phase1ErrorView::CommitteeHasPreviouslyResigned { committee_credential },
        ) <==> match cert_type {
            CertificateTypeView::CommitteeHotAuth {
                committee_cold_credential: cold,
                committee_hot_credential: hot,
            } => hot == committee_credential && (state.resignations.contains(cold)
                || known_to_have_resigned(context, cold)),
            CertificateTypeView::CommitteeColdResign { committee_cold_credential: cold } => {
                cold == committee_credential && known_to_have_resigned(context, cold)
            },
            _ => false,
        },
{
    broadcast use group_reported;

    match cert_type {
        CertificateTypeView::CommitteeHotAuth { committee_cold_credential: cold, .. }
        | CertificateTypeView::CommitteeColdResign { committee_cold_credential: cold } => {
            member_is_first(context.current_committee_members@, cold);
            member_is_first(context.potential_committee_members@, cold);
        },
        _ => {},
    }
}

/// The member that a certificate of the committee is about.
pub open spec fn acting_member(cert_type: CertificateTypeView) -> Option<CredentialView> {
    match cert_type {
        CertificateTypeView::CommitteeHotAuth { committee_cold_credential, .. } => Some(
            committee_cold_credential,
        ),
        CertificateTypeView::CommitteeColdResign { committee_cold_credential } => Some(
            committee_cold_credential,
        ),
        _ => None,
    }
}

/// A member is reported as unknown exactly where neither committee has it.
pub proof fn unknown_member_is_refused(
    state: StateView,
    context: ValidationInputContext,
    cert_type: CertificateTypeView,
    current_epoch: u64,
    committee_key_hash: CredentialView,
)
    ensures
        certificate_errors(state, context, cert_type, current_epoch).contains(
            Phase1ErrorView::CommitteeIsUnknown { committee_key_hash },
        ) <==> {
            &&& acting_member(cert_type) == Some(committee_key_hash)
            &&& !has_member(context.current_committee_members@, committee_key_hash)
            &&& !has_member(context.potential_committee_members@, committee_key_hash)
        },
{
    broadcast use group_reported;

    member_is_first(context.current_committee_members@, committee_key_hash);
    member_is_first(context.potential_committee_members@, committee_key_hash);
}

/// Where an error stands among the errors on a certificate: those on accounts and members
/// that have resigned come first.
pub open spec fn rank(error: Phase1ErrorView) -> int {
    match error {
        Phase1ErrorView::StakePoolNotRegistered { .. } => 1,
        Phase1ErrorView::CommitteeIsUnknown { .. } => 1,
        Phase1ErrorView::WrongRetirementEpoch { .. } => 2,
        _ => 0,
    }
}

/// No error is reported twice on a certificate, but for an earlier resignation, which is
/// reported once for the ledger and once for the transaction. Errors on accounts and on
/// resignations come before those on pools and unknown members, and these before those
/// on epochs.
pub proof fn errors_are_in_order(
    state: StateView,
    context: ValidationInputContext,
    cert_type: CertificateTypeView,
    current_epoch: u64,
    i: int,
    j: int,
)
    requires
        0 <= i < j < certificate_errors(state, context, cert_type, current_epoch).len(),
    ensures
        ({
            let errors = certificate_errors(state, context, cert_type, current_epoch);
            ||| rank(errors[i]) < rank(errors[j])
            ||| {
                &&& errors[i] == errors[j]
                &&& errors[i] is CommitteeHasPreviouslyResigned
                &&& i == 0 && j == 1
                &&& cert_type matches CertificateTypeView::CommitteeHotAuth {
                    committee_cold_credential: cold,
                    ..
                }
                &&& state.resignations.contains(cold)
                &&& known_to_have_resigned(context, cold)
            }
        }),
{
    if let CertificateTypeView::CommitteeHotAuth { committee_cold_credential: cold, .. } =
        cert_type {
        member_is_first(context.current_committee_members@, cold);
        member_is_first(context.potential_committee_members@, cold);
    }
}

/// A member that has resigned both by the ledger and by a certificate gets the error
/// twice where it authorises a hot credential.
pub proof fn resignations_are_counted(
    state: StateView,
    context: ValidationInputContext,
    cold: CredentialView,
    hot: CredentialView,
    current_epoch: u64,
)
    requires
        state.resignations.contains(cold),
        known_to_have_resigned(context, cold),
    ensures
        ({
            let errors = certificate_errors(
                state,
                context,
                CertificateTypeView::CommitteeHotAuth {
                    committee_cold_credential: cold,
                    committee_hot_credential: hot,
                },
                current_epoch,
            );
            let error = Phase1ErrorView::CommitteeHasPreviouslyResigned {
                committee_credential: hot,
            };
            errors.len() >= 2 && errors[0] == error && errors[1] == error
        }),
{
    member_is_first(context.current_committee_members@, cold);
    member_is_first(context.potential_committee_members@, cold);
}

/// How an entity is called in a warning.
pub open spec fn entity_words(entity: EntityView) -> (Seq<char>, Seq<char>) {
    match entity {
        EntityView::Account(reward_address) => ("stake key"@, reward_address),
        EntityView::Pool(pool_id) => ("pool"@, pool_id),
        EntityView::DRep(drep_id) => ("DRep"@, drep_id),
        EntityView::ConstitutionCommitteeHotCredential(_) => (Seq::empty(), Seq::empty()),
    }
}

/// A registration in the transaction is warned about exactly on certificates that register
/// what the certificates together leave registered.
pub proof fn registration_in_transaction_is_warned_about(
    state: StateView,
    info: CertificateInfoView,
    entity_type: Seq<char>,
    entity_id: Seq<char>,
    cert_index: u32,
)
    ensures
        certificate_warnings(state, info).contains(
            Phase1WarningView::DuplicateRegistrationInTx { entity_type, entity_id, cert_index },
        ) <==> {
            &&& cert_index == info.cert_index
            &&& registers(info.cert_type) matches Some(entity)
            &&& state.registered.contains(entity)
            &&& (entity_type, entity_id) == entity_words(entity)
        },
{
    broadcast use group_reported;

}

/// A pool is warned about as registered already exactly where it is registered, was so at
/// the start, and no certificate retires it.
pub proof fn registered_pool_is_warned_about(
    state: StateView,
    info: CertificateInfoView,
    pool_id: Seq<char>,
)
    ensures
        certificate_warnings(state, info).contains(
            Phase1WarningView::PoolAlreadyRegistered { pool_id },
        ) <==> {
            &&& registers(info.cert_type) == Some(EntityView::Pool(pool_id))
            &&& state.initial.contains(EntityView::Pool(pool_id))
            &&& !state.retirements.contains_key(pool_id)
        },
{
    broadcast use group_reported;

}

/// A representative is warned about as registered already exactly where it is registered,
/// was so at the start, and no certificate deregisters it.
pub proof fn registered_representative_is_warned_about(
    state: StateView,
    info: CertificateInfoView,
    drep_id: Seq<char>,
)
    ensures
        certificate_warnings(state, info).contains(
            Phase1WarningView::DRepAlreadyRegistered { drep_id },
        ) <==> {
            &&& registers(info.cert_type) == Some(EntityView::DRep(drep_id))
            &&& state.initial.contains(EntityView::DRep(drep_id))
            &&& !state.deregistered.contains(EntityView::DRep(drep_id))
        },
{
    broadcast use group_reported;

}

/// A representative is warned about as not registered exactly by the certificates that
/// need it, and exactly if it does not stand.
pub proof fn unregistered_representative_is_warned_about(
    state: StateView,
    info: CertificateInfoView,
    cert_index: u32,
)
    ensures
        certificate_warnings(state, info).contains(
            Phase1WarningView::DRepNotRegistered { cert_index },
        ) <==> {
            &&& cert_index == info.cert_index
            &&& needed_drep(info.cert_type) matches Some(drep_id)
            &&& !stands(state, EntityView::DRep(drep_id))
        },
{
    broadcast use group_reported;

}

/// A member that resigns in the transaction is warned about exactly on the certificates by
/// which it authorises a hot credential, which is named, and by which it resigns.
pub proof fn resignation_in_transaction_is_warned_about(
    state: StateView,
    info: CertificateInfoView,
    committee_credential: CredentialView,
    cert_index: u32,
)
    ensures
        certificate_warnings(state, info).contains(
            Phase1WarningView::DuplicateCommitteeHotRegistrationInTx {
                committee_credential,
                cert_index,
            },
        ) <==> {
            &&& cert_index == info.cert_index
            &&& info.cert_type matches CertificateTypeView::CommitteeHotAuth {
                committee_cold_credential,
                committee_hot_credential,
            }
            &&& committee_hot_credential == committee_credential
            &&& state.resignations.contains(committee_cold_credential)
        },
        certificate_warnings(state, info).contains(
            Phase1WarningView::DuplicateCommitteeColdResignationInTx {
                committee_credential,
                cert_index,
            },
        ) <==> {
            &&& cert_index == info.cert_index
            &&& info.cert_type == (CertificateTypeView::CommitteeColdResign {
                committee_cold_credential: committee_credential,
            })
            &&& state.resignations.contains(committee_credential)
        },
{
    broadcast use group_reported;

}

/// At most two warnings are reported on a certificate, the first of them on a registration
/// in the transaction.
pub proof fn warnings_are_in_order(state: StateView, info: CertificateInfoView, i: int, j: int)
    requires
        0 <= i < j < certificate_warnings(state, info).len(),
    ensures
        ({
            let warnings = certificate_warnings(state, info);
            &&& warnings.len() == 2
            &&& warnings[i] is DuplicateRegistrationInTx
            &&& !(warnings[j] is DuplicateRegistrationInTx)
        }),
{
}

} // verus!
