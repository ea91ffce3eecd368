//! How certificates, the ledger and the report hang together, whatever the certificates.

use vstd::prelude::*;

use crate::text::{decimal, hex_bytes, hex_round_trip, is_hex};
use crate::validators::certificate::{CertificateView, DRepView};
use crate::validators::common::{CredentialView, NetworkType};
use crate::validators::helpers::{drep_text, reward_address_text};
use crate::validators::input_contexts::ValidationInputContext;
use crate::validators::phase_1::errors::{
    LocatedError, LocatedWarning, Phase1ErrorView, Phase1WarningView,
};
use crate::validators::phase_1::validation::registration::{
    account_is, all_errors, all_processed, all_warnings, certificate_errors, certificate_location,
    certificate_warnings, drep_is, epoch_of, initial_state, pool_is, processed, state_after,
    transaction_errors, transaction_warnings, CertificateInfoView, CertificateTypeView,
    EntityView, StateView,
};
use crate::validators::phase_1::validation::registration_laws::{
    certificates_are_known_by_their_places, initial_registrations_are_kept,
    last_certificate_decides_deregistration, last_certificate_decides_registration,
    last_deregisters, last_registers, last_retires, registers, reports_compose,
};
use crate::validators::phase_1::validation::verdicts::{
    needed_account, registered_account_is_refused, unregistered_account_is_refused,
};

verus! {

/// At the start exactly that is registered which the ledger lists as registered, and no
/// certificate has changed anything.
pub proof fn ledger_is_the_start(context: ValidationInputContext, entity: EntityView)
    ensures
        initial_state(context).initial.contains(entity) <==> match entity {
            EntityView::Account(reward_address) => exists|i: int|
                0 <= i < context.account_contexts@.len() && (
                #[trigger] context.account_contexts@[i]).is_registered
                    && context.account_contexts@[i].bech32_address@ == reward_address,
            EntityView::Pool(pool_id) => exists|i: int|
                0 <= i < context.pool_contexts@.len() && (
                #[trigger] context.pool_contexts@[i]).is_registered
                    && context.pool_contexts@[i].pool_id@ == pool_id,
            EntityView::DRep(drep_id) => exists|i: int|
                0 <= i < context.drep_contexts@.len() && (
                #[trigger] context.drep_contexts@[i]).is_registered
                    && context.drep_contexts@[i].bech32_drep@ == drep_id,
            EntityView::ConstitutionCommitteeHotCredential(_) => false,
        },
        !initial_state(context).registered.contains(entity),
        !initial_state(context).deregistered.contains(entity),
        initial_state(context).retirements.dom() == Set::<Seq<char>>::empty(),
        initial_state(context).resignations == Set::<CredentialView>::empty(),
{
    let accounts = context.account_contexts@;
    let pools = context.pool_contexts@;
    let dreps = context.drep_contexts@;
    match entity {
        EntityView::Account(reward_address) => {
            if exists|i: int|
                0 <= i < accounts.len() && (#[trigger] accounts[i]).is_registered
                    && accounts[i].bech32_address@ == reward_address {
                let i = choose|i: int|
                    0 <= i < accounts.len() && (#[trigger] accounts[i]).is_registered
                        && accounts[i].bech32_address@ == reward_address;
                assert(account_is(accounts, i, entity));
            }
        },
        EntityView::Pool(pool_id) => {
            if exists|i: int|
                0 <= i < pools.len() && (#[trigger] pools[i]).is_registered && pools[i].pool_id@
                    == pool_id {
                let i = choose|i: int|
                    0 <= i < pools.len() && (#[trigger] pools[i]).is_registered
                        && pools[i].pool_id@ == pool_id;
                assert(pool_is(pools, i, entity));
            }
        },
        EntityView::DRep(drep_id) => {
            if exists|i: int|
                0 <= i < dreps.len() && (#[trigger] dreps[i]).is_registered
                    && dreps[i].bech32_drep@ == drep_id {
                let i = choose|i: int|
                    0 <= i < dreps.len() && (#[trigger] dreps[i]).is_registered
                        && dreps[i].bech32_drep@ == drep_id;
                assert(drep_is(dreps, i, entity));
            }
        },
        _ => {},
    }
}

/// A pool counts as retired by the transaction exactly if some certificate retires it and
/// no later one registers it or retires it anew.
pub proof fn only_the_last_certificate_retires(
    context: ValidationInputContext,
    certificates: Seq<CertificateInfoView>,
    pool: Seq<char>,
)
    ensures
        state_after(initial_state(context), certificates).retirements.contains_key(pool)
            <==> exists|i: int|
            0 <= i < certificates.len() && #[trigger] last_retires(certificates, i, pool),
    decreases certificates.len(),
{
    if certificates.len() > 0 {
        let fewer = certificates.drop_last();
        let n = certificates.len() - 1;
        let last = certificates[n].cert_type;
        only_the_last_certificate_retires(context, fewer, pool);
        let concerns = match last {
            CertificateTypeView::PoolRetirement { pool_id, .. } => pool_id == pool,
            CertificateTypeView::PoolRegistration { pool_id, .. } => pool_id == pool,
            _ => false,
        };
        assert forall|i: int| 0 <= i < n implies #[trigger] last_retires(certificates, i, pool)
            == (last_retires(fewer, i, pool) && !concerns) by {
            assert(fewer[i] == certificates[i]);
            if last_retires(certificates, i, pool) {
                assert forall|j: int| i < j < fewer.len() implies match (
                #[trigger] fewer[j]).cert_type {
                    CertificateTypeView::PoolRetirement { pool_id, .. } => pool_id != pool,
                    CertificateTypeView::PoolRegistration { pool_id, .. } => pool_id != pool,
                    _ => true,
                } by {
                    assert(fewer[j] == certificates[j]);
                }
                assert(certificates[n].cert_type == last);
            }
            if last_retires(fewer, i, pool) && !concerns {
                assert forall|j: int| i < j < certificates.len() implies match (
                #[trigger] certificates[j]).cert_type {
                    CertificateTypeView::PoolRetirement { pool_id, .. } => pool_id != pool,
                    CertificateTypeView::PoolRegistration { pool_id, .. } => pool_id != pool,
                    _ => true,
                } by {
                    if j < n {
                        assert(fewer[j] == certificates[j]);
                    }
                }
            }
        }
        if last matches CertificateTypeView::PoolRetirement { pool_id, .. } && pool_id == pool {
            assert(last_retires(certificates, n, pool));
        } else if exists|i: int|
            0 <= i < certificates.len() && #[trigger] last_retires(certificates, i, pool) {
            let i = choose|i: int|
                0 <= i < certificates.len() && #[trigger] last_retires(certificates, i, pool);
            assert(i < n);
            assert(last_retires(fewer, i, pool));
        }
        if !concerns && exists|i: int|
            0 <= i < fewer.len() && #[trigger] last_retires(fewer, i, pool) {
            let i = choose|i: int|
                0 <= i < fewer.len() && #[trigger] last_retires(fewer, i, pool);
            assert(last_retires(certificates, i, pool));
        }
    }
}

/// An epoch has five days of slots of one second, and the first begins with slot zero.
pub proof fn epochs_follow_each_other(slot: u64)
    ensures
        epoch_of(slot) * 432000 <= slot,
        slot < (epoch_of(slot) + 1) * 432000,
{
}

/// The stake credential that a certificate is about.
pub open spec fn stake_credential(cert: CertificateView) -> Option<CredentialView> {
    match cert {
        CertificateView::StakeRegistration { credential } => Some(credential),
        CertificateView::StakeDeregistration { credential } => Some(credential),
        CertificateView::StakeDelegation { credential, .. } => Some(credential),
        CertificateView::StakeAndVoteDelegation { credential, .. } => Some(credential),
        CertificateView::StakeRegistrationAndDelegation { credential, .. } => Some(credential),
        CertificateView::StakeVoteRegistrationAndDelegation { credential, .. } => Some(credential),
        CertificateView::VoteDelegation { credential, .. } => Some(credential),
        CertificateView::VoteRegistrationAndDelegation { credential, .. } => Some(credential),
        _ => None,
    }
}

/// The account that is asked for.
pub open spec fn asked_account(cert_type: CertificateTypeView) -> Option<Seq<char>> {
    match cert_type {
        CertificateTypeView::StakeRegistration { reward_address }
        | CertificateTypeView::StakeDeregistration { reward_address }
        | CertificateTypeView::StakeDelegation { reward_address, .. }
        | CertificateTypeView::StakeAndVoteDelegation { reward_address, .. }
        | CertificateTypeView::StakeRegistrationAndDelegation { reward_address, .. }
        | CertificateTypeView::StakeVoteRegistrationAndDelegation { reward_address, .. }
        | CertificateTypeView::VoteDelegation { reward_address, .. }
        | CertificateTypeView::VoteRegistrationAndDelegation { reward_address, .. } => {
            Some(reward_address)
        },
        _ => None,
    }
}

/// The account that is asked for is that of the stake credential, on the network of the
/// transaction: the main network has the number one, the others zero.
pub proof fn accounts_are_those_of_the_credentials(cert: CertificateView, network: NetworkType)
    ensures
        match (stake_credential(cert), asked_account(processed(cert, network))) {
            (Some(credential), Some(account)) => account == reward_address_text(
                if network == NetworkType::Mainnet {
                    1u8
                } else {
                    0u8
                },
                credential,
            ),
            (None, None) => true,
            _ => false,
        },
{
}

/// The hash of the pool that a certificate is about.
pub open spec fn pool_hash(cert: CertificateView) -> Option<Seq<u8>> {
    match cert {
        CertificateView::StakeDelegation { pool, .. } => Some(pool),
        CertificateView::PoolRegistration { operator, .. } => Some(operator),
        CertificateView::PoolRetirement { pool, .. } => Some(pool),
        CertificateView::StakeAndVoteDelegation { pool, .. } => Some(pool),
        CertificateView::StakeRegistrationAndDelegation { pool, .. } => Some(pool),
        CertificateView::StakeVoteRegistrationAndDelegation { pool, .. } => Some(pool),
        _ => None,
    }
}

/// The pool that is asked for.
pub open spec fn asked_pool(cert_type: CertificateTypeView) -> Option<Seq<char>> {
    match cert_type {
        CertificateTypeView::StakeDelegation { pool_id, .. }
        | CertificateTypeView::PoolRegistration { pool_id, .. }
        | CertificateTypeView::PoolRetirement { pool_id, .. }
        | CertificateTypeView::StakeAndVoteDelegation { pool_id, .. }
        | CertificateTypeView::StakeRegistrationAndDelegation { pool_id, .. }
        | CertificateTypeView::StakeVoteRegistrationAndDelegation { pool_id, .. } => Some(pool_id),
        _ => None,
    }
}

/// The pool that is asked for is spelt by the hexadecimal text of its hash; its cost and
/// the epoch of its retirement are those of the certificate.
pub proof fn pools_are_those_of_the_hashes(cert: CertificateView, network: NetworkType)
    ensures
        match (pool_hash(cert), asked_pool(processed(cert, network))) {
            (Some(hash), Some(pool_id)) => is_hex(pool_id) && hex_bytes(pool_id) == hash,
            (None, None) => true,
            _ => false,
        },
        cert matches CertificateView::PoolRegistration { cost, .. } ==> (processed(
            cert,
            network,
        ) matches CertificateTypeView::PoolRegistration { pool_cost, .. } && pool_cost == cost),
        cert matches CertificateView::PoolRetirement { epoch, .. } ==> (processed(
            cert,
            network,
        ) matches CertificateTypeView::PoolRetirement { retirement_epoch, .. } && retirement_epoch
            == epoch),
{
    if let Some(hash) = pool_hash(cert) {
        hex_round_trip(hash);
    }
}

/// The representative that a certificate is about, or delegates a vote to.
pub open spec fn representative(cert: CertificateView) -> Option<DRepView> {
    match cert {
        CertificateView::DRepRegistration { credential }
        | CertificateView::DRepDeregistration { credential }
        | CertificateView::DRepUpdate { credential } => match credential {
            CredentialView::KeyHash(hash) => Some(DRepView::KeyHash(hash)),
            CredentialView::ScriptHash(hash) => Some(DRepView::ScriptHash(hash)),
        },
        CertificateView::StakeAndVoteDelegation { drep, .. } => Some(drep),
        CertificateView::StakeVoteRegistrationAndDelegation { drep, .. } => Some(drep),
        CertificateView::VoteDelegation { drep, .. } => Some(drep),
        CertificateView::VoteRegistrationAndDelegation { drep, .. } => Some(drep),
        _ => None,
    }
}

/// The representative that is asked for.
pub open spec fn asked_drep(cert_type: CertificateTypeView) -> Option<Seq<char>> {
    match cert_type {
        CertificateTypeView::DRepRegistration { drep_id }
        | CertificateTypeView::DRepDeregistration { drep_id }
        | CertificateTypeView::DRepUpdate { drep_id } => Some(drep_id),
        CertificateTypeView::StakeAndVoteDelegation { drep, .. }
        | CertificateTypeView::StakeVoteRegistrationAndDelegation { drep, .. }
        | CertificateTypeView::VoteDelegation { drep, .. }
        | CertificateTypeView::VoteRegistrationAndDelegation { drep, .. } => Some(drep),
        _ => None,
    }
}

/// The representative that is asked for has the text of its key or script; a standing
/// vote has none.
pub proof fn representatives_are_those_of_the_certificates(
    cert: CertificateView,
    network: NetworkType,
)
    ensures
        match (representative(cert), asked_drep(processed(cert, network))) {
            (Some(drep), Some(drep_id)) => if drep is AlwaysAbstain || drep is AlwaysNoConfidence {
                drep_id.len() == 0
            } else {
                drep_id == drep_text(drep)
            },
            (None, None) => true,
            _ => false,
        },
{
}

/// What is asked for is of the kind of the certificate; members of the committee are
/// taken over as they are.
pub proof fn kinds_are_kept(cert: CertificateView, network: NetworkType)
    ensures
        ({
            let asked = processed(cert, network);
            &&& cert is StakeRegistration <==> asked is StakeRegistration
            &&& cert is StakeDeregistration <==> asked is StakeDeregistration
            &&& cert is StakeDelegation <==> asked is StakeDelegation
            &&& cert is PoolRegistration <==> asked is PoolRegistration
            &&& cert is PoolRetirement <==> asked is PoolRetirement
            &&& cert is DRepRegistration <==> asked is DRepRegistration
            &&& cert is DRepDeregistration <==> asked is DRepDeregistration
            &&& cert is DRepUpdate <==> asked is DRepUpdate
            &&& cert is StakeAndVoteDelegation <==> asked is StakeAndVoteDelegation
            &&& cert is StakeRegistrationAndDelegation <==> asked is StakeRegistrationAndDelegation
            &&& cert is StakeVoteRegistrationAndDelegation
                <==> asked is StakeVoteRegistrationAndDelegation
            &&& cert is VoteDelegation <==> asked is VoteDelegation
            &&& cert is VoteRegistrationAndDelegation <==> asked is VoteRegistrationAndDelegation
            &&& cert is GenesisKeyDelegation <==> asked is GenesisKeyDelegation
            &&& cert is MoveInstantaneousRewardsCert <==> asked is MoveInstantaneousRewardsCert
            &&& cert is CommitteeHotAuth <==> asked is CommitteeHotAuth
            &&& cert is CommitteeColdResign <==> asked is CommitteeColdResign
            &&& asked matches CertificateTypeView::CommitteeHotAuth {
                committee_cold_credential,
                committee_hot_credential,
            } ==> cert == (CertificateView::CommitteeHotAuth {
                cold: committee_cold_credential,
                hot: committee_hot_credential,
            })
            &&& asked matches CertificateTypeView::CommitteeColdResign {
                committee_cold_credential,
            } ==> cert == (CertificateView::CommitteeColdResign {
                cold: committee_cold_credential,
            })
        }),
{
}

/// A report on a single certificate is what is said of it, in order, each time with the
/// place of the certificate.
pub proof fn single_reports_keep_everything(
    state: StateView,
    context: ValidationInputContext,
    info: CertificateInfoView,
    current_epoch: u64,
    k: int,
)
    ensures
        ({
            let reported = all_errors(state, context, seq![info], current_epoch);
            let errors = certificate_errors(state, context, info.cert_type, current_epoch);
            &&& reported.len() == errors.len()
            &&& 0 <= k < errors.len() ==> reported[k].error == errors[k] && reported[k].location
                == "transaction.body.certs."@ + decimal(info.cert_index as nat)
        }),
        ({
            let reported = all_warnings(state, seq![info]);
            let warnings = certificate_warnings(state, info);
            &&& reported.len() == warnings.len()
            &&& 0 <= k < warnings.len() ==> reported[k].warning == warnings[k]
                && reported[k].location == "transaction.body.certs."@ + decimal(
                info.cert_index as nat,
            )
        }),
{
    let single = seq![info];
    assert(single.drop_last() =~= Seq::empty());
    assert(single.last() == info);
    assert(all_errors(state, context, single.drop_last(), current_epoch).len() == 0);
    assert(all_warnings(state, single.drop_last()).len() == 0);
}

/// Whether an error is among those that are reported at a place.
pub open spec fn error_at(
    reported: Seq<LocatedError>,
    error: Phase1ErrorView,
    place: nat,
) -> bool {
    reported.contains(
        LocatedError { error, location: "transaction.body.certs."@ + decimal(place) },
    )
}

/// Whether a warning is among those that are reported at a place.
pub open spec fn warning_at(
    reported: Seq<LocatedWarning>,
    warning: Phase1WarningView,
    place: nat,
) -> bool {
    reported.contains(
        LocatedWarning { warning, location: "transaction.body.certs."@ + decimal(place) },
    )
}

proof fn reports_hold_each(
    state: StateView,
    context: ValidationInputContext,
    infos: Seq<CertificateInfoView>,
    current_epoch: u64,
    error: LocatedError,
    warning: LocatedWarning,
)
    ensures
        all_errors(state, context, infos, current_epoch).contains(error) <==> exists|i: int|
            0 <= i < infos.len() && certificate_errors(
                state,
                context,
                (#[trigger] infos[i]).cert_type,
                current_epoch,
            ).contains(error.error) && error.location == certificate_location(infos[i].cert_index),
        all_warnings(state, infos).contains(warning) <==> exists|i: int|
            0 <= i < infos.len() && certificate_warnings(state, #[trigger] infos[i]).contains(
                warning.warning,
            ) && warning.location == certificate_location(infos[i].cert_index),
    decreases infos.len(),
{
    if infos.len() > 0 {
        let fewer = infos.drop_last();
        let n = infos.len() - 1;
        let last = infos[n];
        reports_hold_each(state, context, fewer, current_epoch, error, warning);
        let before = all_errors(state, context, fewer, current_epoch);
        let all = all_errors(state, context, infos, current_epoch);
        let errors = certificate_errors(state, context, last.cert_type, current_epoch);
        if before.contains(error) {
            let k = choose|k: int| 0 <= k < before.len() && before[k] == error;
            assert(all[k] == error);
            let i = choose|i: int|
                0 <= i < fewer.len() && certificate_errors(
                    state,
                    context,
                    (#[trigger] fewer[i]).cert_type,
                    current_epoch,
                ).contains(error.error) && error.location == certificate_location(
                    fewer[i].cert_index,
                );
            assert(fewer[i] == infos[i]);
        }
        if errors.contains(error.error) && error.location == certificate_location(
            last.cert_index,
        ) {
            let k = choose|k: int| 0 <= k < errors.len() && errors[k] == error.error;
            assert(all[before.len() + k] == error);
        }
        if all.contains(error) && !before.contains(error) {
            let k = choose|k: int| 0 <= k < all.len() && all[k] == error;
            if k < before.len() {
                assert(before[k] == error);
            }
            assert(errors[k - before.len()] == error.error);
        }
        if exists|i: int|
            0 <= i < infos.len() && certificate_errors(
                state,
                context,
                (#[trigger] infos[i]).cert_type,
                current_epoch,
            ).contains(error.error) && error.location == certificate_location(
                infos[i].cert_index,
            ) {
            let i = choose|i: int|
                0 <= i < infos.len() && certificate_errors(
                    state,
                    context,
                    (#[trigger] infos[i]).cert_type,
                    current_epoch,
                ).contains(error.error) && error.location == certificate_location(
                    infos[i].cert_index,
                );
            if i < n {
                assert(fewer[i] == infos[i]);
            }
        }
        let warned = all_warnings(state, fewer);
        let all_warned = all_warnings(state, infos);
        let warnings = certificate_warnings(state, last);
        if warned.contains(warning) {
            let k = choose|k: int| 0 <= k < warned.len() && warned[k] == warning;
            assert(all_warned[k] == warning);
            let i = choose|i: int|
                0 <= i < fewer.len() && certificate_warnings(state, #[trigger] fewer[i]).contains(
                    warning.warning,
                ) && warning.location == certificate_location(fewer[i].cert_index);
            assert(fewer[i] == infos[i]);
        }
        if warnings.contains(warning.warning) && warning.location == certificate_location(
            last.cert_index,
        ) {
            let k = choose|k: int| 0 <= k < warnings.len() && warnings[k] == warning.warning;
            assert(all_warned[warned.len() + k] == warning);
        }
        if all_warned.contains(warning) && !warned.contains(warning) {
            let k = choose|k: int| 0 <= k < all_warned.len() && all_warned[k] == warning;
            if k < warned.len() {
                assert(warned[k] == warning);
            }
            assert(warnings[k - warned.len()] == warning.warning);
        }
        if exists|i: int|
            0 <= i < infos.len() && certificate_warnings(state, #[trigger] infos[i]).contains(
                warning.warning,
            ) && warning.location == certificate_location(infos[i].cert_index) {
            let i = choose|i: int|
                0 <= i < infos.len() && certificate_warnings(state, #[trigger] infos[i]).contains(
                    warning.warning,
                ) && warning.location == certificate_location(infos[i].cert_index);
            if i < n {
                assert(fewer[i] == infos[i]);
            }
        }
    }
}

/// The report on a transaction says of each certificate, at its place, exactly what is to
/// be said of it when all certificates have been taken in.
pub proof fn report_covers_each_certificate(
    certs: Seq<CertificateView>,
    context: ValidationInputContext,
    place: int,
    error: Phase1ErrorView,
    warning: Phase1WarningView,
)
    requires
        certs.len() <= u32::MAX + 1,
        0 <= place < certs.len(),
    ensures
        ({
            let infos = all_processed(certs, context.network_type);
            let settled = state_after(initial_state(context), infos);
            let asked = processed(certs[place], context.network_type);
            &&& error_at(transaction_errors(certs, context), error, place as nat)
                <==> certificate_errors(
                settled,
                context,
                asked,
                epoch_of(context.slot),
            ).contains(error)
            &&& warning_at(transaction_warnings(certs, context), warning, place as nat)
                <==> certificate_warnings(
                settled,
                CertificateInfoView { cert_index: place as u32, cert_type: asked },
            ).contains(warning)
        }),
{
    let infos = all_processed(certs, context.network_type);
    let settled = state_after(initial_state(context), infos);
    let location = "transaction.body.certs."@ + decimal(place as nat);
    reports_hold_each(
        settled,
        context,
        infos,
        epoch_of(context.slot),
        LocatedError { error, location },
        LocatedWarning { warning, location },
    );
    assert(infos[place].cert_index == place);
    assert forall|i: int| 0 <= i < infos.len() && location == certificate_location(
        (#[trigger] infos[i]).cert_index,
    ) implies i == place by {
        if i < place {
            certificates_are_known_by_their_places(certs, context.network_type, i, place);
        }
        if place < i {
            certificates_are_known_by_their_places(certs, context.network_type, place, i);
        }
    }
}

/// Whether the ledger lists the account as registered.
pub open spec fn ledger_lists(context: ValidationInputContext, reward_address: Seq<char>) -> bool {
    exists|i: int|
        0 <= i < context.account_contexts@.len() && (
        #[trigger] context.account_contexts@[i]).is_registered
            && context.account_contexts@[i].bech32_address@ == reward_address
}

/// A transaction is told that an account is not registered exactly on the certificates
/// that deregister or delegate it without registering it, and exactly if neither the
/// ledger lists it nor a certificate registers it, or the last certificate to do either
/// deregisters it. It is told that an account is registered already exactly on the
/// certificates that register it, and exactly if the ledger lists it and that last
/// certificate does not deregister it.
pub proof fn accounts_have_to_be_registered_once(
    certs: Seq<CertificateView>,
    context: ValidationInputContext,
    place: int,
    reward_address: Seq<char>,
)
    requires
        certs.len() <= u32::MAX + 1,
        0 <= place < certs.len(),
    ensures
        ({
            let infos = all_processed(certs, context.network_type);
            let account = EntityView::Account(reward_address);
            let asked = processed(certs[place], context.network_type);
            let registered = exists|i: int|
                0 <= i < infos.len() && #[trigger] last_registers(infos, i, account);
            let deregistered = exists|i: int|
                0 <= i < infos.len() && #[trigger] last_deregisters(infos, i, account);
            &&& error_at(
                transaction_errors(certs, context),
                Phase1ErrorView::StakeNotRegistered { reward_address },
                place as nat,
            ) <==> {
                &&& needed_account(asked) == Some(reward_address)
                &&& !(ledger_lists(context, reward_address) || registered) || deregistered
            }
            &&& error_at(
                transaction_errors(certs, context),
                Phase1ErrorView::StakeAlreadyRegistered { reward_address },
                place as nat,
            ) <==> {
                &&& registers(asked) == Some(account)
                &&& ledger_lists(context, reward_address) && !deregistered
            }
        }),
{
    let infos = all_processed(certs, context.network_type);
    let account = EntityView::Account(reward_address);
    let settled = state_after(initial_state(context), infos);
    let asked = processed(certs[place], context.network_type);
    let epoch = epoch_of(context.slot);
    let missing = Phase1ErrorView::StakeNotRegistered { reward_address };
    let present = Phase1ErrorView::StakeAlreadyRegistered { reward_address };
    let warning = Phase1WarningView::DRepNotRegistered { cert_index: 0 };
    report_covers_each_certificate(certs, context, place, missing, warning);
    report_covers_each_certificate(certs, context, place, present, warning);
    unregistered_account_is_refused(settled, context, asked, epoch, reward_address);
    registered_account_is_refused(settled, context, asked, epoch, reward_address);
    last_certificate_decides_registration(context, infos, account);
    last_certificate_decides_deregistration(context, infos, account);
    initial_registrations_are_kept(initial_state(context), infos);
    ledger_is_the_start(context, account);
}

/// Reports stand in the order of the certificates.
pub proof fn report_follows_the_certificates(
    certs: Seq<CertificateView>,
    context: ValidationInputContext,
    place: int,
)
    requires
        0 <= place <= certs.len(),
    ensures
        ({
            let infos = all_processed(certs, context.network_type);
            let settled = state_after(initial_state(context), infos);
            let epoch = epoch_of(context.slot);
            transaction_errors(certs, context) == all_errors(
                settled,
                context,
                infos.take(place),
                epoch,
            ) + all_errors(settled, context, infos.skip(place), epoch)
        }),
{
    let infos = all_processed(certs, context.network_type);
    let settled = state_after(initial_state(context), infos);
    assert(infos.take(place) + infos.skip(place) =~= infos);
    reports_compose(
        settled,
        context,
        infos.take(place),
        infos.skip(place),
        epoch_of(context.slot),
    );
}

} // verus!
