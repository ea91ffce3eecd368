//! What holds of the registration rules, whatever the certificates.

use vstd::prelude::*;

use crate::text::{decimal, decimal_is_injective};
use crate::validators::certificate::CertificateView;
use crate::validators::common::{CredentialView, NetworkType};
use crate::validators::input_contexts::ValidationInputContext;
use crate::validators::phase_1::errors::{Phase1ErrorView, Phase1WarningView};
use crate::validators::phase_1::validation::registration::{
    all_errors, all_processed, all_warnings, certificate_errors, certificate_location,
    certificate_warnings, initial_state, state_after, CertificateInfoView, CertificateTypeView,
    EntityView, StateView,
};

verus! {

/// The entity that a certificate registers, if it registers one.
pub open spec fn registers(cert_type: CertificateTypeView) -> Option<EntityView> {
    match cert_type {
        CertificateTypeView::StakeRegistration { reward_address } => Some(
            EntityView::Account(reward_address),
        ),
        CertificateTypeView::StakeRegistrationAndDelegation { reward_address, .. } => Some(
            EntityView::Account(reward_address),
        ),
        CertificateTypeView::StakeVoteRegistrationAndDelegation { reward_address, .. } => Some(
            EntityView::Account(reward_address),
        ),
        CertificateTypeView::VoteRegistrationAndDelegation { reward_address, .. } => Some(
            EntityView::Account(reward_address),
        ),
        CertificateTypeView::PoolRegistration { pool_id, .. } => Some(EntityView::Pool(pool_id)),
        CertificateTypeView::DRepRegistration { drep_id } => Some(EntityView::DRep(drep_id)),
        _ => None,
    }
}

/// The entity that a certificate deregisters, if it deregisters one.
pub open spec fn deregisters(cert_type: CertificateTypeView) -> Option<EntityView> {
    match cert_type {
        CertificateTypeView::StakeDeregistration { reward_address } => Some(
            EntityView::Account(reward_address),
        ),
        CertificateTypeView::DRepDeregistration { drep_id } => Some(EntityView::DRep(drep_id)),
        _ => None,
    }
}

/// Whether the certificate at `i` registers the entity and no later one
/// deregisters it.
pub open spec fn last_registers(
    certificates: Seq<CertificateInfoView>,
    i: int,
    entity: EntityView,
) -> bool {
    &&& registers(certificates[i].cert_type) == Some(entity)
    &&& forall|j: int|
        i < j < certificates.len() ==> deregisters((#[trigger] certificates[j]).cert_type) != Some(
            entity,
        )
}

/// Whether the certificate at `i` deregisters the entity and no later one
/// registers it.
pub open spec fn last_deregisters(
    certificates: Seq<CertificateInfoView>,
    i: int,
    entity: EntityView,
) -> bool {
    &&& deregisters(certificates[i].cert_type) == Some(entity)
    &&& forall|j: int|
        i < j < certificates.len() ==> registers((#[trigger] certificates[j]).cert_type) != Some(
            entity,
        )
}

/// Certificates do not change what was registered at the start.
pub proof fn initial_registrations_are_kept(
    state: StateView,
    certificates: Seq<CertificateInfoView>,
)
    ensures
        state_after(state, certificates).initial == state.initial,
    decreases certificates.len(),
{
    if certificates.len() > 0 {
        initial_registrations_are_kept(state, certificates.drop_last());
    }
}

/// No entity is both registered and deregistered by the certificates.
pub proof fn registered_and_deregistered_are_disjoint(
    context: ValidationInputContext,
    certificates: Seq<CertificateInfoView>,
)
    ensures
        ({
            let state = state_after(initial_state(context), certificates);
            state.registered.disjoint(state.deregistered)
        }),
    decreases certificates.len(),
{
    if certificates.len() > 0 {
        registered_and_deregistered_are_disjoint(context, certificates.drop_last());
        let before = state_after(initial_state(context), certificates.drop_last());
        let after = state_after(initial_state(context), certificates);
        assert forall|entity: EntityView| !(after.registered.contains(entity)
            && after.deregistered.contains(entity)) by {
            assert(!(before.registered.contains(entity) && before.deregistered.contains(entity)));
            pool_is_never_deregistered(context, certificates.drop_last(), entity);
        }
    }
}

proof fn pool_is_never_deregistered(
    context: ValidationInputContext,
    certificates: Seq<CertificateInfoView>,
    entity: EntityView,
)
    ensures
        entity is Pool ==> !state_after(
            initial_state(context),
            certificates,
        ).deregistered.contains(entity),
    decreases certificates.len(),
{
    if certificates.len() > 0 {
        pool_is_never_deregistered(context, certificates.drop_last(), entity);
    }
}

/// An entity counts as registered by the transaction exactly if some certificate
/// registers it and no later one deregisters it: the last one decides.
pub proof fn last_certificate_decides_registration(
    context: ValidationInputContext,
    certificates: Seq<CertificateInfoView>,
    entity: EntityView,
)
    ensures
        state_after(initial_state(context), certificates).registered.contains(entity) <==> exists|
            i: int,
        |
            0 <= i < certificates.len() && #[trigger] last_registers(certificates, i, entity),
    decreases certificates.len(),
{
    if certificates.len() > 0 {
        let fewer = certificates.drop_last();
        let n = certificates.len() - 1;
        let last = certificates[n].cert_type;
        last_certificate_decides_registration(context, fewer, entity);
        if registers(last) == Some(entity) {
            assert(last_registers(certificates, n, entity));
        } else if deregisters(last) == Some(entity) {
            assert forall|i: int| 0 <= i < certificates.len() implies !#[trigger] last_registers(
                certificates,
                i,
                entity,
            ) by {
                if i < n {
                    assert(deregisters(certificates[n].cert_type) == Some(entity));
                }
            }
        } else {
            if exists|i: int| 0 <= i < fewer.len() && #[trigger] last_registers(fewer, i, entity) {
                let i = choose|i: int|
                    0 <= i < fewer.len() && #[trigger] last_registers(fewer, i, entity);
                assert(last_registers(certificates, i, entity)) by {
                    assert forall|j: int| i < j < certificates.len() implies deregisters(
                        (#[trigger] certificates[j]).cert_type,
                    ) != Some(entity) by {
                        if j < n {
                            assert(fewer[j] == certificates[j]);
                        }
                    }
                }
            }
            if exists|i: int|
                0 <= i < certificates.len() && #[trigger] last_registers(certificates, i, entity) {
                let i = choose|i: int|
                    0 <= i < certificates.len() && #[trigger] last_registers(
                        certificates,
                        i,
                        entity,
                    );
                assert(last_registers(fewer, i, entity)) by {
                    assert forall|j: int| i < j < fewer.len() implies deregisters(
                        (#[trigger] fewer[j]).cert_type,
                    ) != Some(entity) by {
                        assert(fewer[j] == certificates[j]);
                    }
                }
            }
        }
    }
}

/// An account or a representative counts as deregistered by the transaction
/// exactly if some certificate deregisters it and no later one registers it.
pub proof fn last_certificate_decides_deregistration(
    context: ValidationInputContext,
    certificates: Seq<CertificateInfoView>,
    entity: EntityView,
)
    ensures
        state_after(initial_state(context), certificates).deregistered.contains(entity)
            <==> exists|i: int|
            0 <= i < certificates.len() && #[trigger] last_deregisters(certificates, i, entity),
    decreases certificates.len(),
{
    if certificates.len() > 0 {
        let fewer = certificates.drop_last();
        let n = certificates.len() - 1;
        let last = certificates[n].cert_type;
        last_certificate_decides_deregistration(context, fewer, entity);
        pool_is_never_deregistered(context, fewer, entity);
        if deregisters(last) == Some(entity) {
            assert(last_deregisters(certificates, n, entity));
        } else if registers(last) == Some(entity) {
            assert forall|i: int| 0 <= i < certificates.len() implies !#[trigger] last_deregisters(
                certificates,
                i,
                entity,
            ) by {
                if i < n {
                    assert(registers(certificates[n].cert_type) == Some(entity));
                }
            }
        } else {
            if exists|i: int|
                0 <= i < fewer.len() && #[trigger] last_deregisters(fewer, i, entity) {
                let i = choose|i: int|
                    0 <= i < fewer.len() && #[trigger] last_deregisters(fewer, i, entity);
                assert(last_deregisters(certificates, i, entity)) by {
                    assert forall|j: int| i < j < certificates.len() implies registers(
                        (#[trigger] certificates[j]).cert_type,
                    ) != Some(entity) by {
                        if j < n {
                            assert(fewer[j] == certificates[j]);
                        }
                    }
                }
            }
            if exists|i: int|
                0 <= i < certificates.len() && #[trigger] last_deregisters(
                    certificates,
                    i,
                    entity,
                ) {
                let i = choose|i: int|
                    0 <= i < certificates.len() && #[trigger] last_deregisters(
                        certificates,
                        i,
                        entity,
                    );
                assert(last_deregisters(fewer, i, entity)) by {
                    assert forall|j: int| i < j < fewer.len() implies registers(
                        (#[trigger] fewer[j]).cert_type,
                    ) != Some(entity) by {
                        assert(fewer[j] == certificates[j]);
                    }
                }
            }
        }
    }
}

/// Whether the certificate at `i` retires the pool and no later one registers it
/// or retires it anew.
pub open spec fn last_retires(
    certificates: Seq<CertificateInfoView>,
    i: int,
    pool: Seq<char>,
) -> bool {
    &&& certificates[i].cert_type matches CertificateTypeView::PoolRetirement { pool_id, .. }
        && pool_id == pool
    &&& forall|j: int|
        i < j < certificates.len() ==> match (#[trigger] certificates[j]).cert_type {
            CertificateTypeView::PoolRetirement { pool_id, .. } => pool_id != pool,
            CertificateTypeView::PoolRegistration { pool_id, .. } => pool_id != pool,
            _ => true,
        }
}

/// A pool that a certificate retires, and that no later one registers or retires
/// anew, is to retire in the epoch that the certificate names.
pub proof fn last_certificate_decides_retirement(
    context: ValidationInputContext,
    certificates: Seq<CertificateInfoView>,
    i: int,
    pool: Seq<char>,
)
    requires
        0 <= i < certificates.len(),
        last_retires(certificates, i, pool),
    ensures
        ({
            let retirements = state_after(initial_state(context), certificates).retirements;
            &&& retirements.contains_key(pool)
            &&& certificates[i].cert_type matches CertificateTypeView::PoolRetirement {
                retirement_epoch,
                ..
            }
            &&& retirements[pool] == retirement_epoch
        }),
    decreases certificates.len(),
{
    let fewer = certificates.drop_last();
    let n = certificates.len() - 1;
    assert(certificates.last() == certificates[n]);
    if i < n {
        assert(last_retires(fewer, i, pool)) by {
            assert forall|j: int| i < j < fewer.len() implies match (
            #[trigger] fewer[j]).cert_type {
                CertificateTypeView::PoolRetirement { pool_id, .. } => pool_id != pool,
                CertificateTypeView::PoolRegistration { pool_id, .. } => pool_id != pool,
                _ => true,
            } by {
                assert(fewer[j] == certificates[j]);
            }
        }
        last_certificate_decides_retirement(context, fewer, i, pool);
    }
}

/// Whether the certificate resigns the committee member.
pub open spec fn resigns(cert_type: CertificateTypeView, cold: CredentialView) -> bool {
    cert_type matches CertificateTypeView::CommitteeColdResign { committee_cold_credential }
        && committee_cold_credential == cold
}

/// A committee member counts as resigned by the transaction exactly if some
/// certificate resigns it.
pub proof fn resignation_is_final(
    context: ValidationInputContext,
    certificates: Seq<CertificateInfoView>,
    cold: CredentialView,
)
    ensures
        state_after(initial_state(context), certificates).resignations.contains(cold) <==> exists|
            i: int,
        |
            0 <= i < certificates.len() && resigns((#[trigger] certificates[i]).cert_type, cold),
    decreases certificates.len(),
{
    if certificates.len() > 0 {
        let fewer = certificates.drop_last();
        let n = certificates.len() - 1;
        resignation_is_final(context, fewer, cold);
        assert(certificates.last() == certificates[n]);
        if exists|i: int|
            0 <= i < fewer.len() && resigns((#[trigger] fewer[i]).cert_type, cold) {
            let i = choose|i: int|
                0 <= i < fewer.len() && resigns((#[trigger] fewer[i]).cert_type, cold);
            assert(resigns(certificates[i].cert_type, cold));
        }
        if exists|i: int|
            0 <= i < certificates.len() && resigns((#[trigger] certificates[i]).cert_type, cold) {
            let i = choose|i: int|
                0 <= i < certificates.len() && resigns(
                    (#[trigger] certificates[i]).cert_type,
                    cold,
                );
            if i < n {
                assert(resigns(fewer[i].cert_type, cold));
            }
        }
    }
}

/// Certificates that delegate, update or authorise change nothing of what is
/// registered.
pub proof fn delegation_changes_nothing(state: StateView, cert_type: CertificateTypeView)
    requires
        registers(cert_type) is None,
        deregisters(cert_type) is None,
        !(cert_type is PoolRetirement),
        !(cert_type is CommitteeColdResign),
    ensures
        state.updated(cert_type) == state,
{
}

/// Certificates of the two kinds that are no longer supported get exactly one
/// error, whatever is registered, and no warning.
pub proof fn unsupported_certificates_are_refused(
    state: StateView,
    context: ValidationInputContext,
    info: CertificateInfoView,
    current_epoch: u64,
)
    requires
        info.cert_type is GenesisKeyDelegation || info.cert_type is MoveInstantaneousRewardsCert,
    ensures
        certificate_errors(state, context, info.cert_type, current_epoch).len() == 1,
        certificate_warnings(state, info).len() == 0,
{
}

/// A representative's certificates are never refused, only warned about.
pub proof fn representatives_are_only_warned_about(
    state: StateView,
    context: ValidationInputContext,
    drep_id: Seq<char>,
    current_epoch: u64,
)
    ensures
        certificate_errors(
            state,
            context,
            CertificateTypeView::DRepRegistration { drep_id },
            current_epoch,
        ).len() == 0,
        certificate_errors(
            state,
            context,
            CertificateTypeView::DRepDeregistration { drep_id },
            current_epoch,
        ).len() == 0,
        certificate_errors(
            state,
            context,
            CertificateTypeView::DRepUpdate { drep_id },
            current_epoch,
        ).len() == 0,
{
}

/// All certificates are judged by the state after the last of them. So a
/// certificate that deregisters an account, where no later one registers it
/// again, is answered that the account is not registered.
pub proof fn settled_deregistration_is_refused(
    context: ValidationInputContext,
    certificates: Seq<CertificateInfoView>,
    i: int,
    reward_address: Seq<char>,
    current_epoch: u64,
)
    requires
        0 <= i < certificates.len(),
        certificates[i].cert_type == (CertificateTypeView::StakeDeregistration { reward_address }),
        last_deregisters(certificates, i, EntityView::Account(reward_address)),
    ensures
        certificate_errors(
            state_after(initial_state(context), certificates),
            context,
            certificates[i].cert_type,
            current_epoch,
        ) == seq![Phase1ErrorView::StakeNotRegistered { reward_address }],
{
    last_certificate_decides_deregistration(
        context,
        certificates,
        EntityView::Account(reward_address),
    );
}

/// All certificates are judged by the state after the last of them. So a
/// certificate that registers an account, where no later one deregisters it,
/// gets the warning that it is registered in this transaction.
pub proof fn settled_registration_is_warned_about(
    context: ValidationInputContext,
    certificates: Seq<CertificateInfoView>,
    i: int,
    reward_address: Seq<char>,
)
    requires
        0 <= i < certificates.len(),
        last_registers(certificates, i, EntityView::Account(reward_address)),
    ensures
        ({
            let warnings = certificate_warnings(
                state_after(initial_state(context), certificates),
                certificates[i],
            );
            &&& warnings.len() > 0
            &&& warnings[0] == (Phase1WarningView::DuplicateRegistrationInTx {
                entity_type: "stake key"@,
                entity_id: reward_address,
                cert_index: certificates[i].cert_index,
            })
        }),
{
    last_certificate_decides_registration(
        context,
        certificates,
        EntityView::Account(reward_address),
    );
}

/// The report on certificates is the report on the first of them followed by the
/// report on the rest.
pub proof fn reports_compose(
    state: StateView,
    context: ValidationInputContext,
    first: Seq<CertificateInfoView>,
    second: Seq<CertificateInfoView>,
    current_epoch: u64,
)
    ensures
        all_errors(state, context, first + second, current_epoch) == all_errors(
            state,
            context,
            first,
            current_epoch,
        ) + all_errors(state, context, second, current_epoch),
        all_warnings(state, first + second) == all_warnings(state, first) + all_warnings(
            state,
            second,
        ),
    decreases second.len(),
{
    let both = first + second;
    if second.len() == 0 {
        assert(both =~= first);
    } else {
        assert(both.drop_last() =~= first + second.drop_last());
        assert(both.last() == second.last());
        reports_compose(state, context, first, second.drop_last(), current_epoch);
    }
}

/// A transaction gets no error exactly if none of its certificates gets one.
pub proof fn accepted_if_every_certificate_is(
    state: StateView,
    context: ValidationInputContext,
    certificates: Seq<CertificateInfoView>,
    current_epoch: u64,
)
    ensures
        all_errors(state, context, certificates, current_epoch).len() == 0 <==> forall|i: int|
            0 <= i < certificates.len() ==> certificate_errors(
                state,
                context,
                (#[trigger] certificates[i]).cert_type,
                current_epoch,
            ).len() == 0,
    decreases certificates.len(),
{
    if certificates.len() > 0 {
        let fewer = certificates.drop_last();
        let n = certificates.len() - 1;
        accepted_if_every_certificate_is(state, context, fewer, current_epoch);
        assert(certificates.last() == certificates[n]);
        if all_errors(state, context, certificates, current_epoch).len() == 0 {
            assert forall|i: int| 0 <= i < certificates.len() implies certificate_errors(
                state,
                context,
                (#[trigger] certificates[i]).cert_type,
                current_epoch,
            ).len() == 0 by {
                if i < n {
                    assert(fewer[i] == certificates[i]);
                }
            }
        } else if all_errors(state, context, fewer, current_epoch).len() > 0 {
            let i = choose|i: int|
                0 <= i < fewer.len() && certificate_errors(
                    state,
                    context,
                    (#[trigger] fewer[i]).cert_type,
                    current_epoch,
                ).len() != 0;
            assert(fewer[i] == certificates[i]);
        }
    }
}

/// Every error and every warning names the place of a certificate.
pub proof fn reports_name_a_certificate(
    state: StateView,
    context: ValidationInputContext,
    certificates: Seq<CertificateInfoView>,
    current_epoch: u64,
)
    ensures
        forall|k: int|
            0 <= k < all_errors(state, context, certificates, current_epoch).len() ==> exists|
                i: int,
            |
                0 <= i < certificates.len() && (#[trigger] all_errors(
                    state,
                    context,
                    certificates,
                    current_epoch,
                )[k]).location == certificate_location((#[trigger] certificates[i]).cert_index),
        forall|k: int|
            0 <= k < all_warnings(state, certificates).len() ==> exists|i: int|
                0 <= i < certificates.len() && (#[trigger] all_warnings(
                    state,
                    certificates,
                )[k]).location == certificate_location((#[trigger] certificates[i]).cert_index),
    decreases certificates.len(),
{
    if certificates.len() > 0 {
        let fewer = certificates.drop_last();
        let n = certificates.len() - 1;
        reports_name_a_certificate(state, context, fewer, current_epoch);
        let errors = all_errors(state, context, certificates, current_epoch);
        let fewer_errors = all_errors(state, context, fewer, current_epoch);
        assert forall|k: int| 0 <= k < errors.len() implies exists|i: int|
            0 <= i < certificates.len() && (#[trigger] errors[k]).location == certificate_location(
                (#[trigger] certificates[i]).cert_index,
            ) by {
            if k < fewer_errors.len() {
                assert(errors[k] == fewer_errors[k]);
                let i = choose|i: int|
                    0 <= i < fewer.len() && fewer_errors[k].location == certificate_location(
                        (#[trigger] fewer[i]).cert_index,
                    );
                assert(fewer[i] == certificates[i]);
            } else {
                assert(errors[k].location == certificate_location(certificates[n].cert_index));
            }
        }
        let warnings = all_warnings(state, certificates);
        let fewer_warnings = all_warnings(state, fewer);
        assert forall|k: int| 0 <= k < warnings.len() implies exists|i: int|
            0 <= i < certificates.len() && (#[trigger] warnings[k]).location
                == certificate_location((#[trigger] certificates[i]).cert_index) by {
            if k < fewer_warnings.len() {
                assert(warnings[k] == fewer_warnings[k]);
                let i = choose|i: int|
                    0 <= i < fewer.len() && fewer_warnings[k].location == certificate_location(
                        (#[trigger] fewer[i]).cert_index,
                    );
                assert(fewer[i] == certificates[i]);
            } else {
                assert(warnings[k].location == certificate_location(certificates[n].cert_index));
            }
        }
    }
}

/// Certificates are known by their places, which rise; reports on two of them name
/// different places. Their number has to fit the index.
pub proof fn certificates_are_known_by_their_places(
    certs: Seq<CertificateView>,
    network: NetworkType,
    i: int,
    j: int,
)
    requires
        certs.len() <= u32::MAX + 1,
        0 <= i < j < certs.len(),
    ensures
        ({
            let infos = all_processed(certs, network);
            &&& infos[i].cert_index == i
            &&& infos[i].cert_index < infos[j].cert_index
            &&& certificate_location(infos[i].cert_index) != certificate_location(
                infos[j].cert_index,
            )
        }),
{
    let start = "transaction.body.certs."@;
    let first = certificate_location(i as u32);
    let second = certificate_location(j as u32);
    assert(first.skip(start.len() as int) =~= decimal(i as nat));
    assert(second.skip(start.len() as int) =~= decimal(j as nat));
    if first == second {
        decimal_is_injective(i as nat, j as nat);
    }
}

} // verus!
