use cardano_serialization_lib as csl;
use cquisitor::validators::certificate::{read_certificates, Certificate, LocalDRep};
use cquisitor::validators::common::{LocalCredential, NetworkType};
use cquisitor::validators::helpers::{credential_to_bech32_reward_address, drep_to_id};
use cquisitor::validators::input_contexts::{
    AccountInputContext, CommitteeInputContext, DRepInputContext, PoolInputContext,
    ProtocolParameters, ValidationInputContext,
};
use cquisitor::validators::phase_1::errors::{Phase1Error, Phase1Warning};
use cquisitor::validators::phase_1::validation::registration::{
    CertificateInfo, CertificateType, RegistrableEntity, RegistrationState, RegistrationValidator,
};
use cquisitor::validators::validation_result::ValidationResult;

const STAKE_KEY: &str = "337b62cfff6403a06a3acbc34f8c46003c69fe79a3628cefa9c47251";
const STAKE_SCRIPT: &str = "c37b1b5dc0669f1d3c61a6fddb2e8fde96be87b881c60bce8e8d542f";
const STAKE_ADDRESS: &str = "stake1uyehkck0lajq8gr28t9uxnuvgcqrc6070x3k9r8048z8y5gh6ffgw";
const STAKE_TEST_ADDRESS: &str =
    "stake_test1uqehkck0lajq8gr28t9uxnuvgcqrc6070x3k9r8048z8y5gssrtvn";
const SCRIPT_ADDRESS: &str = "stake178phkx6acpnf78fuvxn0mkew3l0fd058hzquvz7w36x4gtcccycj5";
const POOL: &str = "11111111111111111111111111111111111111111111111111111111";

fn key(hash: &str) -> String {
    format!("8200581c{hash}")
}

fn script(hash: &str) -> String {
    format!("8201581c{hash}")
}

fn pool(hash: &str) -> String {
    format!("581c{hash}")
}

fn stake_registration() -> String {
    format!("8200{}", key(STAKE_KEY))
}

fn stake_deregistration() -> String {
    format!("8201{}", key(STAKE_KEY))
}

fn stake_delegation() -> String {
    format!("8302{}{}", key(STAKE_KEY), pool(POOL))
}

fn pool_registration(cost: u8) -> String {
    format!(
        "8a03{}5820{}0018{:02x}d81e820101581de0{}8080f6",
        pool(POOL),
        "22".repeat(32),
        cost,
        STAKE_KEY
    )
}

fn pool_retirement(epoch: u8) -> String {
    format!("8304{}18{:02x}", pool(POOL), epoch)
}

fn drep_registration() -> String {
    format!("8410{}01f6", key(STAKE_KEY))
}

fn drep_deregistration() -> String {
    format!("8311{}01", key(STAKE_KEY))
}

fn drep_update() -> String {
    format!("8312{}f6", key(STAKE_KEY))
}

fn key_drep() -> String {
    key(STAKE_KEY)
}

fn abstain() -> String {
    "8102".to_string()
}

fn vote_delegation(drep: &str) -> String {
    format!("8309{}{}", key(STAKE_KEY), drep)
}

fn stake_and_vote_delegation(drep: &str) -> String {
    format!("840a{}{}{}", key(STAKE_KEY), pool(POOL), drep)
}

fn stake_registration_and_delegation() -> String {
    format!("840b{}{}01", key(STAKE_KEY), pool(POOL))
}

fn vote_registration_and_delegation(drep: &str) -> String {
    format!("840c{}{}01", key(STAKE_KEY), drep)
}

fn stake_vote_registration_and_delegation(drep: &str) -> String {
    format!("850d{}{}{}01", key(STAKE_KEY), pool(POOL), drep)
}

fn committee_hot_auth() -> String {
    format!("830e{}{}", key(STAKE_KEY), script(STAKE_SCRIPT))
}

fn committee_cold_resign() -> String {
    format!("830f{}f6", key(STAKE_KEY))
}

fn genesis_key_delegation() -> String {
    format!(
        "8405581c{}581c{}5820{}",
        STAKE_KEY,
        STAKE_KEY,
        "33".repeat(32)
    )
}

fn move_rewards() -> String {
    "8206820001".to_string()
}

fn body(certificates: &[String]) -> csl::TransactionBody {
    let mut body = csl::TransactionBody::new_tx_body(
        &csl::TransactionInputs::new(),
        &csl::TransactionOutputs::new(),
        &csl::BigNum::zero(),
    );
    let encoded = format!("{:02x}{}", 0x80 + certificates.len(), certificates.concat());
    let certificates = csl::Certificates::from_bytes(hex::decode(encoded).unwrap()).unwrap();
    body.set_certs(&certificates);
    body
}

fn context() -> ValidationInputContext {
    ValidationInputContext {
        account_contexts: Vec::new(),
        pool_contexts: Vec::new(),
        drep_contexts: Vec::new(),
        current_committee_members: Vec::new(),
        potential_committee_members: Vec::new(),
        protocol_parameters: ProtocolParameters {
            min_pool_cost: 100,
            max_epoch_for_pool_retirement: 18,
        },
        network_type: NetworkType::Mainnet,
        slot: 432000 * 10 + 5,
    }
}

fn account(balance: Option<u64>) -> AccountInputContext {
    AccountInputContext {
        bech32_address: STAKE_ADDRESS.to_string(),
        is_registered: true,
        balance,
    }
}

fn registered_pool() -> PoolInputContext {
    PoolInputContext {
        pool_id: POOL.to_string(),
        is_registered: true,
    }
}

fn cold_key() -> LocalCredential {
    LocalCredential::KeyHash(hex::decode(STAKE_KEY).unwrap())
}

fn key_drep_id() -> String {
    drep_to_id(&LocalDRep::KeyHash(hex::decode(STAKE_KEY).unwrap()))
}

fn registered_drep() -> DRepInputContext {
    DRepInputContext {
        bech32_drep: key_drep_id(),
        is_registered: true,
    }
}

fn member(is_resigned: bool) -> CommitteeInputContext {
    CommitteeInputContext {
        committee_member_cold: cold_key(),
        is_resigned,
    }
}

fn validated(certificates: &[String], context: &ValidationInputContext) -> ValidationResult {
    RegistrationValidator::new(&body(certificates), context).validate()
}

fn errors(result: &ValidationResult) -> Vec<String> {
    result
        .errors
        .iter()
        .map(|error| format!("{:?}", error.error))
        .collect()
}

fn warnings(result: &ValidationResult) -> Vec<String> {
    result
        .warnings
        .iter()
        .map(|warning| format!("{:?}", warning.warning))
        .collect()
}

fn not_registered() -> String {
    format!("StakeNotRegistered {{ reward_address: {STAKE_ADDRESS:?} }}")
}

fn already_registered() -> String {
    format!("StakeAlreadyRegistered {{ reward_address: {STAKE_ADDRESS:?} }}")
}

fn pool_not_registered() -> String {
    format!("StakePoolNotRegistered {{ pool_id: {POOL:?} }}")
}

fn duplicate(entity_type: &str, entity_id: &str, cert_index: u32) -> String {
    format!(
        "DuplicateRegistrationInTx {{ entity_type: {entity_type:?}, entity_id: {entity_id:?}, \
         cert_index: {cert_index} }}"
    )
}

fn drep_not_registered(cert_index: u32) -> String {
    format!("DRepNotRegistered {{ cert_index: {cert_index} }}")
}

#[test]
fn reward_addresses_are_bech32() {
    let key = LocalCredential::KeyHash(hex::decode(STAKE_KEY).unwrap());
    let script = LocalCredential::ScriptHash(hex::decode(STAKE_SCRIPT).unwrap());
    assert_eq!(
        credential_to_bech32_reward_address(&key, &NetworkType::Mainnet),
        STAKE_ADDRESS
    );
    assert_eq!(
        credential_to_bech32_reward_address(&key, &NetworkType::Preview),
        STAKE_TEST_ADDRESS
    );
    assert_eq!(
        credential_to_bech32_reward_address(&key, &NetworkType::Preprod),
        STAKE_TEST_ADDRESS
    );
    assert_eq!(
        credential_to_bech32_reward_address(&script, &NetworkType::Mainnet),
        SCRIPT_ADDRESS
    );
}

#[test]
fn representatives_have_bech32_ids() {
    let hash = csl::Ed25519KeyHash::from_hex(STAKE_KEY).unwrap();
    let expected = csl::DRep::new_key_hash(&hash).to_bech32(true).unwrap();
    assert!(expected.starts_with("drep1"));
    assert_eq!(key_drep_id(), expected);
    let script = LocalDRep::ScriptHash(hex::decode(STAKE_SCRIPT).unwrap());
    assert_ne!(drep_to_id(&script), expected);
    assert_eq!(drep_to_id(&LocalDRep::AlwaysAbstain), "");
    assert_eq!(drep_to_id(&LocalDRep::AlwaysNoConfidence), "");
}

#[test]
fn certificates_are_read_in_order() {
    let all = [
        stake_registration(),
        stake_deregistration(),
        stake_delegation(),
        pool_registration(99),
        pool_retirement(25),
        genesis_key_delegation(),
        move_rewards(),
        committee_hot_auth(),
        committee_cold_resign(),
        drep_deregistration(),
        drep_registration(),
        drep_update(),
        stake_and_vote_delegation(&key_drep()),
        stake_registration_and_delegation(),
        stake_vote_registration_and_delegation(&script(STAKE_SCRIPT)),
    ];
    let read = read_certificates(&body(&all));
    assert_eq!(read.len(), 15);
    assert!(matches!(&read[0], Certificate::StakeRegistration { credential: LocalCredential::KeyHash(hash) } if hex::encode(hash) == STAKE_KEY));
    assert!(matches!(&read[1], Certificate::StakeDeregistration { credential: LocalCredential::KeyHash(hash) } if hex::encode(hash) == STAKE_KEY));
    assert!(matches!(&read[2], Certificate::StakeDelegation { pool, .. } if hex::encode(pool) == POOL));
    assert!(matches!(&read[3], Certificate::PoolRegistration { operator, cost: 99 } if hex::encode(operator) == POOL));
    assert!(matches!(&read[4], Certificate::PoolRetirement { pool, epoch: 25 } if hex::encode(pool) == POOL));
    assert!(matches!(&read[5], Certificate::GenesisKeyDelegation));
    assert!(matches!(&read[6], Certificate::MoveInstantaneousRewardsCert));
    assert!(matches!(&read[7], Certificate::CommitteeHotAuth { cold: LocalCredential::KeyHash(cold), hot: LocalCredential::ScriptHash(hot) } if hex::encode(cold) == STAKE_KEY && hex::encode(hot) == STAKE_SCRIPT));
    assert!(matches!(&read[8], Certificate::CommitteeColdResign { cold: LocalCredential::KeyHash(_) }));
    assert!(matches!(&read[9], Certificate::DRepDeregistration { credential: LocalCredential::KeyHash(_) }));
    assert!(matches!(&read[10], Certificate::DRepRegistration { credential: LocalCredential::KeyHash(_) }));
    assert!(matches!(&read[11], Certificate::DRepUpdate { credential: LocalCredential::KeyHash(_) }));
    assert!(matches!(&read[12], Certificate::StakeAndVoteDelegation { drep: LocalDRep::KeyHash(_), .. }));
    assert!(matches!(&read[13], Certificate::StakeRegistrationAndDelegation { pool, .. } if hex::encode(pool) == POOL));
    assert!(matches!(&read[14], Certificate::StakeVoteRegistrationAndDelegation { drep: LocalDRep::ScriptHash(hash), .. } if hex::encode(hash) == STAKE_SCRIPT));
}

#[test]
fn vote_delegations_are_read() {
    let read = read_certificates(&body(&[
        vote_delegation(&abstain()),
        vote_registration_and_delegation("8103"),
        format!("8200{}", script(STAKE_SCRIPT)),
    ]));
    assert!(matches!(&read[0], Certificate::VoteDelegation { drep: LocalDRep::AlwaysAbstain, .. }));
    assert!(matches!(&read[1], Certificate::VoteRegistrationAndDelegation { drep: LocalDRep::AlwaysNoConfidence, .. }));
    assert!(matches!(&read[2], Certificate::StakeRegistration { credential: LocalCredential::ScriptHash(hash) } if hex::encode(hash) == STAKE_SCRIPT));
}

#[test]
fn body_without_certificates_is_accepted() {
    let body = csl::TransactionBody::new_tx_body(
        &csl::TransactionInputs::new(),
        &csl::TransactionOutputs::new(),
        &csl::BigNum::zero(),
    );
    assert_eq!(read_certificates(&body).len(), 0);
    let context = context();
    let result = RegistrationValidator::new(&body, &context).validate();
    assert!(result.errors.is_empty());
    assert!(result.warnings.is_empty());
}

#[test]
fn registration_of_a_new_account_is_warned_about() {
    let result = validated(&[stake_registration()], &context());
    assert!(result.errors.is_empty());
    assert_eq!(warnings(&result), [duplicate("stake key", STAKE_ADDRESS, 0)]);
    assert_eq!(result.warnings[0].location, "transaction.body.certs.0");
}

#[test]
fn registration_of_a_registered_account_is_refused() {
    let mut context = context();
    context.account_contexts.push(account(Some(0)));
    for certificate in [
        stake_registration(),
        vote_registration_and_delegation(&abstain()),
    ] {
        let result = validated(&[certificate], &context);
        assert_eq!(errors(&result), [already_registered()]);
        assert_eq!(result.errors[0].location, "transaction.body.certs.0");
    }
}

#[test]
fn deregistration_alone_is_refused() {
    let mut context = context();
    context.account_contexts.push(account(Some(0)));
    let result = validated(&[stake_deregistration()], &context);
    assert_eq!(errors(&result), [not_registered()]);
}

#[test]
fn deregistration_before_a_registration_is_judged_by_the_balance() {
    let certificates = [stake_deregistration(), stake_registration()];
    let mut context = context();
    context.account_contexts.push(account(Some(7)));
    let result = validated(&certificates, &context);
    assert_eq!(
        errors(&result),
        [
            format!(
                "StakeNonZeroAccountBalance {{ reward_address: {STAKE_ADDRESS:?}, \
                 remaining_balance: 7 }}"
            ),
            already_registered()
        ]
    );
    assert_eq!(result.errors[1].location, "transaction.body.certs.1");
    context.account_contexts[0].balance = Some(0);
    assert_eq!(errors(&validated(&certificates, &context)), [already_registered()]);
    context.account_contexts[0].balance = None;
    assert_eq!(errors(&validated(&certificates, &context)), [already_registered()]);
}

#[test]
fn last_certificate_decides() {
    let result = validated(
        &[stake_registration(), stake_deregistration(), stake_delegation()],
        &context(),
    );
    assert_eq!(
        errors(&result),
        [not_registered(), not_registered(), pool_not_registered()]
    );
    assert!(result.warnings.is_empty());
}

#[test]
fn delegation_needs_an_account_and_a_pool() {
    let mut context = context();
    let result = validated(&[stake_delegation()], &context);
    assert_eq!(errors(&result), [not_registered(), pool_not_registered()]);
    context.account_contexts.push(account(None));
    let result = validated(&[stake_delegation()], &context);
    assert_eq!(errors(&result), [pool_not_registered()]);
    context.pool_contexts.push(registered_pool());
    let result = validated(&[stake_delegation()], &context);
    assert!(result.errors.is_empty());
    assert!(result.warnings.is_empty());
}

#[test]
fn delegation_to_a_retiring_pool_is_refused() {
    let mut context = context();
    context.account_contexts.push(account(None));
    context.pool_contexts.push(registered_pool());
    let result = validated(&[stake_delegation(), pool_retirement(25)], &context);
    assert_eq!(errors(&result), [pool_not_registered()]);
    let result = validated(
        &[stake_delegation(), pool_retirement(25), pool_registration(100)],
        &context,
    );
    assert!(result.errors.is_empty());
}

#[test]
fn pool_cost_has_a_minimum() {
    let result = validated(&[pool_registration(99)], &context());
    assert_eq!(
        errors(&result),
        ["StakePoolCostTooLow { specified_cost: 99, min_cost: 100 }"]
    );
    assert_eq!(warnings(&result), [duplicate("pool", POOL, 0)]);
    let mut context = context();
    context.pool_contexts.push(registered_pool());
    let result = validated(&[pool_registration(100)], &context);
    assert!(result.errors.is_empty());
    assert_eq!(
        warnings(&result),
        [
            duplicate("pool", POOL, 0),
            format!("PoolAlreadyRegistered {{ pool_id: {POOL:?} }}")
        ]
    );
}

#[test]
fn retirement_epoch_has_a_range() {
    let mut context = context();
    context.pool_contexts.push(registered_pool());
    let wrong = |epoch: u8| {
        format!(
            "WrongRetirementEpoch {{ specified_epoch: {epoch}, current_epoch: 10, min_epoch: 11, \
             max_epoch: 28 }}"
        )
    };
    assert!(validated(&[pool_retirement(28)], &context).errors.is_empty());
    assert_eq!(errors(&validated(&[pool_retirement(29)], &context)), [wrong(29)]);
    context.slot = 432000 * 24;
    assert!(validated(&[pool_retirement(25)], &context).errors.is_empty());
    context.slot = 432000 * 25 - 1;
    assert!(validated(&[pool_retirement(25)], &context).errors.is_empty());
    context.slot = 432000 * 25;
    assert_eq!(errors(&validated(&[pool_retirement(25)], &context)).len(), 1);
    context.pool_contexts.clear();
    assert_eq!(
        errors(&validated(&[pool_retirement(26)], &context)),
        [pool_not_registered()]
    );
}

#[test]
fn representatives_are_only_warned_about() {
    let mut context = context();
    let result = validated(&[drep_registration()], &context);
    assert!(result.errors.is_empty());
    assert_eq!(warnings(&result), [duplicate("DRep", &key_drep_id(), 0)]);
    for certificate in [drep_deregistration(), drep_update()] {
        let result = validated(&[certificate], &context);
        assert!(result.errors.is_empty());
        assert_eq!(warnings(&result), [drep_not_registered(0)]);
    }
    context.drep_contexts.push(registered_drep());
    let result = validated(&[drep_update()], &context);
    assert!(result.warnings.is_empty());
    let result = validated(&[drep_registration()], &context);
    assert_eq!(
        warnings(&result),
        [
            duplicate("DRep", &key_drep_id(), 0),
            format!("DRepAlreadyRegistered {{ drep_id: {:?} }}", key_drep_id())
        ]
    );
}

#[test]
fn votes_are_delegated_to_registered_representatives() {
    let mut context = context();
    context.account_contexts.push(account(None));
    context.pool_contexts.push(registered_pool());
    for certificate in [
        vote_delegation(&key_drep()),
        stake_and_vote_delegation(&key_drep()),
    ] {
        let result = validated(&[certificate], &context);
        assert!(result.errors.is_empty());
        assert_eq!(warnings(&result), [drep_not_registered(0)]);
    }
    let result = validated(&[vote_delegation(&abstain())], &context);
    assert!(result.warnings.is_empty());
    context.drep_contexts.push(registered_drep());
    let result = validated(&[stake_and_vote_delegation(&key_drep())], &context);
    assert!(result.warnings.is_empty());
}

#[test]
fn registering_delegations_register_and_delegate() {
    let result = validated(&[stake_registration_and_delegation()], &context());
    assert_eq!(errors(&result), [pool_not_registered()]);
    assert_eq!(warnings(&result), [duplicate("stake key", STAKE_ADDRESS, 0)]);
    let result = validated(
        &[stake_vote_registration_and_delegation(&key_drep())],
        &context(),
    );
    assert_eq!(errors(&result), [pool_not_registered()]);
    assert_eq!(
        warnings(&result),
        [
            duplicate("stake key", STAKE_ADDRESS, 0),
            drep_not_registered(0)
        ]
    );
    let result = validated(&[vote_registration_and_delegation(&key_drep())], &context());
    assert!(result.errors.is_empty());
    assert_eq!(
        warnings(&result),
        [
            duplicate("stake key", STAKE_ADDRESS, 0),
            drep_not_registered(0)
        ]
    );
}

#[test]
fn unsupported_certificates_are_refused() {
    let result = validated(&[genesis_key_delegation(), move_rewards()], &context());
    assert_eq!(
        errors(&result),
        [
            "GenesisKeyDelegationCertificateIsNotSupported",
            "MoveInstantaneousRewardsCertificateIsNotSupported"
        ]
    );
    assert_eq!(result.errors[0].location, "transaction.body.certs.0");
    assert_eq!(result.errors[1].location, "transaction.body.certs.1");
    assert!(result.warnings.is_empty());
}

#[test]
fn committee_members_have_to_be_known() {
    let mut context = context();
    let result = validated(&[committee_hot_auth()], &context);
    assert!(matches!(
        &result.errors[0].error,
        Phase1Error::CommitteeIsUnknown { committee_key_hash: LocalCredential::KeyHash(hash) }
            if hex::encode(hash) == STAKE_KEY
    ));
    assert_eq!(result.errors.len(), 1);
    context.potential_committee_members.push(member(false));
    assert!(validated(&[committee_hot_auth()], &context).errors.is_empty());
    context.potential_committee_members.clear();
    context.current_committee_members.push(member(false));
    assert!(validated(&[committee_hot_auth()], &context).errors.is_empty());
}

#[test]
fn resigned_committee_members_are_refused() {
    let mut context = context();
    context.current_committee_members.push(member(false));
    context.potential_committee_members.push(member(true));
    assert!(validated(&[committee_hot_auth()], &context).errors.is_empty());
    context.current_committee_members[0].is_resigned = true;
    let result = validated(&[committee_hot_auth()], &context);
    assert!(matches!(
        &result.errors[0].error,
        Phase1Error::CommitteeHasPreviouslyResigned { committee_credential: LocalCredential::ScriptHash(hash) }
            if hex::encode(hash) == STAKE_SCRIPT
    ));
    assert_eq!(result.errors.len(), 1);
    context.current_committee_members.clear();
    let result = validated(&[committee_cold_resign()], &context);
    assert!(matches!(
        &result.errors[0].error,
        Phase1Error::CommitteeHasPreviouslyResigned { committee_credential: LocalCredential::KeyHash(hash) }
            if hex::encode(hash) == STAKE_KEY
    ));
    assert_eq!(result.errors.len(), 1);
    assert!(matches!(
        &result.warnings[0].warning,
        Phase1Warning::DuplicateCommitteeColdResignationInTx { cert_index: 0, .. }
    ));
}

#[test]
fn authorisation_beside_a_resignation_is_refused() {
    let mut context = context();
    context.current_committee_members.push(member(false));
    let result = validated(&[committee_cold_resign(), committee_hot_auth()], &context);
    assert_eq!(result.errors.len(), 1);
    assert_eq!(result.errors[0].location, "transaction.body.certs.1");
    assert!(matches!(
        &result.errors[0].error,
        Phase1Error::CommitteeHasPreviouslyResigned { .. }
    ));
    assert_eq!(result.warnings.len(), 2);
    assert!(matches!(
        &result.warnings[1].warning,
        Phase1Warning::DuplicateCommitteeHotRegistrationInTx { cert_index: 1, .. }
    ));
}

#[test]
fn certificates_are_processed_for_their_network() {
    let mut context = context();
    context.network_type = NetworkType::Preprod;
    let info = RegistrationValidator::process_certificate(
        &Certificate::StakeRegistration {
            credential: cold_key(),
        },
        4,
        &context,
    );
    assert_eq!(info.cert_index, 4);
    assert!(matches!(
        &info.cert_type,
        CertificateType::StakeRegistration { reward_address } if reward_address == STAKE_TEST_ADDRESS
    ));
}

#[test]
fn state_follows_the_certificates() {
    let mut context = context();
    context.account_contexts.push(account(None));
    context.pool_contexts.push(PoolInputContext {
        pool_id: POOL.to_string(),
        is_registered: false,
    });
    let mut state = RegistrationState::new();
    RegistrationValidator::load_initial_state(&mut state, &context);
    let account_entity = RegistrableEntity::Account(STAKE_ADDRESS.to_string());
    let pool_entity = RegistrableEntity::Pool(POOL.to_string());
    assert!(state.initial_registrations.contains(&account_entity));
    assert!(!state.initial_registrations.contains(&pool_entity));
    RegistrationValidator::update_state(
        &mut state,
        &CertificateType::StakeDeregistration {
            reward_address: STAKE_ADDRESS.to_string(),
        },
    );
    assert!(state.deregistrations_in_tx.contains(&account_entity));
    assert!(state.initial_registrations.contains(&account_entity));
    RegistrationValidator::update_state(
        &mut state,
        &CertificateType::StakeRegistration {
            reward_address: STAKE_ADDRESS.to_string(),
        },
    );
    assert!(!state.deregistrations_in_tx.contains(&account_entity));
    assert!(state.registrations_in_tx.contains(&account_entity));
    RegistrationValidator::update_state(
        &mut state,
        &CertificateType::PoolRetirement {
            pool_id: POOL.to_string(),
            retirement_epoch: 30,
        },
    );
    assert!(state.pool_retirements_in_tx.contains_key(&POOL.to_string()));
    RegistrationValidator::update_state(
        &mut state,
        &CertificateType::PoolRegistration {
            pool_id: POOL.to_string(),
            pool_cost: 1,
        },
    );
    assert!(!state.pool_retirements_in_tx.contains_key(&POOL.to_string()));
    assert!(state.registrations_in_tx.contains(&pool_entity));
}

#[test]
fn delegations_leave_the_state_alone() {
    let mut state = RegistrationState::new();
    let account_entity = RegistrableEntity::Account(STAKE_ADDRESS.to_string());
    let drep_entity = RegistrableEntity::DRep("drep1".to_string());
    for cert_type in [
        CertificateType::StakeDelegation {
            reward_address: STAKE_ADDRESS.to_string(),
            pool_id: POOL.to_string(),
        },
        CertificateType::VoteDelegation {
            reward_address: STAKE_ADDRESS.to_string(),
            drep: "drep1".to_string(),
        },
        CertificateType::DRepUpdate {
            drep_id: "drep1".to_string(),
        },
        CertificateType::GenesisKeyDelegation,
    ] {
        RegistrationValidator::update_state(&mut state, &cert_type);
    }
    assert!(!state.registrations_in_tx.contains(&account_entity));
    assert!(!state.registrations_in_tx.contains(&drep_entity));
    assert!(!state.deregistrations_in_tx.contains(&account_entity));
    assert!(!state.pool_retirements_in_tx.contains_key(&POOL.to_string()));
}

#[test]
fn one_certificate_is_added_to_the_reports() {
    let context = context();
    let validator = RegistrationValidator::of_certificates(&Vec::new(), &context);
    let mut errors = Vec::new();
    let mut warnings = Vec::new();
    let info = CertificateInfo {
        cert_index: 12,
        cert_type: CertificateType::DRepUpdate {
            drep_id: "drep1".to_string(),
        },
    };
    validator.validate_certificate(&info, 10, &mut errors, &mut warnings);
    validator.validate_certificate(&info, 10, &mut errors, &mut warnings);
    assert!(errors.is_empty());
    assert_eq!(warnings.len(), 2);
    assert_eq!(warnings[1].location, "transaction.body.certs.12");
}
