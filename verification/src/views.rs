//! That views show what is there: the contracts speak of what the caller gets.

use vstd::prelude::*;

use crate::cbor::cbor_decoder::{CborCollection, CollectionView};
use crate::cbor::token::{ExtendedToken, Token, TokenView};
use crate::common::{CostModels, UTxO};
use crate::js_error::{viewed, JsError};
use crate::validators::certificate::{Certificate, CertificateView, DRepView, LocalDRep};
use crate::validators::common::{CredentialView, LocalCredential};
use crate::validators::phase_1::errors::{
    error_views, warning_views, Phase1Error, Phase1ErrorView, Phase1Warning, Phase1WarningView,
    ValidationPhase1Error, ValidationPhase1Warning,
};
use crate::validators::phase_1::validation::registration::{EntityView, RegistrableEntity};
use crate::validators::phase_2::errors::{Phase2Error, Phase2ErrorView};
use crate::validators::phase_2::eval_redeemer::report_view;
use crate::validators::phase_2::evaluation::{text_views, Evaluation};
use crate::validators::phase_2::transaction::InputRef;
use crate::validators::validation_result::EvalRedeemerResult;
use crate::value::{jsons, Json, Value};

verus! {

/// An error is seen with all that it holds.
pub proof fn errors_are_seen(error: Phase1Error)
    ensures
        match (error, error@) {
            (
                Phase1Error::StakeAlreadyRegistered { reward_address: a },
                Phase1ErrorView::StakeAlreadyRegistered { reward_address: b },
            ) => a@ == b,
            (
                Phase1Error::StakeNotRegistered { reward_address: a },
                Phase1ErrorView::StakeNotRegistered { reward_address: b },
            ) => a@ == b,
            (
                Phase1Error::StakeNonZeroAccountBalance { reward_address: a, remaining_balance: n },
                Phase1ErrorView::StakeNonZeroAccountBalance {
                    reward_address: b,
                    remaining_balance: m,
                },
            ) => a@ == b && n == m,
            (
                Phase1Error::StakePoolNotRegistered { pool_id: a },
                Phase1ErrorView::StakePoolNotRegistered { pool_id: b },
            ) => a@ == b,
            (
                Phase1Error::StakePoolCostTooLow { specified_cost: n, min_cost: k },
                Phase1ErrorView::StakePoolCostTooLow { specified_cost: m, min_cost: l },
            ) => n == m && k == l,
            (
                Phase1Error::WrongRetirementEpoch {
                    specified_epoch: a,
                    current_epoch: b,
                    min_epoch: c,
                    max_epoch: d,
                },
                Phase1ErrorView::WrongRetirementEpoch {
                    specified_epoch,
                    current_epoch,
                    min_epoch,
                    max_epoch,
                },
            ) => a == specified_epoch && b == current_epoch && c == min_epoch && d == max_epoch,
            (
                Phase1Error::GenesisKeyDelegationCertificateIsNotSupported,
                Phase1ErrorView::GenesisKeyDelegationCertificateIsNotSupported,
            ) => true,
            (
                Phase1Error::MoveInstantaneousRewardsCertificateIsNotSupported,
                Phase1ErrorView::MoveInstantaneousRewardsCertificateIsNotSupported,
            ) => true,
            (
                Phase1Error::CommitteeHasPreviouslyResigned { committee_credential: a },
                Phase1ErrorView::CommitteeHasPreviouslyResigned { committee_credential: b },
            ) => a@ == b,
            (
                Phase1Error::CommitteeIsUnknown { committee_key_hash: a },
                Phase1ErrorView::CommitteeIsUnknown { committee_key_hash: b },
            ) => a@ == b,
            _ => false,
        },
{
}

/// A warning is seen with all that it holds.
pub proof fn warnings_are_seen(warning: Phase1Warning)
    ensures
        match (warning, warning@) {
            (
                Phase1Warning::DuplicateRegistrationInTx {
                    entity_type: a,
                    entity_id: b,
                    cert_index: n,
                },
                Phase1WarningView::DuplicateRegistrationInTx { entity_type, entity_id, cert_index },
            ) => a@ == entity_type && b@ == entity_id && n == cert_index,
            (
                Phase1Warning::PoolAlreadyRegistered { pool_id: a },
                Phase1WarningView::PoolAlreadyRegistered { pool_id: b },
            ) => a@ == b,
            (
                Phase1Warning::DRepAlreadyRegistered { drep_id: a },
                Phase1WarningView::DRepAlreadyRegistered { drep_id: b },
            ) => a@ == b,
            (
                Phase1Warning::DRepNotRegistered { cert_index: n },
                Phase1WarningView::DRepNotRegistered { cert_index: m },
            ) => n == m,
            (
                Phase1Warning::DuplicateCommitteeHotRegistrationInTx {
                    committee_credential: a,
                    cert_index: n,
                },
                Phase1WarningView::DuplicateCommitteeHotRegistrationInTx {
                    committee_credential: b,
                    cert_index: m,
                },
            ) => a@ == b && n == m,
            (
                Phase1Warning::DuplicateCommitteeColdResignationInTx {
                    committee_credential: a,
                    cert_index: n,
                },
                Phase1WarningView::DuplicateCommitteeColdResignationInTx {
                    committee_credential: b,
                    cert_index: m,
                },
            ) => a@ == b && n == m,
            _ => false,
        },
{
}

/// A report is seen error by error and warning by warning, each with its location.
pub proof fn reports_are_seen(
    errors: Seq<ValidationPhase1Error>,
    warnings: Seq<ValidationPhase1Warning>,
    i: int,
)
    ensures
        error_views(errors).len() == errors.len(),
        0 <= i < errors.len() ==> error_views(errors)[i].error == errors[i].error@ && error_views(
            errors,
        )[i].location == errors[i].location@,
        warning_views(warnings).len() == warnings.len(),
        0 <= i < warnings.len() ==> warning_views(warnings)[i].warning == warnings[i].warning@
            && warning_views(warnings)[i].location == warnings[i].location@,
{
}

/// Credentials and representatives are seen with their kind and their hash, and entities
/// with what names them.
pub proof fn parties_are_seen(
    credential: LocalCredential,
    drep: LocalDRep,
    entity: RegistrableEntity,
)
    ensures
        match (credential, credential@) {
            (LocalCredential::KeyHash(a), CredentialView::KeyHash(b)) => a@ == b,
            (LocalCredential::ScriptHash(a), CredentialView::ScriptHash(b)) => a@ == b,
            _ => false,
        },
        match (drep, drep@) {
            (LocalDRep::KeyHash(a), DRepView::KeyHash(b)) => a@ == b,
            (LocalDRep::ScriptHash(a), DRepView::ScriptHash(b)) => a@ == b,
            (LocalDRep::AlwaysAbstain, DRepView::AlwaysAbstain) => true,
            (LocalDRep::AlwaysNoConfidence, DRepView::AlwaysNoConfidence) => true,
            _ => false,
        },
        match (entity, entity@) {
            (RegistrableEntity::Account(a), EntityView::Account(b)) => a@ == b,
            (RegistrableEntity::Pool(a), EntityView::Pool(b)) => a@ == b,
            (RegistrableEntity::DRep(a), EntityView::DRep(b)) => a@ == b,
            (
                RegistrableEntity::ConstitutionCommitteeHotCredential(a),
                EntityView::ConstitutionCommitteeHotCredential(b),
            ) => a@ == b,
            _ => false,
        },
{
}

/// The certificates of the committee and of pools are seen with what they name.
pub proof fn certificates_are_seen(certificate: Certificate)
    ensures
        certificate matches Certificate::CommitteeHotAuth { cold, hot } ==> certificate@ == (
        CertificateView::CommitteeHotAuth { cold: cold@, hot: hot@ }),
        certificate matches Certificate::CommitteeColdResign { cold } ==> certificate@ == (
        CertificateView::CommitteeColdResign { cold: cold@ }),
        certificate matches Certificate::PoolRegistration { operator, cost } ==> certificate@ == (
        CertificateView::PoolRegistration { operator: operator@, cost }),
        certificate matches Certificate::PoolRetirement { pool, epoch } ==> certificate@ == (
        CertificateView::PoolRetirement { pool: pool@, epoch }),
{
}

/// A report on a redeemer is seen field by field.
pub proof fn redeemer_reports_are_seen(
    result: EvalRedeemerResult,
    error: Option<Phase2Error>,
    i: int,
)
    ensures
        ({
            let (seen, seen_error) = report_view((result, error));
            &&& seen.tag == result.tag
            &&& seen.index == result.index
            &&& seen.calculated_ex_units == result.calculated_ex_units
            &&& seen.provided_ex_units == result.provided_ex_units
            &&& seen.success == result.success
            &&& match (result.error, seen.error) {
                (Some(text), Some(seen_text)) => text@ == seen_text,
                (None, None) => true,
                _ => false,
            }
            &&& seen.logs.len() == result.logs@.len()
            &&& 0 <= i < seen.logs.len() ==> seen.logs[i] == result.logs@[i]@
            &&& match (error, seen_error) {
                (Some(reason), Some(seen_reason)) => reason@ == seen_reason,
                (None, None) => true,
                _ => false,
            }
        }),
{
}

/// The reason for which a script does not succeed is seen with its text.
pub proof fn reasons_are_seen(error: Phase2Error)
    ensures
        match (error, error@) {
            (
                Phase2Error::MachineError { error: a },
                Phase2ErrorView::MachineError { error: b },
            ) => a@ == b,
            (
                Phase2Error::MissingScriptForRedeemer { error: a },
                Phase2ErrorView::MissingScriptForRedeemer { error: b },
            ) => a@ == b,
            (
                Phase2Error::CostModelNotFound { language: a },
                Phase2ErrorView::CostModelNotFound { language: b },
            ) => a@ == b,
            (
                Phase2Error::BuildTxContextError { error: a },
                Phase2ErrorView::BuildTxContextError { error: b },
            ) => a@ == b,
            (
                Phase2Error::ScriptDecodeError { error: a },
                Phase2ErrorView::ScriptDecodeError { error: b },
            ) => a@ == b,
            _ => false,
        },
{
}

/// The outcome of a run is seen with its cost, its logs and its error.
pub proof fn evaluations_are_seen(evaluation: Evaluation, i: int)
    ensures
        evaluation@.cost == evaluation.cost,
        evaluation@.logs.len() == evaluation.logs@.len(),
        0 <= i < evaluation.logs@.len() ==> evaluation@.logs[i] == evaluation.logs@[i]@,
        match (evaluation.error, evaluation@.error) {
            (Some(text), Some(seen)) => text@ == seen,
            (None, None) => true,
            _ => false,
        },
{
}

/// A JSON value is seen as what it is; an array with every element and an object with
/// every entry, in order.
pub proof fn values_are_seen(value: Value, i: int)
    ensures
        match (value, value@) {
            (Value::Null, Json::Null) => true,
            (Value::Bool(a), Json::Bool(b)) => a == b,
            (Value::Number(a), Json::Number(b)) => a == b,
            (Value::String(a), Json::String(b)) => a@ == b,
            (Value::Array(elements), Json::Array(seen)) => {
                &&& seen.len() == elements@.len()
                &&& 0 <= i < seen.len() ==> seen[i] == elements@[i]@
            },
            (Value::Object(entries), Json::Object(seen)) => {
                &&& seen.len() == entries@.len()
                &&& 0 <= i < seen.len() ==> seen[i].0 == entries@[i].0@ && seen[i].1
                    == entries@[i].1@
            },
            _ => false,
        },
{
}

/// A result is seen with its value or its message.
pub proof fn results_are_seen(result: Result<Value, JsError>)
    ensures
        match (result, viewed(result)) {
            (Ok(value), Ok(seen)) => value@ == seen,
            (Err(error), Err(message)) => error.message@ == message,
            _ => false,
        },
{
}

/// A token is seen with its number, its bits, its bytes or its text.
pub proof fn tokens_are_seen(extended: ExtendedToken)
    ensures
        extended@.offset == extended.offset,
        extended@.length == extended.length,
        extended@.token == extended.token@,
        match (extended.token, extended.token@) {
            (Token::Bool(a), TokenView::Bool(b)) => a == b,
            (Token::U8(a), TokenView::U8(b)) => a == b,
            (Token::U16(a), TokenView::U16(b)) => a == b,
            (Token::U32(a), TokenView::U32(b)) => a == b,
            (Token::U64(a), TokenView::U64(b)) => a == b,
            (Token::I8(a), TokenView::I8(b)) => a == b,
            (Token::I16(a), TokenView::I16(b)) => a == b,
            (Token::I32(a), TokenView::I32(b)) => a == b,
            (Token::I64(a), TokenView::I64(b)) => a == b,
            (Token::Int(a), TokenView::Int(b)) => a == b,
            (Token::F16(a), TokenView::F16(b)) => a == b,
            (Token::F32(a), TokenView::F32(b)) => a == b,
            (Token::F64(a), TokenView::F64(b)) => a == b,
            (Token::Bytes(a), TokenView::Bytes(b)) => a@ == b,
            (Token::String(a), TokenView::String(b)) => a@ == b,
            (Token::Array(a), TokenView::Array(b)) => a == b,
            (Token::MapOf(a), TokenView::MapOf(b)) => a == b,
            (Token::Tag(a), TokenView::Tag(b)) => a == b,
            (Token::Simple(a), TokenView::Simple(b)) => a == b,
            (Token::Break, TokenView::Break) => true,
            (Token::Null, TokenView::Null) => true,
            (Token::Undefined, TokenView::Undefined) => true,
            (Token::BeginBytes, TokenView::BeginBytes) => true,
            (Token::BeginString, TokenView::BeginString) => true,
            (Token::BeginArray, TokenView::BeginArray) => true,
            (Token::BeginMap, TokenView::BeginMap) => true,
            _ => false,
        },
{
}

/// A collection is seen with what it holds, what it declares and where it is.
pub proof fn collections_are_seen(collection: CborCollection)
    ensures
        match (collection, collection@) {
            (
                CborCollection::Tag(value, tag, pos, full),
                CollectionView::Tag { value: seen, tag: same, pos: first, full: whole },
            ) => {
                &&& tag == same && pos == first && full == whole
                &&& value is Some <==> seen is Some
                &&& value is Some ==> value->0@ == seen->0
            },
            (
                CborCollection::Array(values, length, count, pos, full),
                CollectionView::Array {
                    values: seen,
                    length: declared,
                    count: n,
                    pos: first,
                    full: whole,
                },
            ) => {
                &&& values@ == seen && length == declared && count == n
                &&& pos == first && full == whole
            },
            (
                CborCollection::Mapping(values, key, length, count, pos, full),
                CollectionView::Mapping {
                    values: seen,
                    key: waiting,
                    length: declared,
                    count: n,
                    pos: first,
                    full: whole,
                },
            ) => {
                &&& values@ == seen && length == declared && count == n
                &&& pos == first && full == whole
                &&& key is Some <==> waiting is Some
                &&& key is Some ==> key->0@ == waiting->0
            },
            (
                CborCollection::IndefiniteString(chunks, pos, full),
                CollectionView::IndefiniteString { chunks: seen, pos: first, full: whole },
            ) => jsons(chunks@) == seen && pos == first && full == whole,
            (
                CborCollection::IndefiniteBytes(chunks, pos, full),
                CollectionView::IndefiniteBytes { chunks: seen, pos: first, full: whole },
            ) => jsons(chunks@) == seen && pos == first && full == whole,
            _ => false,
        },
{
}

/// Inputs, outputs, cost models and lists of texts are seen field by field and one by one.
pub proof fn requests_are_seen(
    input: InputRef,
    utxo: UTxO,
    models: CostModels,
    texts: Seq<String>,
    values: Seq<Value>,
    i: int,
)
    ensures
        input@.transaction_id == input.transaction_id@,
        input@.index == input.index,
        utxo@.tx_hash == utxo.input.tx_hash@,
        utxo@.output_index == utxo.input.output_index,
        utxo@.output == utxo.output@,
        models.plutus_v1 is Some <==> models@.plutus_v1 is Some,
        models.plutus_v2 is Some <==> models@.plutus_v2 is Some,
        models.plutus_v3 is Some <==> models@.plutus_v3 is Some,
        models.plutus_v1 is Some ==> models@.plutus_v1->0 == models.plutus_v1->0@,
        models.plutus_v2 is Some ==> models@.plutus_v2->0 == models.plutus_v2->0@,
        models.plutus_v3 is Some ==> models@.plutus_v3->0 == models.plutus_v3->0@,
        text_views(texts).len() == texts.len(),
        0 <= i < texts.len() ==> text_views(texts)[i] == texts[i]@,
        jsons(values).len() == values.len(),
        0 <= i < values.len() ==> jsons(values)[i] == values[i]@,
{
}

} // verus!
