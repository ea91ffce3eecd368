//! The inputs of a transaction, and what its scripts use.

use pallas_traverse::MultiEraTx;
use uplc::tx::ResolvedInput;
use vstd::prelude::*;
use vstd::string::StringExecFns;

use crate::common::{
    optional_models, utxo_views, CostModels, CostModelsView, ExUnits, UTxO, UTxOView,
};
use crate::js_error::{viewed, JsError};
use crate::plutus::data_mapper::{resolved_utxos, to_pallas_utxos};
use crate::text::{
    decimal, decimal_text, hex_bytes, hex_decode, hex_decode_message, hex_encode, hex_text, is_hex,
};
use crate::validators::phase_2::evaluable::{
    all_stake, are_withdrawals_sound, withdrawal_accounts, SlotConfig,
};
use crate::validators::phase_2::evaluation::{
    build_lookup_table, check_phase_one, default_budget, evaluate_units, phase_one, redeemer_units,
    text_result, text_views, transaction_table, ExBudget, PhaseOneFailure,
};
use crate::validators::phase_2::transaction::{
    collateral_inputs, decoded_conway, input_views, pallas_redeemer, redeemers_of,
    reference_inputs, spent_inputs, ConwayTx, InputRef, InputView, RedeemerTag, TxRedeemer,
};
use crate::value::{array_json, entry, jsons, object_json, Json, Value};

verus! {

/// The text by which an input is asked for: "txhash#index".
pub open spec fn input_text(input: InputView) -> Seq<char> {
    hex_text(input.transaction_id) + "#"@ + decimal(input.index as nat)
}

/// The texts by which inputs are asked for.
pub open spec fn input_texts(inputs: Seq<InputView>) -> Seq<Seq<char>> {
    Seq::new(inputs.len(), |i: int| input_text(inputs[i]))
}

/// Formats a transaction input into the expected "txhash#index" string format.
pub fn input_to_request_format(input: &InputRef) -> (text: String)
    ensures
        text@ == input_text(input@),
{
    let mut text = hex_encode(input.transaction_id.as_slice());
    text.append("#");
    text.append(decimal_text(input.index as u128).as_str());
    text
}

/// Adds the texts of inputs to those of others.
fn extend_with_inputs(texts: &mut Vec<String>, inputs: &Vec<InputRef>)
    ensures
        text_views(final(texts)@) == text_views(old(texts)@) + input_texts(input_views(inputs@)),
{
    let ghost before = text_views(texts@);
    let ghost expected = input_texts(input_views(inputs@));
    let mut i: usize = 0;
    assert(text_views(texts@) =~= before + expected.take(0));
    while i < inputs.len()
        invariant
            i <= inputs@.len(),
            expected == input_texts(input_views(inputs@)),
            text_views(texts@) == before + expected.take(i as int),
        decreases inputs@.len() - i,
    {
        let ghost shorter = texts@;
        texts.push(input_to_request_format(&inputs[i]));
        proof {
            assert(text_views(texts@) =~= text_views(shorter).push(expected[i as int]));
            assert(text_views(texts@) =~= before + expected.take(i + 1));
        }
        i = i + 1;
    }
    assert(expected.take(i as int) =~= expected);
}

/// The texts of all inputs of a transaction: those that it spends, refers to, and
/// offers as collateral.
pub open spec fn requested(tx: MultiEraTx<'_>) -> Seq<Seq<char>> {
    input_texts(spent_inputs(tx)) + input_texts(reference_inputs(tx)) + input_texts(
        collateral_inputs(tx),
    )
}

/// Collects all input identifiers (including reference inputs and collateral)
/// from the given transaction.
pub fn collect_inputs(tx: &ConwayTx<'_>) -> (inputs: Vec<String>)
    ensures
        text_views(inputs@) == requested(tx.decoded()),
{
    let mut inputs: Vec<String> = Vec::new();
    assert(text_views(inputs@) =~= Seq::empty());
    extend_with_inputs(&mut inputs, &tx.inputs());
    extend_with_inputs(&mut inputs, &tx.reference_inputs());
    extend_with_inputs(&mut inputs, &tx.collateral());
    assert(text_views(inputs@) =~= requested(tx.decoded()));
    inputs
}

/// The transaction that hexadecimal text encodes, or the message that refuses it.
pub open spec fn hex_tx(tx_hex: Seq<char>) -> Result<MultiEraTx<'static>, Seq<char>> {
    if is_hex(tx_hex) {
        decoded_conway(hex_bytes(tx_hex))
    } else {
        Err(hex_decode_message(tx_hex))
    }
}

/// The texts by which the inputs of a transaction are asked for.
pub fn get_utxo_list_from_tx(tx_hex: &str) -> (list: Result<Vec<String>, JsError>)
    ensures
        match (list, hex_tx(tx_hex@)) {
            (Ok(list), Ok(tx)) => text_views(list@) == requested(tx),
            (Err(error), Err(message)) => error@ == message,
            _ => false,
        },
{
    let tx_bytes = match hex_decode(tx_hex) {
        Ok(tx_bytes) => tx_bytes,
        Err(message) => return Err(JsError { message }),
    };
    match ConwayTx::decode(tx_bytes.as_slice()) {
        Ok(tx) => Ok(collect_inputs(&tx)),
        Err(message) => Err(JsError { message }),
    }
}

/// The text by which an unspent output is asked for.
pub open spec fn utxo_text(utxo: UTxOView) -> Seq<char> {
    utxo.tx_hash + "#"@ + decimal(utxo.output_index as nat)
}

/// Whether an unspent output is the one that a text asks for.
pub open spec fn is_given(request: Seq<char>, utxos: Seq<UTxOView>) -> bool {
    exists|i: int| 0 <= i < utxos.len() && utxo_text(#[trigger] utxos[i]) == request
}

/// The texts that ask for no given output, in their order.
pub open spec fn missed(requests: Seq<Seq<char>>, utxos: Seq<UTxOView>) -> Seq<Seq<char>>
    decreases requests.len(),
{
    if requests.len() == 0 {
        Seq::empty()
    } else {
        let rest = missed(requests.drop_last(), utxos);
        if is_given(requests.last(), utxos) {
            rest
        } else {
            rest.push(requests.last())
        }
    }
}

/// Texts, one behind the other, with a comma and a space between them.
pub open spec fn listed(texts: Seq<Seq<char>>) -> Seq<char>
    decreases texts.len(),
{
    if texts.len() == 0 {
        Seq::empty()
    } else if texts.len() == 1 {
        texts[0]
    } else {
        listed(texts.drop_last()) + ", "@ + texts.last()
    }
}

fn is_among(request: &String, utxos: &[UTxO]) -> (given: bool)
    ensures
        given == is_given(request@, utxo_views(utxos@)),
{
    let ghost views = utxo_views(utxos@);
    let mut i: usize = 0;
    while i < utxos.len()
        invariant
            i <= utxos@.len(),
            views == utxo_views(utxos@),
            forall|j: int| 0 <= j < i ==> utxo_text(#[trigger] views[j]) != request@,
        decreases utxos@.len() - i,
    {
        let mut key = utxos[i].input.tx_hash.clone();
        key.append("#");
        key.append(decimal_text(utxos[i].input.output_index as u128).as_str());
        assert(key@ == utxo_text(views[i as int]));
        if key == *request {
            return true;
        }
        i = i + 1;
    }
    false
}

/// The message on outputs that were not given.
pub open spec fn missed_message(missed_utxos: Seq<Seq<char>>) -> Seq<char> {
    "Can't get these UTXOs from API, check the network type: "@ + listed(missed_utxos)
}

/// Checks whether the UTXOs requested in the transaction are present in the API response.
pub fn check_missed_utxos(request_utxos: &[String], utxos: &[UTxO]) -> (checked: Result<
    (),
    JsError,
>)
    ensures
        ({
            let missed_utxos = missed(text_views(request_utxos@), utxo_views(utxos@));
            if missed_utxos.len() == 0 {
                checked is Ok
            } else {
                checked matches Err(error) && error@ == missed_message(missed_utxos)
            }
        }),
{
    let ghost requests = text_views(request_utxos@);
    let ghost views = utxo_views(utxos@);
    let mut list = "".to_owned();
    let mut is_first = true;
    let mut i: usize = 0;
    proof {
        reveal_strlit("");
        assert(requests.take(0) =~= Seq::empty());
        assert(list@ =~= Seq::empty());
    }
    while i < request_utxos.len()
        invariant
            i <= request_utxos@.len(),
            requests == text_views(request_utxos@),
            views == utxo_views(utxos@),
            list@ == listed(missed(requests.take(i as int), views)),
            is_first == (missed(requests.take(i as int), views).len() == 0),
        decreases request_utxos@.len() - i,
    {
        let ghost before = missed(requests.take(i as int), views);
        let ghost after = missed(requests.take(i + 1), views);
        proof {
            assert(requests.take(i + 1).drop_last() =~= requests.take(i as int));
            assert(requests.take(i + 1).last() == request_utxos@[i as int]@);
        }
        if !is_among(&request_utxos[i], utxos) {
            if is_first {
                list = request_utxos[i].clone();
                is_first = false;
                assert(after =~= seq![request_utxos@[i as int]@]);
            } else {
                list.append(", ");
                list.append(request_utxos[i].as_str());
                assert(after.drop_last() =~= before);
            }
        }
        i = i + 1;
    }
    assert(requests.take(i as int) =~= requests);
    if !is_first {
        let mut message = "Can't get these UTXOs from API, check the network type: ".to_owned();
        message.append(list.as_str());
        return Err(JsError { message });
    }
    Ok(())
}

/// How a redeemer fared: as it was and with the units that its script uses, or as
/// it was and with the text of the error.
pub type RedeemerOutcome = Result<(TxRedeemer, TxRedeemer), (TxRedeemer, String)>;

/// How a redeemer fared, with the text taken by its view.
pub type OutcomeView = Result<(TxRedeemer, TxRedeemer), (TxRedeemer, Seq<char>)>;

/// How a redeemer fared, taken by its view.
pub open spec fn outcome_view(outcome: RedeemerOutcome) -> OutcomeView {
    match outcome {
        Ok(redeemers) => Ok(redeemers),
        Err((redeemer, error)) => Err((redeemer, error@)),
    }
}

/// How redeemers fared, taken by their views.
pub open spec fn outcome_views(outcomes: Seq<RedeemerOutcome>) -> Seq<OutcomeView> {
    Seq::new(outcomes.len(), |i: int| outcome_view(outcomes[i]))
}

/// What the evaluator says of a redeemer within the budget of a transaction, by the
/// scripts and datums that come with the transaction.
pub open spec fn evaluated(
    tx: MultiEraTx<'_>,
    utxos: Seq<ResolvedInput>,
    slots: SlotConfig,
    models: Option<CostModelsView>,
    redeemer: TxRedeemer,
) -> Option<Result<ExUnits, Seq<char>>> {
    redeemer_units(
        tx,
        utxos,
        slots,
        redeemer,
        transaction_table(tx, utxos),
        models,
        transaction_budget(),
    )
}

/// How a redeemer fares by what the evaluator says of it.
pub open spec fn redeemer_outcome(
    redeemer: TxRedeemer,
    units: Result<ExUnits, Seq<char>>,
) -> OutcomeView {
    match units {
        Ok(ex_units) => Ok((redeemer, TxRedeemer { ex_units, ..redeemer })),
        Err(error) => Err((redeemer, error)),
    }
}

/// How the redeemers of a transaction fare, in their order.
pub open spec fn all_outcomes(
    tx: MultiEraTx<'_>,
    utxos: Seq<ResolvedInput>,
    slots: SlotConfig,
    models: Option<CostModelsView>,
) -> Seq<OutcomeView> {
    Seq::new(
        redeemers_of(tx).len(),
        |i: int|
            redeemer_outcome(
                redeemers_of(tx)[i],
                evaluated(tx, utxos, slots, models, redeemers_of(tx)[i])->0,
            ),
    )
}

/// The budget that every script gets.
pub open spec fn transaction_budget() -> ExBudget {
    ExBudget { mem: 16500000, cpu: 10000000000 }
}

/// Whether the evaluator returns for every redeemer.
pub open spec fn all_return(
    tx: MultiEraTx<'_>,
    utxos: Seq<ResolvedInput>,
    slots: SlotConfig,
    models: Option<CostModelsView>,
) -> bool {
    forall|i: int|
        0 <= i < redeemers_of(tx).len() ==> evaluated(
            tx,
            utxos,
            slots,
            models,
            #[trigger] redeemers_of(tx)[i],
        ) is Some
}

/// How a redeemer fares by what the evaluator says of it.
pub fn outcome_of(redeemer: &TxRedeemer, units: Result<ExUnits, String>) -> (outcome:
    RedeemerOutcome)
    ensures
        outcome_view(outcome) == redeemer_outcome(*redeemer, text_result(units)),
{
    let original = redeemer.with_units(redeemer.ex_units);
    match units {
        Ok(ex_units) => Ok((original, redeemer.with_units(ex_units))),
        Err(error) => Err((original, error)),
    }
}

/// What is answered to the outcome of phase one: its message where it failed.
pub fn phase_one_result(outcome: Result<(), String>) -> (checked: Result<(), JsError>)
    ensures
        checked is Ok <==> outcome is Ok,
        checked matches Err(error) ==> outcome matches Err(message) && error@ == message@,
{
    match outcome {
        Ok(_) => Ok(()),
        Err(message) => Err(JsError { message }),
    }
}

/// The outcome of phase one by the scripts that come with the transaction.
pub open spec fn own_phase_one(tx: MultiEraTx<'_>, utxos: Seq<ResolvedInput>) -> Option<
    Result<(), PhaseOneFailure>,
> {
    phase_one(tx, utxos, transaction_table(tx, utxos))
}

/// Whether phase one is run and fails.
pub open spec fn fails_phase_one(
    tx: MultiEraTx<'_>,
    utxos: Seq<ResolvedInput>,
    run_phase_one: bool,
) -> bool {
    run_phase_one && own_phase_one(tx, utxos) matches Some(Err(_))
}

/// Whether all redeemers have fared so: phase one is run and fails, and the message is
/// that of its failure; or each redeemer has its outcome.
pub open spec fn all_evaluated(
    outcomes: Result<Vec<RedeemerOutcome>, JsError>,
    tx: MultiEraTx<'_>,
    utxos: Seq<ResolvedInput>,
    slots: SlotConfig,
    models: Option<CostModelsView>,
    run_phase_one: bool,
) -> bool {
    match outcomes {
        Ok(found) => {
            &&& !fails_phase_one(tx, utxos, run_phase_one)
            &&& outcome_views(found@) == all_outcomes(tx, utxos, slots, models)
        },
        Err(error) => {
            &&& run_phase_one
            &&& own_phase_one(tx, utxos) matches Some(Err(failure))
            &&& failure.has_text(error@)
        },
    }
}

/// Evaluates all redeemers in the transaction. Where phase one is run and finds several
/// unexpected scripts, its message lists them in no fixed order.
pub fn eval_all_redeemers(
    tx: &ConwayTx<'_>,
    utxos: &Vec<ResolvedInput>,
    cost_mdls: Option<&CostModels>,
    slot_config: &SlotConfig,
    run_phase_one: bool,
) -> (outcomes: Result<Vec<RedeemerOutcome>, JsError>)
    requires
        run_phase_one ==> all_stake(withdrawal_accounts(tx.decoded())) || own_phase_one(
            tx.decoded(),
            utxos@,
        ) is Some,
        fails_phase_one(tx.decoded(), utxos@, run_phase_one) || all_return(
            tx.decoded(),
            utxos@,
            *slot_config,
            optional_models(cost_mdls),
        ),
    ensures
        all_evaluated(
            outcomes,
            tx.decoded(),
            utxos@,
            *slot_config,
            optional_models(cost_mdls),
            run_phase_one,
        ),
{
    let lookup_table = build_lookup_table(tx.era_tx(), utxos);
    if run_phase_one {
        match phase_one_result(check_phase_one(tx.era_tx(), utxos, &lookup_table)) {
            Ok(_) => {},
            Err(error) => return Err(error),
        }
    }
    let redeemers = tx.redeemers();
    let remaining_budget = default_budget();
    let ghost expected = all_outcomes(
        tx.decoded(),
        utxos@,
        *slot_config,
        optional_models(cost_mdls),
    );
    let mut results: Vec<RedeemerOutcome> = Vec::new();
    let mut i: usize = 0;
    assert(outcome_views(results@) =~= expected.take(0));
    while i < redeemers.len()
        invariant
            i <= redeemers@.len(),
            redeemers@ == redeemers_of(tx.decoded()),
            remaining_budget == transaction_budget(),
            lookup_table == transaction_table(tx.decoded(), utxos@),
            all_return(tx.decoded(), utxos@, *slot_config, optional_models(cost_mdls)),
            expected == all_outcomes(
                tx.decoded(),
                utxos@,
                *slot_config,
                optional_models(cost_mdls),
            ),
            outcome_views(results@) == expected.take(i as int),
        decreases redeemers@.len() - i,
    {
        let redeemer = &redeemers[i];
        assert(*redeemer == redeemers_of(tx.decoded())[i as int]);
        let units = evaluate_units(
            tx.era_tx(),
            utxos,
            slot_config,
            &pallas_redeemer(redeemer),
            &lookup_table,
            cost_mdls,
            &remaining_budget,
        );
        let outcome = outcome_of(redeemer, units);
        let ghost before = results@;
        let ghost view = outcome_view(outcome);
        results.push(outcome);
        proof {
            assert(view == expected[i as int]);
            assert(outcome_views(results@) =~= outcome_views(before).push(view));
            assert(outcome_views(results@) =~= expected.take(i + 1));
        }
        i = i + 1;
    }
    assert(expected.take(i as int) =~= expected);
    Ok(results)
}

/// The JSON of units.
pub open spec fn units_json(units: ExUnits) -> Json {
    Json::Object(
        seq![
            ("steps"@, Json::String(decimal(units.steps as nat))),
            ("mem"@, Json::String(decimal(units.mem as nat))),
        ],
    )
}

/// Converts execution units to a JSON value.
pub fn exec_units_to_json(exec_unit: ExUnits) -> (value: Value)
    ensures
        value@ == units_json(exec_unit),
{
    let entries = vec![
        entry("steps", Value::String(decimal_text(exec_unit.steps as u128))),
        entry("mem", Value::String(decimal_text(exec_unit.mem as u128))),
    ];
    proof {
        object_json(entries);
        assert(Value::Object(entries)@->Object_0 =~= units_json(exec_unit)->Object_0);
    }
    Value::Object(entries)
}

/// The name of a tag.
pub open spec fn tag_text(tag: RedeemerTag) -> Seq<char> {
    match tag {
        RedeemerTag::Spend => "Spend"@,
        RedeemerTag::Mint => "Mint"@,
        RedeemerTag::Cert => "Cert"@,
        RedeemerTag::Reward => "Reward"@,
        RedeemerTag::Propose => "Propose"@,
        RedeemerTag::Vote => "Vote"@,
    }
}

/// Converts a redeemer tag to its string representation.
pub fn redeemer_tag_to_string(tag: &RedeemerTag) -> (text: String)
    ensures
        text@ == tag_text(*tag),
{
    match tag {
        RedeemerTag::Spend => "Spend".to_owned(),
        RedeemerTag::Mint => "Mint".to_owned(),
        RedeemerTag::Cert => "Cert".to_owned(),
        RedeemerTag::Reward => "Reward".to_owned(),
        RedeemerTag::Propose => "Propose".to_owned(),
        RedeemerTag::Vote => "Vote".to_owned(),
    }
}

/// The JSON of how a redeemer fared.
pub open spec fn outcome_json(outcome: OutcomeView) -> Json {
    match outcome {
        Ok((original, calculated)) => Json::Object(
            seq![
                ("original_ex_units"@, units_json(original.ex_units)),
                ("calculated_ex_units"@, units_json(calculated.ex_units)),
                ("redeemer_index"@, Json::String(decimal(original.index as nat))),
                ("redeemer_tag"@, Json::String(tag_text(original.tag))),
            ],
        ),
        Err((original, error)) => Json::Object(
            seq![
                ("original_ex_units"@, units_json(original.ex_units)),
                ("error"@, Json::String(error)),
                ("redeemer_index"@, Json::String(decimal(original.index as nat))),
                ("redeemer_tag"@, Json::String(tag_text(original.tag))),
            ],
        ),
    }
}

fn outcome_value(outcome: &RedeemerOutcome) -> (value: Value)
    ensures
        value@ == outcome_json(outcome_view(*outcome)),
{
    let entries = match outcome {
        Ok((original, calculated)) => vec![
            entry("original_ex_units", exec_units_to_json(original.ex_units)),
            entry("calculated_ex_units", exec_units_to_json(calculated.ex_units)),
            entry("redeemer_index", Value::String(decimal_text(original.index as u128))),
            entry("redeemer_tag", Value::String(redeemer_tag_to_string(&original.tag))),
        ],
        Err((original, err)) => vec![
            entry("original_ex_units", exec_units_to_json(original.ex_units)),
            entry("error", Value::String(err.clone())),
            entry("redeemer_index", Value::String(decimal_text(original.index as u128))),
            entry("redeemer_tag", Value::String(redeemer_tag_to_string(&original.tag))),
        ],
    };
    proof {
        object_json(entries);
        assert(Value::Object(entries)@->Object_0 =~= outcome_json(
            outcome_view(*outcome),
        )->Object_0);
    }
    Value::Object(entries)
}

/// The JSON of how redeemers fared, in their order.
pub open spec fn response_json(outcomes: Seq<OutcomeView>) -> Json {
    Json::Array(Seq::new(outcomes.len(), |i: int| outcome_json(outcomes[i])))
}

/// Builds a JSON response object from the evaluation results.
pub fn build_response_object(exec_result: &Vec<RedeemerOutcome>) -> (response: Value)
    ensures
        response@ == response_json(outcome_views(exec_result@)),
{
    let ghost expected = response_json(outcome_views(exec_result@))->Array_0;
    let mut response: Vec<Value> = Vec::new();
    let mut i: usize = 0;
    assert(jsons(response@) =~= expected.take(0));
    while i < exec_result.len()
        invariant
            i <= exec_result@.len(),
            expected == response_json(outcome_views(exec_result@))->Array_0,
            jsons(response@) == expected.take(i as int),
        decreases exec_result@.len() - i,
    {
        let ghost before = response@;
        response.push(outcome_value(&exec_result[i]));
        proof {
            assert(jsons(response@) =~= jsons(before).push(expected[i as int]));
            assert(jsons(response@) =~= expected.take(i + 1));
        }
        i = i + 1;
    }
    proof {
        assert(expected.take(i as int) =~= expected);
        array_json(response);
    }
    Value::Array(response)
}

/// How slots are turned into time where nothing else is said: as on the main
/// network.
pub open spec fn default_slots() -> SlotConfig {
    SlotConfig { slot_length: 1000, zero_slot: 4492800, zero_time: 1596059091000 }
}

/// Unspent outputs that may have been unreadable, taken by their views.
pub open spec fn given_utxos(utxos: Result<Vec<UTxO>, String>) -> Result<
    Seq<UTxOView>,
    Seq<char>,
> {
    match utxos {
        Ok(utxos) => Ok(utxo_views(utxos@)),
        Err(message) => Err(message@),
    }
}

/// Cost models that may have been unreadable, taken by their view.
pub open spec fn given_models(models: Result<CostModels, String>) -> Result<
    CostModelsView,
    Seq<char>,
> {
    match models {
        Ok(models) => Ok(models@),
        Err(message) => Err(message@),
    }
}

/// What is to be evaluated: the transaction, the outputs that it spends and the
/// cost models; or the message that refuses it. The transaction has to decode,
/// the outputs have to be readable, have to decode and have to be all those that
/// the transaction asks for, and the cost models have to be readable, in this
/// order.
pub open spec fn execution(
    tx_hex: Seq<char>,
    utxos: Result<Seq<UTxOView>, Seq<char>>,
    models: Result<CostModelsView, Seq<char>>,
) -> Result<(MultiEraTx<'static>, Seq<ResolvedInput>, CostModelsView), Seq<char>> {
    match hex_tx(tx_hex) {
        Err(message) => Err(message),
        Ok(tx) => match utxos {
            Err(message) => Err(message),
            Ok(utxos) => match resolved_utxos(utxos) {
                Err(message) => Err(message),
                Ok(resolved) => if missed(requested(tx), utxos).len() > 0 {
                    Err(missed_message(missed(requested(tx), utxos)))
                } else {
                    match models {
                        Err(message) => Err(message),
                        Ok(models) => Ok((tx, resolved, models)),
                    }
                },
            },
        },
    }
}

/// Whether the evaluator returns for what is to be evaluated, where nothing is refused.
pub open spec fn is_executable(
    tx_hex: Seq<char>,
    utxos: Result<Seq<UTxOView>, Seq<char>>,
    models: Result<CostModelsView, Seq<char>>,
) -> bool {
    execution(tx_hex, utxos, models) matches Ok((tx, resolved, models)) ==> all_return(
        tx,
        resolved,
        default_slots(),
        Some(models),
    )
}

/// What is answered: how the redeemers fare, or the message that refuses the
/// request.
pub open spec fn answer(
    tx_hex: Seq<char>,
    utxos: Result<Seq<UTxOView>, Seq<char>>,
    models: Result<CostModelsView, Seq<char>>,
) -> Result<Json, Seq<char>> {
    match execution(tx_hex, utxos, models) {
        Err(message) => Err(message),
        Ok((tx, resolved, models)) => Ok(
            response_json(all_outcomes(tx, resolved, default_slots(), Some(models))),
        ),
    }
}

/// Runs all scripts of a transaction and answers what they use. The outputs that
/// the transaction spends and the cost models come as they could be read, or with
/// the message of the fault in them.
pub fn execute_tx_scripts(
    tx_hex: &str,
    decoded_utxos: Result<Vec<UTxO>, String>,
    cost_models: Result<CostModels, String>,
) -> (response: Result<Value, JsError>)
    requires
        is_executable(tx_hex@, given_utxos(decoded_utxos), given_models(cost_models)),
    ensures
        viewed(response) == answer(tx_hex@, given_utxos(decoded_utxos), given_models(cost_models)),
{
    let tx_bytes = match hex_decode(tx_hex) {
        Ok(tx_bytes) => tx_bytes,
        Err(message) => return Err(JsError { message }),
    };
    let tx = match ConwayTx::decode(tx_bytes.as_slice()) {
        Ok(tx) => tx,
        Err(message) => return Err(JsError { message }),
    };

    // Gather all input identifiers from the transaction.
    let request_utxos = collect_inputs(&tx);

    // Convert UTxO data to the internal representation.
    let decoded_utxos = match decoded_utxos {
        Ok(decoded_utxos) => decoded_utxos,
        Err(message) => return Err(JsError { message }),
    };
    let utxos = match to_pallas_utxos(&decoded_utxos) {
        Ok(utxos) => utxos,
        Err(error) => return Err(error),
    };
    match check_missed_utxos(request_utxos.as_slice(), decoded_utxos.as_slice()) {
        Ok(_) => {},
        Err(error) => return Err(error),
    }

    let slot_config = SlotConfig {
        slot_length: 1000,
        zero_slot: 4492800,
        zero_time: 1596059091000,
    };
    let cost_models = match cost_models {
        Ok(cost_models) => cost_models,
        Err(message) => return Err(JsError { message }),
    };
    match eval_all_redeemers(&tx, &utxos, Some(&cost_models), &slot_config, false) {
        Ok(exec_result) => Ok(build_response_object(&exec_result)),
        Err(error) => Err(error),
    }
}

/// Evaluates all redeemers in the transaction where it is certain beforehand that the
/// evaluator returns: every withdrawal is from a stake address if phase one is run, and
/// phase one fails or there is no redeemer. Whether the evaluator returns from the run of
/// a script, only asking it can tell.
pub fn try_eval_all_redeemers(
    tx: &ConwayTx<'_>,
    utxos: &Vec<ResolvedInput>,
    cost_mdls: Option<&CostModels>,
    slot_config: &SlotConfig,
    run_phase_one: bool,
) -> (outcomes: Option<Result<Vec<RedeemerOutcome>, JsError>>)
    ensures
        outcomes is Some <==> {
            &&& run_phase_one ==> all_stake(withdrawal_accounts(tx.decoded()))
            &&& fails_phase_one(tx.decoded(), utxos@, run_phase_one) || redeemers_of(
                tx.decoded(),
            ).len() == 0
        },
        outcomes matches Some(found) ==> all_evaluated(
            found,
            tx.decoded(),
            utxos@,
            *slot_config,
            optional_models(cost_mdls),
            run_phase_one,
        ),
{
    if run_phase_one && !are_withdrawals_sound(tx) {
        return None;
    }
    let fails = run_phase_one && check_phase_one(
        tx.era_tx(),
        utxos,
        &build_lookup_table(tx.era_tx(), utxos),
    ).is_err();
    if fails || tx.redeemers().len() == 0 {
        Some(eval_all_redeemers(tx, utxos, cost_mdls, slot_config, run_phase_one))
    } else {
        None
    }
}

/// Whether a request is refused, or is on a transaction without redeemers.
pub open spec fn needs_no_evaluator(
    tx_hex: Seq<char>,
    utxos: Result<Seq<UTxOView>, Seq<char>>,
    models: Result<CostModelsView, Seq<char>>,
) -> bool {
    execution(tx_hex, utxos, models) matches Ok((tx, _, _)) ==> redeemers_of(tx).len() == 0
}

fn can_do_without_evaluator(
    tx_hex: &str,
    decoded_utxos: &Result<Vec<UTxO>, String>,
    cost_models: &Result<CostModels, String>,
) -> (can: bool)
    ensures
        can == needs_no_evaluator(tx_hex@, given_utxos(*decoded_utxos), given_models(*cost_models)),
{
    let tx_bytes = match hex_decode(tx_hex) {
        Ok(tx_bytes) => tx_bytes,
        Err(_) => return true,
    };
    let tx = match ConwayTx::decode(tx_bytes.as_slice()) {
        Ok(tx) => tx,
        Err(_) => return true,
    };
    let decoded_utxos = match (decoded_utxos, cost_models) {
        (Ok(decoded_utxos), Ok(_)) => decoded_utxos,
        _ => return true,
    };
    if to_pallas_utxos(decoded_utxos).is_err() || check_missed_utxos(
        collect_inputs(&tx).as_slice(),
        decoded_utxos.as_slice(),
    ).is_err() {
        return true;
    }
    tx.redeemers().len() == 0
}

/// Answers a request where it is certain beforehand that the evaluator is not needed: the
/// request is refused, or the transaction has no redeemer.
pub fn try_execute_tx_scripts(
    tx_hex: &str,
    decoded_utxos: Result<Vec<UTxO>, String>,
    cost_models: Result<CostModels, String>,
) -> (response: Option<Result<Value, JsError>>)
    ensures
        response is Some <==> needs_no_evaluator(
            tx_hex@,
            given_utxos(decoded_utxos),
            given_models(cost_models),
        ),
        response matches Some(found) ==> viewed(found) == answer(
            tx_hex@,
            given_utxos(decoded_utxos),
            given_models(cost_models),
        ),
{
    if can_do_without_evaluator(tx_hex, &decoded_utxos, &cost_models) {
        Some(execute_tx_scripts(tx_hex, decoded_utxos, cost_models))
    } else {
        None
    }
}

} // verus!
