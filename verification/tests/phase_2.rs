use cquisitor::common::{CostModels, ExUnits, TxInput, UTxO};
use cquisitor::plutus::data_mapper::to_pallas_utxos;
use cquisitor::plutus::execute_tx_scripts::{
    build_response_object, check_missed_utxos, collect_inputs, eval_all_redeemers,
    exec_units_to_json, execute_tx_scripts, get_utxo_list_from_tx, input_to_request_format,
    outcome_of, phase_one_result, redeemer_tag_to_string, try_eval_all_redeemers,
    try_execute_tx_scripts,
};
use cquisitor::validators::common::NetworkType;
use cquisitor::validators::phase_2::errors::Phase2Error;
use cquisitor::validators::phase_2::eval_redeemer::{
    eval_redeemer, eval_redeemer_result, evaluation_result, language_to_string,
    map_tag_to_redeemer_tag, slot_config_network, try_eval_redeemer,
};
use cquisitor::validators::phase_2::evaluable::{
    are_withdrawals_sound, is_info_sound, Language, SlotConfig,
};
use cquisitor::validators::phase_2::evaluation::{Evaluation, ExBudget};
use cquisitor::validators::phase_2::transaction::{ConwayTx, InputRef, RedeemerTag};
use cquisitor::validators::validation_result::{EvalRedeemerResult, RedeemerTag as ReportedTag};
use cquisitor::value::{Number, Value};
use pallas_traverse::{ComputeHash, Era, MultiEraTx};
use uplc::tx::script_context::PlutusScript;
use uplc::tx::DataLookupTable;

const INPUT_HASH: &str = "1111111111111111111111111111111111111111111111111111111111111111";
const OTHER_HASH: &str = "2222222222222222222222222222222222222222222222222222222222222222";
const KEY_HASH: &str = "337b62cfff6403a06a3acbc34f8c46003c69fe79a3628cefa9c47251";
const BUDGET: ExBudget = ExBudget {
    mem: 16500000,
    cpu: 10000000000,
};

fn to_json(value: &Value) -> serde_json::Value {
    match value {
        Value::Null => serde_json::Value::Null,
        Value::Bool(b) => serde_json::Value::Bool(*b),
        Value::Number(Number::PosInt(n)) => serde_json::Value::from(*n),
        Value::Number(Number::NegInt(n)) => serde_json::Value::from(*n),
        Value::Number(Number::Single(bits)) => {
            serde_json::Value::from(f64::from(f32::from_bits(*bits)))
        }
        Value::Number(Number::Double(bits)) => serde_json::Value::from(f64::from_bits(*bits)),
        Value::String(s) => serde_json::Value::String(s.clone()),
        Value::Array(values) => serde_json::Value::Array(values.iter().map(to_json).collect()),
        Value::Object(entries) => serde_json::Value::Object(
            entries
                .iter()
                .map(|(key, value)| (key.clone(), to_json(value)))
                .collect(),
        ),
    }
}

fn json(text: &str) -> serde_json::Value {
    serde_json::from_str(text).unwrap()
}

fn byte_string(bytes: &[u8]) -> String {
    assert!(bytes.len() < 256);
    format!("58{:02x}{}", bytes.len(), hex::encode(bytes))
}

fn program(source: &str) -> Vec<u8> {
    uplc::parser::program(source)
        .unwrap()
        .to_debruijn()
        .unwrap()
        .to_cbor()
        .unwrap()
}

fn script_hash(language: u8, script: &[u8]) -> String {
    let script = script.to_vec();
    match language {
        1 => pallas_primitives::PlutusScript::<1>(script.into())
            .compute_hash()
            .to_string(),
        2 => pallas_primitives::PlutusScript::<2>(script.into())
            .compute_hash()
            .to_string(),
        _ => pallas_primitives::PlutusScript::<3>(script.into())
            .compute_hash()
            .to_string(),
    }
}

/// The CBOR of a transaction that spends one input and mints one token of the
/// script's policy. The redeemer is `I 5`, with 7 units of memory and 9 steps.
fn mint_tx(language: u8, script: &[u8], outputs: &str, more_fields: &[&str]) -> String {
    let witness_key = match language {
        1 => "03",
        2 => "06",
        _ => "07",
    };
    let fields = [
        format!("0081825820{INPUT_HASH}00"),
        format!("01{outputs}"),
        "0200".to_string(),
        format!("09a1581c{}a1416101", script_hash(language, script)),
    ];
    format!(
        "84{:02x}{}{}a2058184010005820709{}81{}f5f6",
        0xa0 + fields.len() + more_fields.len(),
        fields.concat(),
        more_fields.concat(),
        witness_key,
        byte_string(script)
    )
}

fn plain_output() -> String {
    format!("a200581d60{KEY_HASH}0105")
}

fn utxo(tx_hash: &str, output_index: u32, output: &str) -> UTxO {
    UTxO {
        input: TxInput {
            tx_hash: tx_hash.to_string(),
            output_index,
        },
        output: hex::decode(output).unwrap(),
    }
}

fn plain_utxos() -> Vec<UTxO> {
    vec![utxo(INPUT_HASH, 0, &plain_output())]
}

fn cheap() -> CostModels {
    CostModels {
        plutus_v1: Some(vec![1; 400]),
        plutus_v2: Some(vec![1; 400]),
        plutus_v3: Some(vec![1; 400]),
    }
}

fn no_models() -> CostModels {
    CostModels {
        plutus_v1: None,
        plutus_v2: None,
        plutus_v3: None,
    }
}

fn table(bytes: &[u8], utxos: &[uplc::tx::ResolvedInput]) -> DataLookupTable {
    let tx = MultiEraTx::decode_for_era(Era::Conway, bytes).unwrap();
    DataLookupTable::from_transaction(tx.as_conway().unwrap(), utxos)
}

/// The report on the first redeemer of a transaction.
fn run(
    tx: &ConwayTx<'_>,
    bytes: &[u8],
    utxos: &Vec<uplc::tx::ResolvedInput>,
    models: Option<&CostModels>,
    budget: &ExBudget,
) -> (EvalRedeemerResult, Option<Phase2Error>) {
    let redeemer = &tx.redeemers()[0];
    let table = table(bytes, utxos);
    eval_redeemer(tx, utxos, &mainnet(), redeemer, &table, models, budget)
}

fn mainnet() -> SlotConfig {
    slot_config_network(&NetworkType::Mainnet)
}

const UNIT_V3: &str = "(program 1.1.0 (lam c (con unit ())))";
const ERROR_V3: &str = "(program 1.1.0 (lam c (error)))";
const LOGGING_V3: &str =
    "(program 1.1.0 (lam c [ [ (force (builtin trace)) (con string \"hello\") ] (con unit ()) ]))";
const UNIT_V2: &str = "(program 1.0.0 (lam r (lam c (con unit ()))))";
const REDEEMER_IS_5: &str = "(program 1.0.0 (lam r (lam c (force [ [ [ (force (builtin ifThenElse)) \
    [ [ (builtin equalsData) r ] (con data (I 5)) ] ] (delay (con unit ())) ] (delay (error)) ]))))";
const DATUM_IS_1: &str = "(program 1.0.0 (lam d (lam r (lam c (force [ [ [ (force (builtin ifThenElse)) \
    [ [ (builtin equalsData) d ] (con data (I 1)) ] ] (delay (con unit ())) ] (delay (error)) ])))))";

#[test]
fn slots_are_those_of_the_networks() {
    assert_eq!(
        slot_config_network(&NetworkType::Mainnet),
        SlotConfig {
            slot_length: 1000,
            zero_slot: 4492800,
            zero_time: 1596059091000
        }
    );
    assert_eq!(
        slot_config_network(&NetworkType::Preview),
        SlotConfig {
            slot_length: 1000,
            zero_slot: 0,
            zero_time: 1666656000000
        }
    );
    assert_eq!(
        slot_config_network(&NetworkType::Preprod),
        SlotConfig {
            slot_length: 1000,
            zero_slot: 86400,
            zero_time: 1655769600000
        }
    );
}

#[test]
fn names_and_tags_are_mapped() {
    assert_eq!(language_to_string(&Language::PlutusV1), "PlutusV1");
    assert_eq!(language_to_string(&Language::PlutusV2), "PlutusV2");
    assert_eq!(language_to_string(&Language::PlutusV3), "PlutusV3");
    let tags = [
        (RedeemerTag::Spend, ReportedTag::Spend, "Spend"),
        (RedeemerTag::Mint, ReportedTag::Mint, "Mint"),
        (RedeemerTag::Cert, ReportedTag::Cert, "Cert"),
        (RedeemerTag::Reward, ReportedTag::Reward, "Reward"),
        (RedeemerTag::Vote, ReportedTag::Vote, "Vote"),
        (RedeemerTag::Propose, ReportedTag::Propose, "Propose"),
    ];
    for (tag, reported, text) in tags {
        assert_eq!(map_tag_to_redeemer_tag(&tag), reported);
        assert_eq!(redeemer_tag_to_string(&tag), text);
    }
}

#[test]
fn transactions_are_decoded() {
    let bytes = hex::decode(mint_tx(3, &program(UNIT_V3), "80", &[])).unwrap();
    let tx = ConwayTx::decode(&bytes).unwrap();
    let redeemers = tx.redeemers();
    assert_eq!(redeemers.len(), 1);
    assert_eq!(redeemers[0].tag, RedeemerTag::Mint);
    assert_eq!(redeemers[0].index, 0);
    assert_eq!(redeemers[0].ex_units, ExUnits { mem: 7, steps: 9 });
    assert_eq!(tx.inputs().len(), 1);
    assert_eq!(hex::encode(&tx.inputs()[0].transaction_id), INPUT_HASH);
    assert!(ConwayTx::decode(&[0x80]).is_err());
}

#[test]
fn all_kinds_of_redeemers_are_read() {
    let redeemers = (0..6)
        .map(|tag| format!("84{tag:02x}0305820102"))
        .collect::<Vec<_>>()
        .concat();
    let tx = format!("84a300800180020 0a10586{redeemers}f5f6").replace(' ', "");
    let bytes = hex::decode(tx).unwrap();
    let read: Vec<RedeemerTag> = ConwayTx::decode(&bytes)
        .unwrap()
        .redeemers()
        .iter()
        .map(|redeemer| redeemer.tag)
        .collect();
    assert_eq!(
        read,
        [
            RedeemerTag::Spend,
            RedeemerTag::Mint,
            RedeemerTag::Cert,
            RedeemerTag::Reward,
            RedeemerTag::Vote,
            RedeemerTag::Propose
        ]
    );
}

#[test]
fn successful_script_is_reported() {
    let bytes = hex::decode(mint_tx(3, &program(LOGGING_V3), "80", &[])).unwrap();
    let tx = ConwayTx::decode(&bytes).unwrap();
    let utxos = to_pallas_utxos(&plain_utxos()).unwrap();
    let (report, error) = run(&tx, &bytes, &utxos, Some(&cheap()), &BUDGET);
    assert!(error.is_none());
    assert!(report.success);
    assert_eq!(report.error, None);
    assert_eq!(report.tag, ReportedTag::Mint);
    assert_eq!(report.index, 0);
    assert_eq!(report.logs, ["hello"]);
    assert_eq!(report.provided_ex_units, ExUnits { mem: 7, steps: 9 });
    assert!(report.calculated_ex_units.mem > 0);
    let (again, _) = run(&tx, &bytes, &utxos, Some(&cheap()), &BUDGET);
    assert_eq!(again.calculated_ex_units, report.calculated_ex_units);
}

#[test]
fn failing_script_is_reported() {
    let bytes = hex::decode(mint_tx(3, &program(ERROR_V3), "80", &[])).unwrap();
    let tx = ConwayTx::decode(&bytes).unwrap();
    let utxos = to_pallas_utxos(&plain_utxos()).unwrap();
    for models in [None, Some(&cheap())] {
        let (report, error) = run(&tx, &bytes, &utxos, models, &BUDGET);
        assert!(!report.success);
        let error = error.unwrap();
        assert!(matches!(&error, Phase2Error::MachineError { .. }));
        assert_eq!(report.error, Some(error.message()));
        assert!(error.message().starts_with("Machine error: "));
    }
}

#[test]
fn first_versions_get_the_redeemer_and_the_context() {
    for language in [1, 2] {
        for (source, success) in [(REDEEMER_IS_5, true), (UNIT_V2, true), (UNIT_V3, false)] {
            let source = source.replace("1.1.0", "1.0.0");
            let bytes = hex::decode(mint_tx(language, &program(&source), "80", &[])).unwrap();
            let tx = ConwayTx::decode(&bytes).unwrap();
            let utxos = to_pallas_utxos(&plain_utxos()).unwrap();
            let (report, _) = run(&tx, &bytes, &utxos, None, &BUDGET);
            assert_eq!(report.success, success);
        }
    }
}

fn spend_tx(script: &[u8]) -> String {
    format!(
        "84a30081825820{INPUT_HASH}0001800200a2058184000005820709068 1{}f5f6",
        byte_string(script)
    )
    .replace(' ', "")
}

fn script_output(script: &[u8], datum: &str) -> String {
    format!(
        "a300581d70{}0105028201d818{}",
        script_hash(2, script),
        byte_string(&hex::decode(datum).unwrap())
    )
}

#[test]
fn second_version_gets_the_datum_first() {
    let script = program(DATUM_IS_1);
    let bytes = hex::decode(spend_tx(&script)).unwrap();
    let tx = ConwayTx::decode(&bytes).unwrap();
    for (datum, success) in [("01", true), ("02", false)] {
        let utxos =
            to_pallas_utxos(&vec![utxo(INPUT_HASH, 0, &script_output(&script, datum))]).unwrap();
        let (report, _) = run(&tx, &bytes, &utxos, None, &BUDGET);
        assert_eq!(report.success, success);
        assert_eq!(report.tag, ReportedTag::Spend);
    }
}

#[test]
fn missing_script_is_reported() {
    let bytes = hex::decode(spend_tx(&program(UNIT_V2))).unwrap();
    let tx = ConwayTx::decode(&bytes).unwrap();
    let utxos = to_pallas_utxos(&plain_utxos()).unwrap();
    let (report, error) = run(&tx, &bytes, &utxos, Some(&cheap()), &BUDGET);
    assert!(matches!(
        &error,
        Some(Phase2Error::MissingScriptForRedeemer { .. })
    ));
    assert_eq!(report.calculated_ex_units, ExUnits { mem: 0, steps: 0 });
    assert!(report.logs.is_empty());
    assert!(!report.success);
}

#[test]
fn missing_cost_model_is_reported() {
    for (language, source, name) in [
        (1, UNIT_V2, "PlutusV1"),
        (2, UNIT_V2, "PlutusV2"),
        (3, UNIT_V3, "PlutusV3"),
    ] {
        let bytes = hex::decode(mint_tx(language, &program(source), "80", &[])).unwrap();
        let tx = ConwayTx::decode(&bytes).unwrap();
        let utxos = to_pallas_utxos(&plain_utxos()).unwrap();
        let (report, error) = run(&tx, &bytes, &utxos, Some(&no_models()), &BUDGET);
        assert!(matches!(
            &error,
            Some(Phase2Error::CostModelNotFound { language }) if language == name
        ));
        assert_eq!(
            report.error,
            Some(format!("Cost model not found for language: {name}"))
        );
    }
}

#[test]
fn script_that_is_no_program_is_reported() {
    let bytes = hex::decode(mint_tx(3, &[0x41, 0x00], "80", &[])).unwrap();
    let tx = ConwayTx::decode(&bytes).unwrap();
    let utxos = to_pallas_utxos(&plain_utxos()).unwrap();
    let (report, error) = run(&tx, &bytes, &utxos, None, &BUDGET);
    assert!(matches!(&error, Some(Phase2Error::ScriptDecodeError { .. })));
    assert!(!report.success);
}

#[test]
fn context_that_cannot_be_built_is_reported() {
    let reference = format!("1281825820{OTHER_HASH}01");
    let bytes = hex::decode(mint_tx(1, &program(UNIT_V2), "80", &[&reference])).unwrap();
    let tx = ConwayTx::decode(&bytes).unwrap();
    let utxos = to_pallas_utxos(&plain_utxos()).unwrap();
    let (_, error) = run(&tx, &bytes, &utxos, Some(&cheap()), &BUDGET);
    assert!(matches!(
        &error,
        Some(Phase2Error::BuildTxContextError { .. })
    ));
}

#[test]
fn without_cost_models_the_budget_plays_no_part() {
    let bytes = hex::decode(mint_tx(3, &program(UNIT_V3), "80", &[])).unwrap();
    let tx = ConwayTx::decode(&bytes).unwrap();
    let utxos = to_pallas_utxos(&plain_utxos()).unwrap();
    let small = ExBudget { mem: 1, cpu: 1 };
    let (report, _) = run(&tx, &bytes, &utxos, None, &BUDGET);
    let (other, _) = run(&tx, &bytes, &utxos, None, &small);
    assert_eq!(report.calculated_ex_units, other.calculated_ex_units);
    assert!(other.success);
    let (costed, _) = run(&tx, &bytes, &utxos, Some(&cheap()), &small);
    assert!(!costed.success);
}

#[test]
fn reports_take_over_the_outcome() {
    let bytes = hex::decode(mint_tx(3, &program(UNIT_V3), "80", &[])).unwrap();
    let tx = ConwayTx::decode(&bytes).unwrap();
    let redeemer = &tx.redeemers()[0];
    let (report, error) = evaluation_result(
        redeemer,
        Evaluation {
            cost: ExBudget { mem: 12, cpu: 34 },
            logs: vec!["a".to_string(), "b".to_string()],
            error: None,
        },
    );
    assert!(error.is_none());
    assert_eq!(report.calculated_ex_units, ExUnits { mem: 12, steps: 34 });
    assert_eq!(report.logs, ["a", "b"]);
    let (report, error) = evaluation_result(
        redeemer,
        Evaluation {
            cost: ExBudget { mem: 1, cpu: 2 },
            logs: Vec::new(),
            error: Some("broken".to_string()),
        },
    );
    assert_eq!(report.error, Some("Machine error: broken".to_string()));
    assert!(!report.success);
    assert!(error.is_some());
    let (report, error) = eval_redeemer_result(
        redeemer,
        Phase2Error::ScriptDecodeError {
            error: "odd".to_string(),
        },
    );
    assert_eq!(report.error, Some("Failed to decode script: odd".to_string()));
    assert_eq!(report.calculated_ex_units, ExUnits { mem: 0, steps: 0 });
    assert_eq!(report.provided_ex_units, ExUnits { mem: 7, steps: 9 });
    assert!(error.is_some());
}

#[test]
fn error_messages_name_the_step() {
    let message = |error: Phase2Error| error.message();
    assert_eq!(
        message(Phase2Error::MissingScriptForRedeemer {
            error: "x".to_string()
        }),
        "Missing script for redeemer: x"
    );
    assert_eq!(
        message(Phase2Error::BuildTxContextError {
            error: "x".to_string()
        }),
        "Failed to build transaction context: x"
    );
}

#[test]
fn inputs_of_all_kinds_are_listed() {
    let reference = format!("1281825820{OTHER_HASH}01");
    let collateral = format!("0d81825820{OTHER_HASH}1903e8");
    let tx = mint_tx(3, &program(UNIT_V3), "80", &[&collateral, &reference]);
    assert_eq!(
        get_utxo_list_from_tx(&tx).unwrap(),
        [
            format!("{INPUT_HASH}#0"),
            format!("{OTHER_HASH}#1"),
            format!("{OTHER_HASH}#1000")
        ]
    );
    let bytes = hex::decode(&tx).unwrap();
    assert_eq!(
        collect_inputs(&ConwayTx::decode(&bytes).unwrap()).len(),
        3
    );
}

#[test]
fn inputs_are_formatted_as_hash_and_index() {
    let input = InputRef {
        transaction_id: vec![0xab, 0x01],
        index: 18446744073709551615,
    };
    assert_eq!(
        input_to_request_format(&input),
        "ab01#18446744073709551615"
    );
}

#[test]
fn transaction_has_to_be_hexadecimal_and_conway() {
    assert_eq!(
        get_utxo_list_from_tx("0").unwrap_err().message,
        hex::decode("0").unwrap_err().to_string()
    );
    assert_eq!(
        get_utxo_list_from_tx("zz").unwrap_err().message,
        hex::decode("zz").unwrap_err().to_string()
    );
    let expected = pallas_traverse::MultiEraTx::decode_for_era(
        pallas_traverse::Era::Conway,
        &[0x80],
    )
    .unwrap_err()
    .to_string();
    assert_eq!(get_utxo_list_from_tx("80").unwrap_err().message, expected);
}

#[test]
fn missed_outputs_are_listed() {
    let requests = vec![
        format!("{INPUT_HASH}#0"),
        format!("{OTHER_HASH}#1"),
        format!("{OTHER_HASH}#2"),
    ];
    assert_eq!(
        check_missed_utxos(&requests, &plain_utxos()).unwrap_err().message,
        format!(
            "Can't get these UTXOs from API, check the network type: {OTHER_HASH}#1, {OTHER_HASH}#2"
        )
    );
    assert_eq!(
        check_missed_utxos(&requests[1..2], &[]).unwrap_err().message,
        format!("Can't get these UTXOs from API, check the network type: {OTHER_HASH}#1")
    );
    assert!(check_missed_utxos(&requests[..1], &plain_utxos()).is_ok());
    assert!(check_missed_utxos(&[], &[]).is_ok());
    let mut more = plain_utxos();
    more.push(utxo(OTHER_HASH, 1, "00"));
    more.push(utxo(OTHER_HASH, 2, "00"));
    assert!(check_missed_utxos(&requests, &more).is_ok());
}

#[test]
fn outputs_have_to_decode() {
    assert_eq!(to_pallas_utxos(&plain_utxos()).unwrap().len(), 1);
    assert_eq!(
        to_pallas_utxos(&vec![utxo("abc", 0, "00")]).unwrap_err().message,
        hex::decode("abc").unwrap_err().to_string()
    );
    assert_eq!(
        to_pallas_utxos(&vec![utxo("abcd", 0, "00")]).unwrap_err().message,
        "Invalid transaction hash length"
    );
    assert!(to_pallas_utxos(&vec![utxo(INPUT_HASH, 0, "00")]).is_err());
}

#[test]
fn scripts_are_executed() {
    let tx_hex = mint_tx(3, &program(UNIT_V3), "80", &[]);
    let response =
        execute_tx_scripts(&tx_hex, Ok(plain_utxos()), Ok(cheap())).unwrap();
    let bytes = hex::decode(&tx_hex).unwrap();
    let tx = ConwayTx::decode(&bytes).unwrap();
    let utxos = to_pallas_utxos(&plain_utxos()).unwrap();
    let (report, _) = run(&tx, &bytes, &utxos, Some(&cheap()), &BUDGET);
    let units = report.calculated_ex_units;
    assert_eq!(
        to_json(&response),
        json(&format!(
            r#"[{{
                "original_ex_units":{{"steps":"9","mem":"7"}},
                "calculated_ex_units":{{"steps":"{}","mem":"{}"}},
                "redeemer_index":"0",
                "redeemer_tag":"Mint"
            }}]"#,
            units.steps, units.mem
        ))
    );
    let again = execute_tx_scripts(&tx_hex, Ok(plain_utxos()), Ok(cheap())).unwrap();
    assert_eq!(to_json(&again), to_json(&response));
}

#[test]
fn every_script_gets_the_budget_of_a_transaction() {
    let tx_hex = mint_tx(3, &program(UNIT_V3), "80", &[]);
    let answer = |price: i64| {
        let models = CostModels {
            plutus_v1: None,
            plutus_v2: None,
            plutus_v3: Some(vec![price; 400]),
        };
        to_json(
            &execute_tx_scripts(&tx_hex, Ok(plain_utxos()), Ok(models)).unwrap(),
        )
    };
    let steps: i64 = answer(1)[0]["calculated_ex_units"]["mem"]
        .as_str()
        .unwrap()
        .parse()
        .unwrap();
    let largest = BUDGET.mem / steps;
    assert!(answer(largest)[0]["error"].is_null());
    assert!(answer(largest + 1)[0]["error"].is_string());
}

#[test]
fn failing_scripts_are_answered_with_their_error() {
    let tx_hex = mint_tx(3, &program(ERROR_V3), "80", &[]);
    let response = to_json(
        &execute_tx_scripts(&tx_hex, Ok(plain_utxos()), Ok(cheap())).unwrap(),
    );
    assert!(response[0]["error"].as_str().unwrap().starts_with("failed script execution"));
    assert_eq!(response[0]["redeemer_tag"], json(r#""Mint""#));
    assert_eq!(
        response[0]["original_ex_units"],
        json(r#"{"steps":"9","mem":"7"}"#)
    );
    assert_eq!(response[0]["calculated_ex_units"], serde_json::Value::Null);
}

#[test]
fn requests_are_refused_in_order() {
    let tx_hex = mint_tx(3, &program(UNIT_V3), "80", &[]);
    let refused = |tx_hex: &str, utxos: Result<Vec<UTxO>, String>, models| {
        try_execute_tx_scripts(tx_hex, utxos, models).unwrap().unwrap_err().message
    };
    let bad = || Err("bad outputs".to_string());
    let bad_models = || Err("bad models".to_string());
    assert_eq!(
        refused("zz", bad(), bad_models()),
        hex::decode("zz").unwrap_err().to_string()
    );
    assert_eq!(refused(&tx_hex, bad(), bad_models()), "bad outputs");
    assert_eq!(
        refused(&tx_hex, Ok(vec![utxo("abcd", 0, "00")]), bad_models()),
        "Invalid transaction hash length"
    );
    assert_eq!(
        refused(&tx_hex, Ok(Vec::new()), bad_models()),
        format!("Can't get these UTXOs from API, check the network type: {INPUT_HASH}#0")
    );
    assert_eq!(
        refused(&tx_hex, Ok(plain_utxos()), bad_models()),
        "bad models"
    );
}

#[test]
fn transaction_without_redeemers_is_answered_with_an_empty_list() {
    let tx_hex = format!("84a30081825820{INPUT_HASH}0001800200a0f5f6");
    let response = try_execute_tx_scripts(&tx_hex, Ok(plain_utxos()), Ok(cheap())).unwrap();
    assert_eq!(to_json(&response.unwrap()), json("[]"));
}

#[test]
fn phase_one_finds_superfluous_scripts() {
    let script = program(UNIT_V3);
    let bytes = hex::decode(mint_tx(3, &script, "80", &[])).unwrap();
    let tx = ConwayTx::decode(&bytes).unwrap();
    let utxos = to_pallas_utxos(&plain_utxos()).unwrap();
    let outcomes = eval_all_redeemers(&tx, &utxos, Some(&cheap()), &mainnet(), true).unwrap();
    assert_eq!(outcomes.len(), 1);
    let superfluous = format!(
        "84a30081825820{INPUT_HASH}0001800200a10781{}f5f6",
        byte_string(&script)
    );
    let bytes = hex::decode(superfluous).unwrap();
    let tx = ConwayTx::decode(&bytes).unwrap();
    assert!(eval_all_redeemers(&tx, &utxos, Some(&cheap()), &mainnet(), true).is_err());
    assert!(eval_all_redeemers(&tx, &utxos, Some(&cheap()), &mainnet(), false)
        .unwrap()
        .is_empty());
    assert!(
        try_eval_all_redeemers(&tx, &utxos, Some(&cheap()), &mainnet(), true)
            .unwrap()
            .is_err()
    );
    let withdrawal = format!("05a1581d60{KEY_HASH}00");
    let unsound = mint_tx(3, &script, "80", &[&withdrawal]);
    let bytes = hex::decode(unsound).unwrap();
    let tx = ConwayTx::decode(&bytes).unwrap();
    assert!(!are_withdrawals_sound(&tx));
    assert!(try_eval_all_redeemers(&tx, &utxos, Some(&cheap()), &mainnet(), true).is_none());
}

#[test]
fn response_has_one_entry_for_each_redeemer() {
    let bytes = hex::decode(mint_tx(3, &program(UNIT_V3), "80", &[])).unwrap();
    let tx = ConwayTx::decode(&bytes).unwrap();
    let redeemer = &tx.redeemers()[0];
    let response = build_response_object(&vec![
        outcome_of(redeemer, Ok(ExUnits { mem: 3, steps: 4 })),
        outcome_of(redeemer, Err("no".to_string())),
    ]);
    assert_eq!(
        to_json(&response),
        json(
            r#"[
                {
                    "original_ex_units":{"steps":"9","mem":"7"},
                    "calculated_ex_units":{"steps":"4","mem":"3"},
                    "redeemer_index":"0","redeemer_tag":"Mint"
                },
                {
                    "original_ex_units":{"steps":"9","mem":"7"},
                    "error":"no",
                    "redeemer_index":"0","redeemer_tag":"Mint"
                }
            ]"#
        )
    );
}

#[test]
fn units_are_texts() {
    assert_eq!(
        to_json(&exec_units_to_json(ExUnits {
            mem: 18446744073709551615,
            steps: 0
        })),
        json(r#"{"steps":"0","mem":"18446744073709551615"}"#)
    );
}

#[test]
fn outcomes_keep_the_redeemer() {
    let bytes = hex::decode(mint_tx(3, &program(UNIT_V3), "80", &[])).unwrap();
    let tx = ConwayTx::decode(&bytes).unwrap();
    let redeemer = &tx.redeemers()[0];
    let (original, calculated) = outcome_of(redeemer, Ok(ExUnits { mem: 3, steps: 4 })).unwrap();
    assert_eq!(original.data, redeemer.data);
    assert_eq!(original.ex_units, ExUnits { mem: 7, steps: 9 });
    assert_eq!(calculated.data, redeemer.data);
    assert_eq!(calculated.tag, RedeemerTag::Mint);
    assert_eq!(calculated.ex_units, ExUnits { mem: 3, steps: 4 });
    let (original, error) = outcome_of(redeemer, Err("no".to_string())).unwrap_err();
    assert_eq!(original.index, 0);
    assert_eq!(error, "no");
}

#[test]
fn message_of_phase_one_is_handed_on() {
    assert!(phase_one_result(Ok(())).is_ok());
    assert_eq!(
        phase_one_result(Err("superfluous".to_string())).unwrap_err().message,
        "superfluous"
    );
}

const BYRON: &str =
    "82d818582183581cba970ad36654d8dd8f74274b733452ddeab9a62a397746be3c42ccdda0001a9026da5b";

fn info_is_sound(tx: &str, utxos: Vec<UTxO>) -> bool {
    let bytes = hex::decode(tx).unwrap();
    let tx = ConwayTx::decode(&bytes).unwrap();
    is_info_sound(&tx, &to_pallas_utxos(&utxos).unwrap(), &mainnet())
}

#[test]
fn evaluator_surely_describes_plain_transactions() {
    let script = program(UNIT_V3);
    let legacy = format!("82581d60{KEY_HASH}05");
    let with = |fields: &[&str]| mint_tx(3, &script, "80", fields);
    assert!(info_is_sound(&with(&[]), plain_utxos()));
    assert!(info_is_sound(&mint_tx(3, &script, &format!("81{}", plain_output()), &[]), Vec::new()));
    assert!(!info_is_sound(&mint_tx(3, &script, &format!("81{legacy}"), &[]), Vec::new()));
    assert!(!info_is_sound(&with(&[]), vec![utxo(INPUT_HASH, 0, &legacy)]));
    assert!(!info_is_sound(&with(&[]), vec![utxo(INPUT_HASH, 0, "a20042ff000105")]));
    let withdrawal = |header: &str| format!("05a1581d{header}{KEY_HASH}00");
    assert!(info_is_sound(&with(&[&withdrawal("e0")]), Vec::new()));
    assert!(!info_is_sound(&with(&[&withdrawal("60")]), Vec::new()));
    assert!(info_is_sound(&with(&["031a05f5e100"]), Vec::new()));
    assert!(info_is_sound(&with(&["0301"]), Vec::new()));
    assert!(!info_is_sound(&with(&["031bffffffffffffffff"]), Vec::new()));
    assert!(!info_is_sound(&with(&["081bffffffffffffffff"]), Vec::new()));
}

#[test]
fn byron_addresses_are_told_apart() {
    let byron = format!("a200582b{BYRON}0105");
    let script = program(UNIT_V3);
    assert!(info_is_sound(
        &mint_tx(3, &script, "80", &[]),
        vec![utxo(INPUT_HASH, 0, &byron)]
    ));
    let withdrawal = format!("05a1582b{BYRON}00");
    assert!(!info_is_sound(&mint_tx(3, &script, "80", &[&withdrawal]), Vec::new()));
}

#[test]
fn refusal_before_the_context_needs_no_visible_transaction() {
    let byron_output = format!("81a200582b{BYRON}0105");
    let vote = format!("048183098200581c{KEY_HASH}8102");
    let reference = format!("1281825820{OTHER_HASH}01");
    let script = program(UNIT_V2);
    let bytes = hex::decode(mint_tx(1, &script, &byron_output, &[&vote, &reference])).unwrap();
    let tx = ConwayTx::decode(&bytes).unwrap();
    let utxos = to_pallas_utxos(&plain_utxos()).unwrap();
    let (_, error) = run(&tx, &bytes, &utxos, None, &BUDGET);
    assert!(matches!(&error, Some(Phase2Error::BuildTxContextError { .. })));
    let bytes = hex::decode(mint_tx(2, &[0x41, 0x00], &byron_output, &[&vote])).unwrap();
    let tx = ConwayTx::decode(&bytes).unwrap();
    let (_, error) = run(&tx, &bytes, &utxos, None, &BUDGET);
    assert!(matches!(&error, Some(Phase2Error::ScriptDecodeError { .. })));
}

#[test]
fn overridden_scripts_are_run() {
    let script = program(ERROR_V3);
    let bytes = hex::decode(mint_tx(3, &script, "80", &[])).unwrap();
    let tx = ConwayTx::decode(&bytes).unwrap();
    let utxos = to_pallas_utxos(&plain_utxos()).unwrap();
    let mut table = table(&bytes, &utxos);
    let hash = pallas_primitives::PlutusScript::<3>(script.into()).compute_hash();
    table.override_script(
        hash,
        PlutusScript::V3(pallas_primitives::PlutusScript::<3>(program(UNIT_V3).into())),
    );
    let (report, _) = eval_redeemer(
        &tx,
        &utxos,
        &mainnet(),
        &tx.redeemers()[0],
        &table,
        None,
        &BUDGET,
    );
    assert!(report.success);
}

#[test]
fn early_refusals_are_certain_beforehand() {
    let utxos = to_pallas_utxos(&plain_utxos()).unwrap();
    let tried = |tx_hex: String, models: Option<&CostModels>| {
        let bytes = hex::decode(tx_hex).unwrap();
        let tx = ConwayTx::decode(&bytes).unwrap();
        try_eval_redeemer(
            &tx,
            &utxos,
            &mainnet(),
            &tx.redeemers()[0],
            &table(&bytes, &utxos),
            models,
            &BUDGET,
        )
        .map(|(_, error)| error.unwrap())
    };
    assert!(matches!(
        tried(spend_tx(&program(UNIT_V2)), None),
        Some(Phase2Error::MissingScriptForRedeemer { .. })
    ));
    let script = program(UNIT_V3);
    assert!(matches!(
        tried(mint_tx(3, &script, "80", &[]), Some(&no_models())),
        Some(Phase2Error::CostModelNotFound { .. })
    ));
    assert!(tried(mint_tx(3, &script, "80", &[]), None).is_none());
    let reference = format!("1281825820{OTHER_HASH}01");
    assert!(matches!(
        tried(mint_tx(1, &program(UNIT_V2), "80", &[&reference]), None),
        Some(Phase2Error::BuildTxContextError { .. })
    ));
}

#[test]
fn requests_that_need_the_evaluator_are_not_tried() {
    let tx_hex = mint_tx(3, &program(UNIT_V3), "80", &[]);
    assert!(try_execute_tx_scripts(&tx_hex, Ok(plain_utxos()), Ok(cheap())).is_none());
    assert!(try_execute_tx_scripts(&tx_hex, Ok(Vec::new()), Ok(cheap())).is_some());
}

#[test]
fn other_cost_models_play_no_part() {
    let bytes = hex::decode(mint_tx(3, &program(UNIT_V3), "80", &[])).unwrap();
    let tx = ConwayTx::decode(&bytes).unwrap();
    let utxos = to_pallas_utxos(&plain_utxos()).unwrap();
    let alone = CostModels {
        plutus_v3: cheap().plutus_v3,
        ..no_models()
    };
    let (with_all, _) = run(&tx, &bytes, &utxos, Some(&cheap()), &BUDGET);
    let (with_own, _) = run(&tx, &bytes, &utxos, Some(&alone), &BUDGET);
    assert!(with_own.success);
    assert_eq!(with_all.calculated_ex_units, with_own.calculated_ex_units);
}

#[test]
fn first_of_several_failures_is_reported() {
    let reference = format!("1281825820{OTHER_HASH}01");
    let bytes = hex::decode(mint_tx(1, &[0x41, 0x00], "80", &[&reference])).unwrap();
    let tx = ConwayTx::decode(&bytes).unwrap();
    let utxos = to_pallas_utxos(&plain_utxos()).unwrap();
    let (_, error) = run(&tx, &bytes, &utxos, Some(&no_models()), &BUDGET);
    assert!(matches!(&error, Some(Phase2Error::CostModelNotFound { .. })));
    let (_, error) = run(&tx, &bytes, &utxos, Some(&cheap()), &BUDGET);
    assert!(matches!(&error, Some(Phase2Error::BuildTxContextError { .. })));
}

#[test]
fn without_cost_models_the_budget_is_the_largest() {
    let twice = "(lam f (lam x [ f [ f x ] ]))";
    let often = format!("[ [ [ {twice} {twice} ] {twice} ] {twice} ]");
    let source = format!("(program 1.1.0 (lam c [ [ {often} (lam y y) ] (con unit ()) ]))");
    let bytes = hex::decode(mint_tx(3, &program(&source), "80", &[])).unwrap();
    let tx = ConwayTx::decode(&bytes).unwrap();
    let utxos = to_pallas_utxos(&plain_utxos()).unwrap();
    let (report, _) = run(&tx, &bytes, &utxos, None, &BUDGET);
    assert!(report.success);
    assert!(report.calculated_ex_units.mem > 16500000);
}

fn phase_one_message(tx_hex: &str, utxos: &Vec<uplc::tx::ResolvedInput>) -> String {
    let bytes = hex::decode(tx_hex).unwrap();
    let tx = ConwayTx::decode(&bytes).unwrap();
    let message = eval_all_redeemers(&tx, utxos, Some(&cheap()), &mainnet(), true)
        .unwrap_err()
        .message;
    let tried = try_eval_all_redeemers(&tx, utxos, Some(&cheap()), &mainnet(), true);
    assert!(tried.unwrap().is_err());
    message
}

fn mismatch(missing: &str, unexpected: &str) -> String {
    let first = "missing and/or unexpected validator(s) and/or redeemer(s)";
    format!("{first}\n      Missing {missing}\n   Unexpected {unexpected}")
}

#[test]
fn failed_phase_one_says_what_is_wrong() {
    let utxos = to_pallas_utxos(&plain_utxos()).unwrap();
    let (script, other) = (program(UNIT_V3), program(ERROR_V3));
    let (hash, other_hash) = (script_hash(3, &script), script_hash(3, &other));
    let body = format!("84a30081825820{INPUT_HASH}0001800200");

    let unexpected = format!("{body}a10781{}f5f6", byte_string(&script));
    assert_eq!(phase_one_message(&unexpected, &utxos), mismatch("ø", &hash));

    let several = format!(
        "{body}a10782{}{}f5f6",
        byte_string(&script),
        byte_string(&other)
    );
    let message = phase_one_message(&several, &utxos);
    let gap = "\n              ";
    assert!([
        mismatch("ø", &format!("{hash}{gap}{other_hash}")),
        mismatch("ø", &format!("{other_hash}{gap}{hash}")),
    ]
    .contains(&message));

    let missing = format!(
        "84a40081825820{INPUT_HASH}000180020009a2581c{hash}a1416101581c{other_hash}a1416101a0f5f6"
    );
    assert_eq!(
        phase_one_message(&missing, &utxos),
        mismatch(&format!("{hash}{gap}{other_hash}"), "ø")
    );

    let without_redeemer = format!(
        "84a40081825820{INPUT_HASH}000180020009a1581c{hash}a1416101a10781{}f5f6",
        byte_string(&script)
    );
    assert_eq!(
        phase_one_message(&without_redeemer, &utxos),
        mismatch(&format!("Mint[0] -> {hash}"), "ø")
    );

    assert_eq!(
        phase_one_message(&unexpected, &Vec::new()),
        "resolved Input not found"
    );
}
