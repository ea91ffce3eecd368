//! Runs the script of a redeemer and reports how it fared.

use pallas_traverse::MultiEraTx;
use uplc::ast::{NamedDeBruijn, Program};
use uplc::tx::script_context::TxInfo;
use uplc::tx::{DataLookupTable, ResolvedInput};
use uplc::PlutusData;
use vstd::prelude::*;

use crate::common::{optional_models, CostModels, CostModelsView, ExUnits};
use crate::validators::common::NetworkType;
use crate::validators::phase_2::errors::{Phase2Error, Phase2ErrorView};
use crate::validators::phase_2::evaluable::{info_sound, is_info_sound, Language, SlotConfig};
use crate::validators::phase_2::evaluation::{
    applied, apply_data, build_context, build_info_v1, build_info_v2, build_info_v3, context_data,
    context_to_data, costed_run, decode_program, default_run, eval_as, eval_version, find_script,
    found_script, lacks_model, max_budget, redeemer_context, script_program, text_result,
    tx_info_v1, tx_info_v2, tx_info_v3, Evaluation, EvaluationView, ExBudget,
};
use crate::validators::phase_2::transaction::{
    pallas_redeemer, ConwayTx, RedeemerTag, TxRedeemer,
};
use crate::validators::validation_result::RedeemerTag as ValidatorRedeemerTag;
use crate::validators::validation_result::{EvalRedeemerResult, EvalRedeemerResultView};

verus! {

/// How slots are turned into time on a network.
pub open spec fn network_slots(network: NetworkType) -> SlotConfig {
    match network {
        NetworkType::Mainnet => SlotConfig {
            zero_time: 1596059091000,
            zero_slot: 4492800,
            slot_length: 1000,
        },
        NetworkType::Preview => SlotConfig {
            zero_time: 1666656000000,
            zero_slot: 0,
            slot_length: 1000,
        },
        NetworkType::Preprod => SlotConfig {
            zero_time: 1655769600000,
            zero_slot: 86400,
            slot_length: 1000,
        },
    }
}

/// How slots are turned into time on a network.
pub fn slot_config_network(network: &NetworkType) -> (slots: SlotConfig)
    ensures
        slots == network_slots(*network),
{
    match network {
        NetworkType::Mainnet => SlotConfig {
            zero_time: 1596059091000,
            zero_slot: 4492800,
            slot_length: 1000,
        },
        NetworkType::Preview => SlotConfig {
            zero_time: 1666656000000,
            zero_slot: 0,
            slot_length: 1000,
        },
        NetworkType::Preprod => SlotConfig {
            zero_time: 1654041600000 + 1728000000,
            zero_slot: 86400,
            slot_length: 1000,
        },
    }
}

/// The name of a language.
pub open spec fn language_name(language: Language) -> Seq<char> {
    match language {
        Language::PlutusV1 => "PlutusV1"@,
        Language::PlutusV2 => "PlutusV2"@,
        Language::PlutusV3 => "PlutusV3"@,
    }
}

/// The name of a language.
pub fn language_to_string(language: &Language) -> (name: String)
    ensures
        name@ == language_name(*language),
{
    match language {
        Language::PlutusV1 => "PlutusV1".to_owned(),
        Language::PlutusV2 => "PlutusV2".to_owned(),
        Language::PlutusV3 => "PlutusV3".to_owned(),
    }
}

/// The tag under which a redeemer is reported.
pub open spec fn reported_tag(tag: RedeemerTag) -> ValidatorRedeemerTag {
    match tag {
        RedeemerTag::Mint => ValidatorRedeemerTag::Mint,
        RedeemerTag::Spend => ValidatorRedeemerTag::Spend,
        RedeemerTag::Cert => ValidatorRedeemerTag::Cert,
        RedeemerTag::Propose => ValidatorRedeemerTag::Propose,
        RedeemerTag::Vote => ValidatorRedeemerTag::Vote,
        RedeemerTag::Reward => ValidatorRedeemerTag::Reward,
    }
}

/// The tag under which a redeemer is reported.
pub fn map_tag_to_redeemer_tag(tag: &RedeemerTag) -> (reported: ValidatorRedeemerTag)
    ensures
        reported == reported_tag(*tag),
{
    match tag {
        RedeemerTag::Mint => ValidatorRedeemerTag::Mint,
        RedeemerTag::Spend => ValidatorRedeemerTag::Spend,
        RedeemerTag::Cert => ValidatorRedeemerTag::Cert,
        RedeemerTag::Propose => ValidatorRedeemerTag::Propose,
        RedeemerTag::Vote => ValidatorRedeemerTag::Vote,
        RedeemerTag::Reward => ValidatorRedeemerTag::Reward,
    }
}

/// The report on a redeemer: the result, and the error if there is one.
pub type RedeemerReport = (EvalRedeemerResultView, Option<Phase2ErrorView>);

/// A report, taken by its view.
pub open spec fn report_view(report: (EvalRedeemerResult, Option<Phase2Error>)) -> RedeemerReport {
    (
        report.0@,
        match report.1 {
            Some(error) => Some(error@),
            None => None,
        },
    )
}

/// The report on a redeemer whose script was not run.
pub open spec fn refused_report(redeemer: TxRedeemer, error: Phase2ErrorView) -> RedeemerReport {
    (
        EvalRedeemerResultView {
            tag: reported_tag(redeemer.tag),
            index: redeemer.index as u64,
            calculated_ex_units: ExUnits { mem: 0, steps: 0 },
            provided_ex_units: redeemer.ex_units,
            success: false,
            error: Some(error.message()),
            logs: Seq::empty(),
        },
        Some(error),
    )
}

/// The report on a redeemer whose script was run.
pub open spec fn evaluated_report(
    redeemer: TxRedeemer,
    evaluation: EvaluationView,
) -> RedeemerReport {
    let error = match evaluation.error {
        Some(error) => Some(Phase2ErrorView::MachineError { error }),
        None => None,
    };
    (
        EvalRedeemerResultView {
            tag: reported_tag(redeemer.tag),
            index: redeemer.index as u64,
            calculated_ex_units: ExUnits {
                mem: evaluation.cost.mem as u64,
                steps: evaluation.cost.cpu as u64,
            },
            provided_ex_units: redeemer.ex_units,
            success: error is None,
            error: match error {
                Some(error) => Some(error.message()),
                None => None,
            },
            logs: evaluation.logs,
        },
        error,
    )
}

/// The report on a redeemer whose script was not run.
pub fn eval_redeemer_result(redeemer: &TxRedeemer, error: Phase2Error) -> (report: (
    EvalRedeemerResult,
    Option<Phase2Error>,
))
    ensures
        report_view(report) == refused_report(*redeemer, error@),
{
    let logs: Vec<String> = Vec::new();
    let new_redeemer = EvalRedeemerResult {
        tag: map_tag_to_redeemer_tag(&redeemer.tag),
        index: redeemer.index as u64,
        calculated_ex_units: ExUnits { mem: 0, steps: 0 },
        provided_ex_units: redeemer.ex_units,
        success: false,
        error: Some(error.message()),
        logs,
    };
    assert(new_redeemer@.logs =~= Seq::<Seq<char>>::empty());
    (new_redeemer, Some(error))
}

/// The report on a redeemer whose script was run.
pub fn evaluation_result(redeemer: &TxRedeemer, evaluation: Evaluation) -> (report: (
    EvalRedeemerResult,
    Option<Phase2Error>,
))
    ensures
        report_view(report) == evaluated_report(*redeemer, evaluation@),
{
    let error = match evaluation.error {
        Some(error) => Some(Phase2Error::MachineError { error }),
        None => None,
    };
    let new_redeemer = EvalRedeemerResult {
        tag: map_tag_to_redeemer_tag(&redeemer.tag),
        index: redeemer.index as u64,
        calculated_ex_units: ExUnits {
            mem: #[verifier::truncate]
            (evaluation.cost.mem as u64),
            steps: #[verifier::truncate]
            (evaluation.cost.cpu as u64),
        },
        provided_ex_units: redeemer.ex_units,
        success: error.is_none(),
        error: match &error {
            Some(error) => Some(error.message()),
            None => None,
        },
        logs: evaluation.logs,
    };
    assert(new_redeemer@.logs =~= evaluation@.logs);
    (new_redeemer, error)
}

/// The program of a script with its arguments: for the first two language versions
/// the datum, if there is one, the redeemer and the context; for the third the
/// context alone.
pub open spec fn applied_program(
    program: Program<NamedDeBruijn>,
    language: Language,
    datum: Option<PlutusData>,
    redeemer: PlutusData,
    context: PlutusData,
) -> Program<NamedDeBruijn> {
    match language {
        Language::PlutusV1 | Language::PlutusV2 => {
            let with_datum = match datum {
                Some(datum) => applied(program, datum),
                None => program,
            };
            applied(applied(with_datum, redeemer), context)
        },
        Language::PlutusV3 => applied(program, context),
    }
}

/// The largest budget of the evaluator.
pub open spec fn largest_budget() -> ExBudget {
    ExBudget { mem: 14000000000000, cpu: 10000000000000 }
}

/// The outcome of a program: at the given costs within the budget, or without
/// costs at those of the evaluator within its largest budget. `None` where the evaluator
/// does not return.
pub open spec fn run_outcome(
    program: Program<NamedDeBruijn>,
    language: Language,
    costs: Option<Seq<i64>>,
    budget: ExBudget,
) -> Option<EvaluationView> {
    match costs {
        Some(costs) => costed_run(program, language, costs, budget),
        None => default_run(program, language, largest_budget()),
    }
}

/// What scripts of a language see of the transaction.
pub open spec fn language_info(
    language: Language,
    tx: MultiEraTx<'_>,
    utxos: Seq<ResolvedInput>,
    slots: SlotConfig,
) -> Option<Result<TxInfo, Seq<char>>> {
    match language {
        Language::PlutusV1 => tx_info_v1(tx, utxos, slots),
        Language::PlutusV2 => tx_info_v2(tx, utxos, slots),
        Language::PlutusV3 => tx_info_v3(tx, utxos, slots),
    }
}

/// The costs of a language, if there are cost models.
pub open spec fn language_costs(models: Option<CostModelsView>, language: Language) -> Option<
    Seq<i64>,
> {
    match models {
        Some(models) => match language {
            Language::PlutusV1 => models.plutus_v1,
            Language::PlutusV2 => models.plutus_v2,
            Language::PlutusV3 => models.plutus_v3,
        },
        None => None,
    }
}

/// The report on a redeemer whose script is a program that sees the transaction.
/// `None` where the transaction has no such redeemer, or the evaluator does not return.
pub open spec fn run_report(
    program: Program<NamedDeBruijn>,
    language: Language,
    costs: Option<Seq<i64>>,
    budget: ExBudget,
    info: TxInfo,
    redeemer: TxRedeemer,
    datum: Option<PlutusData>,
) -> Option<RedeemerReport> {
    match redeemer_context(info, redeemer, datum) {
        None => None,
        Some(context) => match context_data(context) {
            None => None,
            Some(shown) => match run_outcome(
                applied_program(program, language, datum, redeemer.data, shown),
                language,
                costs,
                budget,
            ) {
                None => None,
                Some(evaluation) => Some(evaluated_report(redeemer, evaluation)),
            },
        },
    }
}

/// The report on a redeemer. Its script has to be found, has to have a cost model
/// where there are any, has to see the transaction, and has to be a program, in
/// this order; then it is run. `None` where a step that is reached does not return, or
/// where the script would be run for a redeemer that the transaction does not have.
pub open spec fn redeemer_report(
    tx: MultiEraTx<'_>,
    utxos: Seq<ResolvedInput>,
    slots: SlotConfig,
    redeemer: TxRedeemer,
    table: DataLookupTable,
    models: Option<CostModelsView>,
    budget: ExBudget,
) -> Option<RedeemerReport> {
    match found_script(redeemer, tx, utxos, table) {
        None => None,
        Some(Err(error)) => Some(
            refused_report(redeemer, Phase2ErrorView::MissingScriptForRedeemer { error }),
        ),
        Some(Ok(found)) => if lacks_model(models, found.language) {
            Some(
                refused_report(
                    redeemer,
                    Phase2ErrorView::CostModelNotFound { language: language_name(found.language) },
                ),
            )
        } else {
            match language_info(found.language, tx, utxos, slots) {
                None => None,
                Some(Err(error)) => Some(
                    refused_report(redeemer, Phase2ErrorView::BuildTxContextError { error }),
                ),
                Some(Ok(info)) => match script_program(found.script) {
                    None => None,
                    Some(Err(error)) => Some(
                        refused_report(redeemer, Phase2ErrorView::ScriptDecodeError { error }),
                    ),
                    Some(Ok(program)) => run_report(
                        program,
                        found.language,
                        language_costs(models, found.language),
                        budget,
                        info,
                        redeemer,
                        found.datum,
                    ),
                },
            }
        },
    }
}

/// A list of costs that may be missing, taken by its view.
pub open spec fn costs_view(costs: Option<&Vec<i64>>) -> Option<Seq<i64>> {
    match costs {
        Some(costs) => Some(costs@),
        None => None,
    }
}

/// Applies a program to its arguments and runs it.
fn do_eval_redeemer(
    cost_mdl_opt: Option<&Vec<i64>>,
    initial_budget: &ExBudget,
    lang: Language,
    datum: &Option<PlutusData>,
    redeemer: &TxRedeemer,
    tx_info: TxInfo,
    program: Program<NamedDeBruijn>,
) -> (report: (EvalRedeemerResult, Option<Phase2Error>))
    requires
        run_report(
            program,
            lang,
            costs_view(cost_mdl_opt),
            *initial_budget,
            tx_info,
            *redeemer,
            *datum,
        ) is Some,
    ensures
        run_report(
            program,
            lang,
            costs_view(cost_mdl_opt),
            *initial_budget,
            tx_info,
            *redeemer,
            *datum,
        ) == Some(report_view(report)),
{
    let context = build_context(
        tx_info,
        &pallas_redeemer(redeemer),
        datum.as_ref(),
    ).unwrap();
    let shown = context_to_data(&context);
    let program = match lang {
        Language::PlutusV1 | Language::PlutusV2 => {
            let program = match datum {
                Some(datum) => apply_data(&program, datum),
                None => program,
            };
            apply_data(&apply_data(&program, &redeemer.data), &shown)
        },
        Language::PlutusV3 => apply_data(&program, &shown),
    };
    let evaluation = match cost_mdl_opt {
        Some(costs) => eval_as(program, lang, costs, initial_budget),
        None => eval_version(program, lang, &max_budget()),
    };
    evaluation_result(redeemer, evaluation)
}

/// The transaction as scripts of a language see it.
fn build_info(
    language: Language,
    tx: &ConwayTx<'_>,
    utxos: &Vec<ResolvedInput>,
    slot_config: &SlotConfig,
) -> (info: Result<TxInfo, String>)
    requires
        info_sound(tx.decoded(), utxos@, *slot_config) || language_info(
            language,
            tx.decoded(),
            utxos@,
            *slot_config,
        ) is Some,
    ensures
        language_info(language, tx.decoded(), utxos@, *slot_config) == Some(text_result(info)),
{
    match language {
        Language::PlutusV1 => build_info_v1(tx.era_tx(), utxos, slot_config),
        Language::PlutusV2 => build_info_v2(tx.era_tx(), utxos, slot_config),
        Language::PlutusV3 => build_info_v3(tx.era_tx(), utxos, slot_config),
    }
}

/// Runs the script of a redeemer and reports how it fared.
pub fn eval_redeemer(
    tx: &ConwayTx<'_>,
    utxos: &Vec<ResolvedInput>,
    slot_config: &SlotConfig,
    redeemer: &TxRedeemer,
    lookup_table: &DataLookupTable,
    cost_mdls_opt: Option<&CostModels>,
    initial_budget: &ExBudget,
) -> (report: (EvalRedeemerResult, Option<Phase2Error>))
    requires
        redeemer_report(
            tx.decoded(),
            utxos@,
            *slot_config,
            *redeemer,
            *lookup_table,
            optional_models(cost_mdls_opt),
            *initial_budget,
        ) is Some,
    ensures
        redeemer_report(
            tx.decoded(),
            utxos@,
            *slot_config,
            *redeemer,
            *lookup_table,
            optional_models(cost_mdls_opt),
            *initial_budget,
        ) == Some(report_view(report)),
{
    let found = match find_script(&pallas_redeemer(redeemer), tx.era_tx(), utxos, lookup_table) {
        Ok(found) => found,
        Err(error) => {
            return eval_redeemer_result(
                redeemer,
                Phase2Error::MissingScriptForRedeemer { error },
            );
        },
    };
    let costs: Option<&Vec<i64>> = match cost_mdls_opt {
        Some(models) => {
            let model = match found.language {
                Language::PlutusV1 => models.plutus_v1.as_ref(),
                Language::PlutusV2 => models.plutus_v2.as_ref(),
                Language::PlutusV3 => models.plutus_v3.as_ref(),
            };
            if model.is_none() {
                return eval_redeemer_result(
                    redeemer,
                    Phase2Error::CostModelNotFound {
                        language: language_to_string(&found.language),
                    },
                );
            }
            model
        },
        None => None,
    };
    let tx_info = match build_info(found.language, tx, utxos, slot_config) {
        Ok(tx_info) => tx_info,
        Err(error) => {
            return eval_redeemer_result(redeemer, Phase2Error::BuildTxContextError { error });
        },
    };
    let program = match decode_program(&found.script) {
        Ok(program) => program,
        Err(error) => {
            return eval_redeemer_result(redeemer, Phase2Error::ScriptDecodeError { error });
        },
    };
    do_eval_redeemer(
        costs,
        initial_budget,
        found.language,
        &found.datum,
        redeemer,
        tx_info,
        program,
    )
}

/// Whether the script of a redeemer is refused before its bytes are looked at: it is
/// not found, has no cost model, or cannot see the transaction.
pub open spec fn refused_early(
    tx: MultiEraTx<'_>,
    utxos: Seq<ResolvedInput>,
    slots: SlotConfig,
    redeemer: TxRedeemer,
    table: DataLookupTable,
    models: Option<CostModelsView>,
) -> bool {
    match found_script(redeemer, tx, utxos, table) {
        Some(Ok(found)) => {
            ||| lacks_model(models, found.language)
            ||| language_info(found.language, tx, utxos, slots) matches Some(Err(_))
        },
        Some(Err(_)) => true,
        None => false,
    }
}

/// Whether there are cost models, and none for that language.
fn is_model_lacking(models: Option<&CostModels>, language: Language) -> (lacking: bool)
    ensures
        lacking == lacks_model(optional_models(models), language),
{
    match models {
        Some(models) => match language {
            Language::PlutusV1 => models.plutus_v1.is_none(),
            Language::PlutusV2 => models.plutus_v2.is_none(),
            Language::PlutusV3 => models.plutus_v3.is_none(),
        },
        None => false,
    }
}

/// Reports on a redeemer where it is certain beforehand that the evaluator returns:
/// the transaction can be described to scripts, and the script is refused before its
/// bytes are looked at. Whether the evaluator returns from a script's bytes or from its
/// run, only asking it can tell.
pub fn try_eval_redeemer(
    tx: &ConwayTx<'_>,
    utxos: &Vec<ResolvedInput>,
    slot_config: &SlotConfig,
    redeemer: &TxRedeemer,
    lookup_table: &DataLookupTable,
    cost_mdls_opt: Option<&CostModels>,
    initial_budget: &ExBudget,
) -> (report: Option<(EvalRedeemerResult, Option<Phase2Error>)>)
    ensures
        report is Some <==> {
            &&& info_sound(tx.decoded(), utxos@, *slot_config)
            &&& refused_early(
                tx.decoded(),
                utxos@,
                *slot_config,
                *redeemer,
                *lookup_table,
                optional_models(cost_mdls_opt),
            )
        },
        report matches Some(found) ==> redeemer_report(
            tx.decoded(),
            utxos@,
            *slot_config,
            *redeemer,
            *lookup_table,
            optional_models(cost_mdls_opt),
            *initial_budget,
        ) == Some(report_view(found)),
{
    if !is_info_sound(tx, utxos, slot_config) {
        return None;
    }
    let refused = match find_script(&pallas_redeemer(redeemer), tx.era_tx(), utxos, lookup_table) {
        Err(_) => true,
        Ok(found) => is_model_lacking(cost_mdls_opt, found.language) || build_info(
            found.language,
            tx,
            utxos,
            slot_config,
        ).is_err(),
    };
    if refused {
        Some(
            eval_redeemer(
                tx,
                utxos,
                slot_config,
                redeemer,
                lookup_table,
                cost_mdls_opt,
                initial_budget,
            ),
        )
    } else {
        None
    }
}

} // verus!
