//! What holds of the report on a redeemer, whatever its script.

use pallas_traverse::MultiEraTx;
use uplc::ast::{NamedDeBruijn, Program};
use uplc::tx::script_context::{ScriptContext, TxInfo};
use uplc::tx::{DataLookupTable, ResolvedInput};
use uplc::PlutusData;
use vstd::prelude::*;

use crate::common::{CostModelsView, ExUnits};
use crate::text::decimal;
use crate::validators::common::NetworkType;
use crate::validators::phase_2::errors::Phase2ErrorView;
use crate::validators::phase_2::eval_redeemer::{
    applied_program, language_costs, language_info, language_name, network_slots, redeemer_report,
    refused_early, refused_report, reported_tag, RedeemerReport,
};
use crate::validators::phase_2::evaluable::{
    address_kind, info_sound, output_forms, slot_fits, utxo_shape, validity_interval,
    withdrawal_accounts, AddressKind, Language, OutputForm, SlotConfig,
};
use crate::validators::phase_2::evaluation::{
    applied, context_data, costed_run, default_run, found_script, lacks_model, redeemer_context,
    script_program, tx_info_v1, tx_info_v2, tx_info_v3, EvaluationView, ExBudget, FoundScriptView,
};
use crate::validators::phase_2::transaction::{RedeemerTag, TxRedeemer};
use crate::validators::validation_result::RedeemerTag as ReportedTag;

verus! {

/// Whether a report agrees with itself and with its redeemer: it succeeds exactly
/// if it has no error, its text is that of the error, and the tag, the index and
/// the provided units are those of the redeemer.
pub open spec fn report_agrees(report: RedeemerReport, redeemer: TxRedeemer) -> bool {
    &&& report.0.success == (report.1 is None)
    &&& report.0.error == match report.1 {
        Some(error) => Some(error.message()),
        None => None,
    }
    &&& report.0.tag == reported_tag(redeemer.tag)
    &&& report.0.index == redeemer.index
    &&& report.0.provided_ex_units == redeemer.ex_units
}

/// Every report agrees with itself and with its redeemer.
pub proof fn reports_agree(
    tx: MultiEraTx<'_>,
    utxos: Seq<ResolvedInput>,
    slots: SlotConfig,
    redeemer: TxRedeemer,
    table: DataLookupTable,
    models: Option<CostModelsView>,
    budget: ExBudget,
)
    ensures
        redeemer_report(tx, utxos, slots, redeemer, table, models, budget) matches Some(report)
            ==> report_agrees(report, redeemer),
{
}

/// Unless the script itself fails, an error means that nothing was run: no units
/// and no logs.
pub proof fn refused_scripts_use_nothing(
    tx: MultiEraTx<'_>,
    utxos: Seq<ResolvedInput>,
    slots: SlotConfig,
    redeemer: TxRedeemer,
    table: DataLookupTable,
    models: Option<CostModelsView>,
    budget: ExBudget,
)
    ensures
        redeemer_report(tx, utxos, slots, redeemer, table, models, budget) matches Some((
            result,
            Some(error),
        )) ==> error is MachineError || {
            &&& result.calculated_ex_units == ExUnits { mem: 0, steps: 0 }
            &&& result.logs.len() == 0
            &&& (result, Some(error)) == refused_report(redeemer, error)
        },
{
}

/// The error of a script that was not run is that of the first step that fails: the
/// script is not found, has no cost model, cannot see the transaction, is no program.
pub proof fn first_failure_is_reported(
    tx: MultiEraTx<'_>,
    utxos: Seq<ResolvedInput>,
    slots: SlotConfig,
    redeemer: TxRedeemer,
    table: DataLookupTable,
    models: Option<CostModelsView>,
    budget: ExBudget,
)
    ensures
        ({
            let report = redeemer_report(tx, utxos, slots, redeemer, table, models, budget);
            match found_script(redeemer, tx, utxos, table) {
                Some(Err(error)) => report == Some(
                    refused_report(redeemer, Phase2ErrorView::MissingScriptForRedeemer { error }),
                ),
                Some(Ok(found)) => if lacks_model(models, found.language) {
                    report == Some(
                        refused_report(
                            redeemer,
                            Phase2ErrorView::CostModelNotFound {
                                language: language_name(found.language),
                            },
                        ),
                    )
                } else {
                    match (
                        language_info(found.language, tx, utxos, slots),
                        script_program(found.script),
                    ) {
                        (Some(Err(error)), _) => report == Some(
                            refused_report(
                                redeemer,
                                Phase2ErrorView::BuildTxContextError { error },
                            ),
                        ),
                        (Some(Ok(_)), Some(Err(error))) => report == Some(
                            refused_report(redeemer, Phase2ErrorView::ScriptDecodeError { error }),
                        ),
                        (Some(Ok(_)), Some(Ok(_))) => report matches Some((_, Some(error)))
                            ==> error is MachineError,
                        _ => report is None,
                    }
                },
                None => report is None,
            }
        }),
{
}

/// Without cost models no language is refused for want of one, and the budget plays
/// no part.
pub proof fn budget_needs_cost_models(
    tx: MultiEraTx<'_>,
    utxos: Seq<ResolvedInput>,
    slots: SlotConfig,
    redeemer: TxRedeemer,
    table: DataLookupTable,
    budget: ExBudget,
    other_budget: ExBudget,
)
    ensures
        redeemer_report(tx, utxos, slots, redeemer, table, None, budget) == redeemer_report(
            tx,
            utxos,
            slots,
            redeemer,
            table,
            None,
            other_budget,
        ),
        !(redeemer_report(tx, utxos, slots, redeemer, table, None, budget) matches Some((
            _,
            Some(error),
        )) && error is CostModelNotFound),
{
}

/// With cost models, a script that is found is refused for want of one exactly if
/// its language has none.
pub proof fn missing_cost_model_is_reported(
    tx: MultiEraTx<'_>,
    utxos: Seq<ResolvedInput>,
    slots: SlotConfig,
    redeemer: TxRedeemer,
    table: DataLookupTable,
    models: Option<CostModelsView>,
    budget: ExBudget,
)
    requires
        found_script(redeemer, tx, utxos, table) matches Some(Ok(_)),
    ensures
        ({
            let language = found_script(redeemer, tx, utxos, table)->0->Ok_0.language;
            (redeemer_report(tx, utxos, slots, redeemer, table, models, budget) matches Some((
                _,
                Some(error),
            )) && error == (Phase2ErrorView::CostModelNotFound {
                language: language_name(language),
            })) <==> lacks_model(models, language)
        }),
{
}

/// The cost models of other languages than that of the script play no part.
pub proof fn other_cost_models_do_not_matter(
    tx: MultiEraTx<'_>,
    utxos: Seq<ResolvedInput>,
    slots: SlotConfig,
    redeemer: TxRedeemer,
    table: DataLookupTable,
    models: CostModelsView,
    other_models: CostModelsView,
    budget: ExBudget,
)
    requires
        found_script(redeemer, tx, utxos, table) matches Some(Ok(found)) && language_costs(
            Some(models),
            found.language,
        ) == language_costs(Some(other_models), found.language),
    ensures
        redeemer_report(tx, utxos, slots, redeemer, table, Some(models), budget)
            == redeemer_report(tx, utxos, slots, redeemer, table, Some(other_models), budget),
{
}

/// A program of the third language version gets the datum and the redeemer through
/// the context alone.
pub proof fn third_version_sees_the_context_alone(
    program: Program<NamedDeBruijn>,
    datum: Option<PlutusData>,
    other_datum: Option<PlutusData>,
    redeemer: PlutusData,
    other_redeemer: PlutusData,
    context: PlutusData,
)
    ensures
        applied_program(program, Language::PlutusV3, datum, redeemer, context) == applied_program(
            program,
            Language::PlutusV3,
            other_datum,
            other_redeemer,
            context,
        ),
{
}

/// Different redeemer tags are reported under different tags.
pub proof fn reported_tags_differ(tag: RedeemerTag, other: RedeemerTag)
    ensures
        reported_tag(tag) == reported_tag(other) <==> tag == other,
{
}

/// A program of the first two language versions takes the datum, if there is one, then
/// the redeemer, then the context. To give a datum is to run without one the program that
/// has taken it.
pub proof fn arguments_are_in_order(
    program: Program<NamedDeBruijn>,
    language: Language,
    datum: PlutusData,
    redeemer: PlutusData,
    context: PlutusData,
)
    requires
        language != Language::PlutusV3,
    ensures
        applied_program(program, language, None, redeemer, context) == applied(
            applied(program, redeemer),
            context,
        ),
        applied_program(program, language, Some(datum), redeemer, context) == applied(
            applied(applied(program, datum), redeemer),
            context,
        ),
        applied_program(program, language, Some(datum), redeemer, context) == applied_program(
            applied(program, datum),
            language,
            None,
            redeemer,
            context,
        ),
{
}

/// A program of the third language version takes the context and nothing else.
pub proof fn third_version_takes_the_context(
    program: Program<NamedDeBruijn>,
    datum: Option<PlutusData>,
    redeemer: PlutusData,
    context: PlutusData,
)
    ensures
        applied_program(program, Language::PlutusV3, datum, redeemer, context) == applied(
            program,
            context,
        ),
{
}

/// The number of a language version.
pub open spec fn version(language: Language) -> nat {
    match language {
        Language::PlutusV1 => 1,
        Language::PlutusV2 => 2,
        Language::PlutusV3 => 3,
    }
}

/// The name of a language ends in the number of its version.
pub proof fn languages_are_named_by_their_version(language: Language)
    ensures
        language_name(language) == "PlutusV"@ + decimal(version(language)),
{
    reveal_strlit("PlutusV");
    reveal_strlit("PlutusV1");
    reveal_strlit("PlutusV2");
    reveal_strlit("PlutusV3");
    reveal_with_fuel(decimal, 2);
    assert(language_name(language) =~= "PlutusV"@ + decimal(version(language)));
}

/// Whether a number is the amount as it is reported: the amount itself, or, below zero,
/// what is left of it modulo two to the sixty-fourth.
pub open spec fn reports_amount(reported: u64, amount: i64) -> bool {
    reported == if amount >= 0 {
        amount as int
    } else {
        amount + 0x1_0000_0000_0000_0000
    }
}

/// Every redeemer that is reported on keeps its tag.
pub proof fn tags_are_kept(tag: RedeemerTag)
    ensures
        tag is Spend <==> reported_tag(tag) is Spend,
        tag is Mint <==> reported_tag(tag) is Mint,
        tag is Cert <==> reported_tag(tag) is Cert,
        tag is Reward <==> reported_tag(tag) is Reward,
        tag is Vote <==> reported_tag(tag) is Vote,
        tag is Propose <==> reported_tag(tag) is Propose,
{
}

/// Whether the name of a tag in a report is that of the redeemer's tag.
pub open spec fn same_tag(tag: RedeemerTag, reported: ReportedTag) -> bool {
    match reported {
        ReportedTag::Spend => tag is Spend,
        ReportedTag::Mint => tag is Mint,
        ReportedTag::Cert => tag is Cert,
        ReportedTag::Reward => tag is Reward,
        ReportedTag::Vote => tag is Vote,
        ReportedTag::Propose => tag is Propose,
    }
}

/// A script that is found, has its costs, sees the transaction and is a program is run on
/// its arguments: at the given costs of its language within the given budget, or without
/// cost models at the evaluator's costs within the largest budget. The report is what
/// came of it: the measured units whatever the redeemer declares, the logs, and an error
/// exactly if the run has one.
pub proof fn run_is_reported(
    tx: MultiEraTx<'_>,
    utxos: Seq<ResolvedInput>,
    slots: SlotConfig,
    redeemer: TxRedeemer,
    table: DataLookupTable,
    models: Option<CostModelsView>,
    budget: ExBudget,
    found: FoundScriptView,
    info: TxInfo,
    program: Program<NamedDeBruijn>,
    context: ScriptContext,
    shown: PlutusData,
    evaluation: EvaluationView,
)
    requires
        found_script(redeemer, tx, utxos, table) == Some(Ok::<FoundScriptView, Seq<char>>(found)),
        match found.language {
            Language::PlutusV1 => tx_info_v1(tx, utxos, slots),
            Language::PlutusV2 => tx_info_v2(tx, utxos, slots),
            Language::PlutusV3 => tx_info_v3(tx, utxos, slots),
        } == Some(Ok::<TxInfo, Seq<char>>(info)),
        script_program(found.script) == Some(
            Ok::<Program<NamedDeBruijn>, Seq<char>>(program),
        ),
        redeemer_context(info, redeemer, found.datum) == Some(context),
        context_data(context) == Some(shown),
        ({
            let arguments = match (found.language, found.datum) {
                (Language::PlutusV3, _) => applied(program, shown),
                (_, Some(datum)) => applied(
                    applied(applied(program, datum), redeemer.data),
                    shown,
                ),
                (_, None) => applied(applied(program, redeemer.data), shown),
            };
            match models {
                None => default_run(
                    arguments,
                    found.language,
                    ExBudget { mem: 14000000000000, cpu: 10000000000000 },
                ) == Some(evaluation),
                Some(models) => {
                    let costs = match found.language {
                        Language::PlutusV1 => models.plutus_v1,
                        Language::PlutusV2 => models.plutus_v2,
                        Language::PlutusV3 => models.plutus_v3,
                    };
                    &&& costs matches Some(costs)
                    &&& costed_run(arguments, found.language, costs, budget) == Some(evaluation)
                },
            }
        }),
    ensures
        redeemer_report(tx, utxos, slots, redeemer, table, models, budget) matches Some((
            result,
            error,
        )) && {
            &&& same_tag(redeemer.tag, result.tag)
            &&& result.index == redeemer.index
            &&& result.provided_ex_units == redeemer.ex_units
            &&& reports_amount(result.calculated_ex_units.mem, evaluation.cost.mem)
            &&& reports_amount(result.calculated_ex_units.steps, evaluation.cost.cpu)
            &&& result.logs == evaluation.logs
            &&& match evaluation.error {
                None => error is None && result.error is None && result.success,
                Some(text) => {
                    &&& error == Some(Phase2ErrorView::MachineError { error: text })
                    &&& result.error == Some("Machine error: "@ + text)
                    &&& !result.success
                },
            }
        },
{
    let mem = evaluation.cost.mem;
    let cpu = evaluation.cost.cpu;
    assert(mem < 0i64 ==> mem as u64 == mem + 0x1_0000_0000_0000_0000) by (bit_vector);
    assert(cpu < 0i64 ==> cpu as u64 == cpu + 0x1_0000_0000_0000_0000) by (bit_vector);
}

/// A script that is not run is reported with its redeemer, no units, no logs, and the
/// reason in words, which ends in what the failing step said.
pub proof fn refusals_say_why(
    tx: MultiEraTx<'_>,
    utxos: Seq<ResolvedInput>,
    slots: SlotConfig,
    redeemer: TxRedeemer,
    table: DataLookupTable,
    models: Option<CostModelsView>,
    budget: ExBudget,
)
    ensures
        redeemer_report(tx, utxos, slots, redeemer, table, models, budget) matches Some((
            result,
            Some(error),
        )) ==> {
            &&& same_tag(redeemer.tag, result.tag)
            &&& result.index == redeemer.index
            &&& result.provided_ex_units == redeemer.ex_units
            &&& !result.success
            &&& !(error is MachineError) ==> {
                &&& result.calculated_ex_units.mem == 0
                &&& result.calculated_ex_units.steps == 0
                &&& result.logs.len() == 0
            }
            &&& result.error == Some(
                match error {
                    Phase2ErrorView::MachineError { error } => "Machine error: "@ + error,
                    Phase2ErrorView::MissingScriptForRedeemer { error } => {
                        "Missing script for redeemer: "@ + error
                    },
                    Phase2ErrorView::CostModelNotFound { language } => {
                        "Cost model not found for language: "@ + language
                    },
                    Phase2ErrorView::BuildTxContextError { error } => {
                        "Failed to build transaction context: "@ + error
                    },
                    Phase2ErrorView::ScriptDecodeError { error } => {
                        "Failed to decode script: "@ + error
                    },
                },
            )
        },
{
}

/// The first step that fails decides the error, and its text is the one of that step: the
/// script is looked for, then its costs, then what it sees of the transaction, then its
/// program.
pub proof fn failing_step_is_named(
    tx: MultiEraTx<'_>,
    utxos: Seq<ResolvedInput>,
    slots: SlotConfig,
    redeemer: TxRedeemer,
    table: DataLookupTable,
    models: Option<CostModelsView>,
    budget: ExBudget,
)
    ensures
        ({
            let report = redeemer_report(tx, utxos, slots, redeemer, table, models, budget);
            match found_script(redeemer, tx, utxos, table) {
                None => report is None,
                Some(Err(text)) => report matches Some((_, Some(error))) && error == (
                Phase2ErrorView::MissingScriptForRedeemer { error: text }),
                Some(Ok(found)) => {
                    let (info, costs) = match found.language {
                        Language::PlutusV1 => (
                            tx_info_v1(tx, utxos, slots),
                            models matches Some(models) ==> models.plutus_v1 is Some,
                        ),
                        Language::PlutusV2 => (
                            tx_info_v2(tx, utxos, slots),
                            models matches Some(models) ==> models.plutus_v2 is Some,
                        ),
                        Language::PlutusV3 => (
                            tx_info_v3(tx, utxos, slots),
                            models matches Some(models) ==> models.plutus_v3 is Some,
                        ),
                    };
                    if !costs {
                        report matches Some((_, Some(error))) && error == (
                        Phase2ErrorView::CostModelNotFound {
                            language: "PlutusV"@ + decimal(version(found.language)),
                        })
                    } else {
                        match (info, script_program(found.script)) {
                            (Some(Err(text)), _) => report matches Some((_, Some(error)))
                                && error == (Phase2ErrorView::BuildTxContextError { error: text }),
                            (Some(Ok(_)), Some(Err(text))) => report matches Some((
                                _,
                                Some(error),
                            )) && error == (Phase2ErrorView::ScriptDecodeError { error: text }),
                            (Some(Ok(_)), Some(Ok(_))) => report matches Some((_, Some(error)))
                                ==> error is MachineError,
                            _ => report is None,
                        }
                    }
                },
            }
        }),
{
    if let Some(Ok(found)) = found_script(redeemer, tx, utxos, table) {
        languages_are_named_by_their_version(found.language);
    }
}

/// A script is run only for a redeemer of the transaction, and only where the evaluator
/// returns: then there is a report.
pub proof fn reports_come_from_runs(
    tx: MultiEraTx<'_>,
    utxos: Seq<ResolvedInput>,
    slots: SlotConfig,
    redeemer: TxRedeemer,
    table: DataLookupTable,
    models: Option<CostModelsView>,
    budget: ExBudget,
    found: FoundScriptView,
    info: TxInfo,
)
    requires
        found_script(redeemer, tx, utxos, table) == Some(Ok::<FoundScriptView, Seq<char>>(found)),
        match found.language {
            Language::PlutusV1 => tx_info_v1(tx, utxos, slots),
            Language::PlutusV2 => tx_info_v2(tx, utxos, slots),
            Language::PlutusV3 => tx_info_v3(tx, utxos, slots),
        } == Some(Ok::<TxInfo, Seq<char>>(info)),
        redeemer_report(tx, utxos, slots, redeemer, table, models, budget) matches Some((_, error))
            && (error is None || error->0 is MachineError),
    ensures
        redeemer_context(info, redeemer, found.datum) matches Some(context) && context_data(
            context,
        ) is Some,
{
}

/// The time of a slot on a network, in milliseconds.
pub open spec fn slot_time(network: NetworkType, slot: int) -> int {
    let slots = network_slots(network);
    slots.zero_time + (slot - slots.zero_slot) * slots.slot_length
}

/// On every network a slot lasts a second.
pub proof fn slots_last_a_second(network: NetworkType, slot: int)
    ensures
        slot_time(network, slot + 1) == slot_time(network, slot) + 1000,
        slot_time(network, network_slots(network).zero_slot as int) == network_slots(
            network,
        ).zero_time,
{
    assert((slot + 1 - network_slots(network).zero_slot) * 1000 == (slot
        - network_slots(network).zero_slot) * 1000 + 1000);
}

/// When each network's slots of one second begin to be counted.
pub proof fn networks_have_their_times(slot: int)
    ensures
        slot_time(NetworkType::Mainnet, slot) == 1596059091000 + (slot - 4492800) * 1000,
        slot_time(NetworkType::Preview, slot) == 1666656000000 + slot * 1000,
        slot_time(NetworkType::Preprod, slot) == 1655769600000 + (slot - 86400) * 1000,
{
}

/// A slot fits exactly if its time, where it is not before the first slot, is a number
/// that the evaluator can hold.
pub proof fn fitting_slots_have_a_time(network: NetworkType, slot: u64)
    ensures
        slot_fits(Some(slot), network_slots(network)) <==> slot < network_slots(network).zero_slot
            || slot_time(network, slot as int) <= u64::MAX,
{
}

/// Exactly those refusals are certain beforehand that come before the bytes of the script
/// are looked at.
pub proof fn early_refusals_come_before_the_bytes(
    tx: MultiEraTx<'_>,
    utxos: Seq<ResolvedInput>,
    slots: SlotConfig,
    redeemer: TxRedeemer,
    table: DataLookupTable,
    models: Option<CostModelsView>,
    budget: ExBudget,
)
    ensures
        refused_early(tx, utxos, slots, redeemer, table, models) <==> (redeemer_report(
            tx,
            utxos,
            slots,
            redeemer,
            table,
            models,
            budget,
        ) matches Some((_, Some(error))) && (error is MissingScriptForRedeemer
            || error is CostModelNotFound || error is BuildTxContextError)),
{
}

/// A transaction can surely be described to scripts exactly if every withdrawal is from a
/// stake address, every output that it spends or refers to has an address and the newer
/// form, as have its own outputs, and both ends of its validity have a time.
pub proof fn describable_transactions(
    tx: MultiEraTx<'_>,
    utxos: Seq<ResolvedInput>,
    slots: SlotConfig,
)
    ensures
        info_sound(tx, utxos, slots) <==> {
            &&& forall|i: int|
                0 <= i < withdrawal_accounts(tx).len() ==> address_kind(
                    #[trigger] withdrawal_accounts(tx)[i],
                ) == Some(AddressKind::Stake)
            &&& forall|i: int|
                0 <= i < utxos.len() ==> address_kind(
                    utxo_shape(#[trigger] utxos[i]).address,
                ) is Some && utxo_shape(utxos[i]).form is PostAlonzo
            &&& forall|i: int|
                0 <= i < output_forms(tx).len() ==> (#[trigger] output_forms(tx)[i]) is PostAlonzo
            &&& slot_fits(validity_interval(tx).start, slots)
            &&& slot_fits(validity_interval(tx).end, slots)
        },
{
    if output_forms(tx).contains(OutputForm::Legacy) {
        let i = choose|i: int|
            0 <= i < output_forms(tx).len() && output_forms(tx)[i] == OutputForm::Legacy;
        assert(!(output_forms(tx)[i] is PostAlonzo));
    }
    if exists|i: int|
        0 <= i < output_forms(tx).len() && !((#[trigger] output_forms(tx)[i]) is PostAlonzo) {
        let i = choose|i: int|
            0 <= i < output_forms(tx).len() && !((#[trigger] output_forms(tx)[i]) is PostAlonzo);
        assert(output_forms(tx)[i] == OutputForm::Legacy);
        assert(output_forms(tx).contains(OutputForm::Legacy));
    }
}

} // verus!
