//! The steps of the script evaluator. Some of its functions stop the program on some
//! inputs instead of answering. The name of such a function's result is then `None`,
//! and the function is asked only where it has one. An input counts as answered if the
//! function returns on every machine, whether arithmetic is checked for overflow or not.

use pallas_primitives::conway;
use pallas_primitives::conway::Language as PallasLanguage;
use pallas_traverse::MultiEraTx;
use uplc::ast::{FakeNamedDeBruijn, NamedDeBruijn, Program};
use uplc::machine::cost_model::ExBudget as UplcBudget;
use uplc::tx::eval::eval_redeemer;
use uplc::tx::script_context::{PlutusScript, ScriptContext, TxInfo, TxInfoV1, TxInfoV2, TxInfoV3};
use uplc::tx::to_plutus_data::ToPlutusData;
use uplc::tx::{eval_phase_one, DataLookupTable, ResolvedInput, SlotConfig as UplcSlots};
use uplc::PlutusData;
use vstd::multiset::Multiset;
use vstd::prelude::*;

use crate::common::{optional_models, CostModels, CostModelsView, ExUnits};
use crate::validators::phase_2::evaluable::{
    all_stake, info_sound, lookup_sound, withdrawal_accounts, Language, SlotConfig,
};
use crate::validators::phase_2::transaction::{is_conway, redeemer_content, TxRedeemer};

verus! {

/// `uplc::tx::DataLookupTable`, the scripts and datums by their hashes.
#[verifier::external_type_specification]
#[verifier::external_body]
pub struct ExDataLookupTable(uplc::tx::DataLookupTable);

/// `uplc::tx::script_context::TxInfo`, a transaction as scripts see it.
#[verifier::external_type_specification]
#[verifier::external_body]
pub struct ExTxInfo(uplc::tx::script_context::TxInfo);

/// `uplc::tx::script_context::ScriptContext`, a transaction and what a script is run
/// for.
#[verifier::external_type_specification]
#[verifier::external_body]
pub struct ExScriptContext(uplc::tx::script_context::ScriptContext);

/// `uplc::ast::Program`, a script.
#[verifier::external_type_specification]
#[verifier::external_body]
#[verifier::reject_recursive_types(T)]
pub struct ExProgram<T>(uplc::ast::Program<T>);

/// `uplc::ast::NamedDeBruijn`, a variable of a script.
#[verifier::external_type_specification]
#[verifier::external_body]
pub struct ExNamedDeBruijn(uplc::ast::NamedDeBruijn);

/// What a script may use, or has used.
#[derive(Clone, Copy, Debug, PartialEq, Eq, Structural)]
pub struct ExBudget {
    pub mem: i64,
    pub cpu: i64,
}

/// A script, its language, and the datum that it is to be applied to, if any.
#[derive(Debug)]
pub struct FoundScript {
    pub language: Language,
    pub script: Vec<u8>,
    pub datum: Option<PlutusData>,
}

/// A script that was found, with its bytes taken by their view.
#[verifier::ext_equal]
pub struct FoundScriptView {
    pub language: Language,
    pub script: Seq<u8>,
    pub datum: Option<PlutusData>,
}

impl View for FoundScript {
    type V = FoundScriptView;

    open spec fn view(&self) -> FoundScriptView {
        FoundScriptView { language: self.language, script: self.script@, datum: self.datum }
    }
}

/// The outcome of a script run: what it used, what it logged, and the text of its
/// error, if it failed.
#[derive(Debug)]
pub struct Evaluation {
    pub cost: ExBudget,
    pub logs: Vec<String>,
    pub error: Option<String>,
}

/// The outcome of a script run, taken by its view.
#[verifier::ext_equal]
pub struct EvaluationView {
    pub cost: ExBudget,
    pub logs: Seq<Seq<char>>,
    pub error: Option<Seq<char>>,
}

/// Texts, taken by their views.
pub open spec fn text_views(texts: Seq<String>) -> Seq<Seq<char>> {
    Seq::new(texts.len(), |i: int| texts[i]@)
}

/// A text that may be missing, taken by its view.
pub open spec fn optional_text(text: Option<String>) -> Option<Seq<char>> {
    match text {
        Some(text) => Some(text@),
        None => None,
    }
}

impl View for Evaluation {
    type V = EvaluationView;

    open spec fn view(&self) -> EvaluationView {
        EvaluationView {
            cost: self.cost,
            logs: text_views(self.logs@),
            error: optional_text(self.error),
        }
    }
}

/// A value that may be missing.
pub open spec fn optional_data(data: Option<&PlutusData>) -> Option<PlutusData> {
    match data {
        Some(data) => Some(*data),
        None => None,
    }
}

/// The scripts and datums that come with a transaction and with the outputs that it spends
/// or refers to. A table is taken for what stands in it under each hash; the order in
/// which it is walked is no part of it.
pub uninterp spec fn transaction_table(
    tx: pallas_traverse::MultiEraTx<'_>,
    utxos: Seq<uplc::tx::ResolvedInput>,
) -> uplc::tx::DataLookupTable;

/// The script that a redeemer of a transaction is for, by a table of scripts and
/// datums, or the text of the error. `None` where `script_context::find_script` does not
/// return: an address does not decode, a withdrawal is not from a stake address, or a
/// legacy output holds none of a token.
pub uninterp spec fn found_script(
    redeemer: TxRedeemer,
    tx: pallas_traverse::MultiEraTx<'_>,
    utxos: Seq<uplc::tx::ResolvedInput>,
    table: uplc::tx::DataLookupTable,
) -> Option<Result<FoundScriptView, Seq<char>>>;

/// What scripts of the first language version see of a transaction, or the text of the
/// error. `None` where `TxInfoV1::from_transaction` does not return: an address does not
/// decode, one of several withdrawals is not from a stake address, a legacy output holds
/// none of a token, or a time does not fit.
pub uninterp spec fn tx_info_v1(
    tx: pallas_traverse::MultiEraTx<'_>,
    utxos: Seq<uplc::tx::ResolvedInput>,
    slots: SlotConfig,
) -> Option<Result<uplc::tx::script_context::TxInfo, Seq<char>>>;

/// What scripts of the second language version see of a transaction, or the text of the
/// error. `None` where `TxInfoV2::from_transaction` does not return: an address does not
/// decode, one of several withdrawals is not from a stake address, a legacy output holds
/// none of a token, or a time does not fit.
pub uninterp spec fn tx_info_v2(
    tx: pallas_traverse::MultiEraTx<'_>,
    utxos: Seq<uplc::tx::ResolvedInput>,
    slots: SlotConfig,
) -> Option<Result<uplc::tx::script_context::TxInfo, Seq<char>>>;

/// What scripts of the third language version see of a transaction, or the text of the
/// error. `None` where `TxInfoV3::from_transaction` does not return: an address does not
/// decode, one of several withdrawals is not from a stake address, a legacy output holds
/// none of a token, or a time does not fit.
pub uninterp spec fn tx_info_v3(
    tx: pallas_traverse::MultiEraTx<'_>,
    utxos: Seq<uplc::tx::ResolvedInput>,
    slots: SlotConfig,
) -> Option<Result<uplc::tx::script_context::TxInfo, Seq<char>>>;

/// A transaction with what the script of a redeemer is run for; nothing where the
/// transaction has no such redeemer.
pub uninterp spec fn redeemer_context(
    info: uplc::tx::script_context::TxInfo,
    redeemer: TxRedeemer,
    datum: Option<uplc::PlutusData>,
) -> Option<uplc::tx::script_context::ScriptContext>;

/// A context as a value. `None` where `ScriptContext::to_plutus_data` does not return: the
/// language version cannot show an address, a certificate or a proposal of the
/// transaction.
pub uninterp spec fn context_data(context: uplc::tx::script_context::ScriptContext) -> Option<
    uplc::PlutusData,
>;

/// The program that the bytes of a script encode, or the text of the error. `None` where
/// `Program::from_cbor` does not return: the bytes end where a boolean should begin, or a
/// number in them does not fit.
pub uninterp spec fn script_program(script: Seq<u8>) -> Option<
    Result<uplc::ast::Program<uplc::ast::NamedDeBruijn>, Seq<char>>,
>;

/// A program applied to a value.
pub uninterp spec fn applied(
    program: uplc::ast::Program<uplc::ast::NamedDeBruijn>,
    data: uplc::PlutusData,
) -> uplc::ast::Program<uplc::ast::NamedDeBruijn>;

/// The outcome of running a program at given costs within a budget. `None` where
/// `Program::eval_as` does not return: an argument of a builtin function does not fit the
/// machine, or a cost, a sum of costs or a difference of budgets does not fit `i64`.
pub uninterp spec fn costed_run(
    program: uplc::ast::Program<uplc::ast::NamedDeBruijn>,
    language: Language,
    costs: Seq<i64>,
    budget: ExBudget,
) -> Option<EvaluationView>;

/// The outcome of running a program at the evaluator's own costs within a budget. `None`
/// where `Program::eval_version` does not return, for the same reasons.
pub uninterp spec fn default_run(
    program: uplc::ast::Program<uplc::ast::NamedDeBruijn>,
    language: Language,
    budget: ExBudget,
) -> Option<EvaluationView>;

/// The units that the evaluator finds a redeemer's script to use, by a table of scripts
/// and datums, or the text of its error. `None` where `eval::eval_redeemer` does not
/// return: one of the steps above that it takes does not.
pub uninterp spec fn redeemer_units(
    tx: pallas_traverse::MultiEraTx<'_>,
    utxos: Seq<uplc::tx::ResolvedInput>,
    slots: SlotConfig,
    redeemer: TxRedeemer,
    table: uplc::tx::DataLookupTable,
    cost_models: Option<CostModelsView>,
    budget: ExBudget,
) -> Option<Result<ExUnits, Seq<char>>>;

/// Whether every input of the transaction is among the unspent outputs, and the
/// transaction has the scripts and redeemers that it needs, and no others; else what is
/// wrong. `None` where `eval_phase_one` does not return: a withdrawal is not from a stake
/// address.
pub uninterp spec fn phase_one(
    tx: pallas_traverse::MultiEraTx<'_>,
    utxos: Seq<uplc::tx::ResolvedInput>,
    table: uplc::tx::DataLookupTable,
) -> Option<Result<(), PhaseOneFailure>>;

/// What phase one finds wrong.
#[verifier::ext_equal]
pub enum PhaseOneFailure {
    /// The scripts are not those that the transaction needs: `missing` are the hashes of
    /// those that are not there, in the order in which they are needed, `unexpected` the
    /// hashes of those that are there and not needed.
    Scripts { missing: Seq<Seq<char>>, unexpected: Multiset<Seq<char>> },
    /// Anything else, with its text.
    Other { text: Seq<char> },
}

/// Lines of a list, or the sign for none.
pub open spec fn lines(texts: Seq<Seq<char>>) -> Seq<char>
    decreases texts.len(),
{
    if texts.len() == 0 {
        "ø"@
    } else if texts.len() == 1 {
        texts[0]
    } else {
        lines(texts.drop_last()) + "\n              "@ + texts.last()
    }
}

/// The text on scripts that are missing or unexpected.
pub open spec fn mismatch_text(missing: Seq<Seq<char>>, unexpected: Seq<Seq<char>>) -> Seq<char> {
    "missing and/or unexpected validator(s) and/or redeemer(s)\n      Missing "@ + lines(missing)
        + "\n   Unexpected "@ + lines(unexpected)
}

impl PhaseOneFailure {
    /// Whether a text is that of the failure. Unexpected scripts are listed in it in some
    /// order.
    pub open spec fn has_text(self, text: Seq<char>) -> bool {
        match self {
            PhaseOneFailure::Scripts { missing, unexpected } => {
                exists|order: Seq<Seq<char>>|
                    {
                        &&& #[trigger] order.to_multiset() == unexpected
                        &&& text == mismatch_text(missing, order)
                    }
            },
            PhaseOneFailure::Other { text: fixed } => text == fixed,
        }
    }
}

/// Whether phase one passes, or its message is that of the failure.
pub open spec fn phase_one_told(
    passed: Result<(), String>,
    outcome: Option<Result<(), PhaseOneFailure>>,
) -> bool {
    match (passed, outcome) {
        (Ok(_), Some(Ok(_))) => true,
        (Err(message), Some(Err(failure))) => failure.has_text(message@),
        _ => false,
    }
}

/// A result with a message, the message taken by its view.
pub open spec fn text_result<T>(result: Result<T, String>) -> Result<T, Seq<char>> {
    match result {
        Ok(value) => Ok(value),
        Err(message) => Err(message@),
    }
}

/// A script that was looked for, taken by its view.
pub open spec fn found_result(found: Result<FoundScript, String>) -> Result<
    FoundScriptView,
    Seq<char>,
> {
    match found {
        Ok(found) => Ok(found@),
        Err(message) => Err(message@),
    }
}

/// `DataLookupTable::from_transaction`: the scripts and datums by their hashes.
#[verifier::external_body]
pub(crate) fn build_lookup_table(tx: &MultiEraTx<'_>, utxos: &Vec<ResolvedInput>) -> (table:
    DataLookupTable)
    requires
        is_conway(*tx),
    ensures
        table == transaction_table(*tx, utxos@),
{
    DataLookupTable::from_transaction(tx.as_conway().unwrap(), utxos)
}

/// `script_context::find_script`: the script with its language and datum, or the text of
/// the error.
#[verifier::external_body]
pub(crate) fn find_script(
    redeemer: &conway::Redeemer,
    tx: &MultiEraTx<'_>,
    utxos: &Vec<ResolvedInput>,
    table: &DataLookupTable,
) -> (found: Result<FoundScript, String>)
    requires
        is_conway(*tx),
        lookup_sound(*tx, utxos@) || found_script(
            redeemer_content(*redeemer),
            *tx,
            utxos@,
            *table,
        ) is Some,
    ensures
        found_script(redeemer_content(*redeemer), *tx, utxos@, *table) == Some(found_result(found)),
{
    let tx = tx.as_conway().unwrap();
    let found = uplc::tx::script_context::find_script(redeemer, tx, utxos, table);
    let (script, datum) = found.map_err(|error| error.to_string())?;
    let language = match script {
        PlutusScript::V1(_) => Language::PlutusV1,
        PlutusScript::V2(_) => Language::PlutusV2,
        PlutusScript::V3(_) => Language::PlutusV3,
    };
    Ok(FoundScript { language, script: script.to_vec(), datum })
}

/// `TxInfoV1::from_transaction`: the transaction as scripts see it, or the text of the
/// error.
#[verifier::external_body]
pub(crate) fn build_info_v1(
    tx: &MultiEraTx<'_>,
    utxos: &Vec<ResolvedInput>,
    slots: &SlotConfig,
) -> (info: Result<TxInfo, String>)
    requires
        is_conway(*tx),
        info_sound(*tx, utxos@, *slots) || tx_info_v1(*tx, utxos@, *slots) is Some,
    ensures
        tx_info_v1(*tx, utxos@, *slots) == Some(text_result(info)),
{
    let SlotConfig { slot_length, zero_slot, zero_time } = *slots;
    let slots = UplcSlots { slot_length, zero_slot, zero_time };
    TxInfoV1::from_transaction(tx.as_conway().unwrap(), utxos, &slots).map_err(
        |error| error.to_string(),
    )
}

/// `TxInfoV2::from_transaction`: the transaction as scripts see it, or the text of the
/// error.
#[verifier::external_body]
pub(crate) fn build_info_v2(
    tx: &MultiEraTx<'_>,
    utxos: &Vec<ResolvedInput>,
    slots: &SlotConfig,
) -> (info: Result<TxInfo, String>)
    requires
        is_conway(*tx),
        info_sound(*tx, utxos@, *slots) || tx_info_v2(*tx, utxos@, *slots) is Some,
    ensures
        tx_info_v2(*tx, utxos@, *slots) == Some(text_result(info)),
{
    let SlotConfig { slot_length, zero_slot, zero_time } = *slots;
    let slots = UplcSlots { slot_length, zero_slot, zero_time };
    TxInfoV2::from_transaction(tx.as_conway().unwrap(), utxos, &slots).map_err(
        |error| error.to_string(),
    )
}

/// `TxInfoV3::from_transaction`: the transaction as scripts see it, or the text of the
/// error.
#[verifier::external_body]
pub(crate) fn build_info_v3(
    tx: &MultiEraTx<'_>,
    utxos: &Vec<ResolvedInput>,
    slots: &SlotConfig,
) -> (info: Result<TxInfo, String>)
    requires
        is_conway(*tx),
        info_sound(*tx, utxos@, *slots) || tx_info_v3(*tx, utxos@, *slots) is Some,
    ensures
        tx_info_v3(*tx, utxos@, *slots) == Some(text_result(info)),
{
    let SlotConfig { slot_length, zero_slot, zero_time } = *slots;
    let slots = UplcSlots { slot_length, zero_slot, zero_time };
    TxInfoV3::from_transaction(tx.as_conway().unwrap(), utxos, &slots).map_err(
        |error| error.to_string(),
    )
}

/// `TxInfo::into_script_context`: the transaction with what the redeemer's script is run
/// for, if the transaction has such a redeemer.
#[verifier::external_body]
pub(crate) fn build_context(
    info: TxInfo,
    redeemer: &conway::Redeemer,
    datum: Option<&PlutusData>,
) -> (context: Option<ScriptContext>)
    ensures
        context == redeemer_context(info, redeemer_content(*redeemer), optional_data(datum)),
{
    info.into_script_context(redeemer, datum)
}

/// `ScriptContext::to_plutus_data`: the context as a value.
#[verifier::external_body]
pub(crate) fn context_to_data(context: &ScriptContext) -> (data: PlutusData)
    requires
        context_data(*context) is Some,
    ensures
        context_data(*context) == Some(data),
{
    context.to_plutus_data()
}

/// `Program::from_cbor`: the program, or the text of the decoder's error.
#[verifier::external_body]
pub(crate) fn decode_program(script: &Vec<u8>) -> (program: Result<Program<NamedDeBruijn>, String>)
    requires
        script_program(script@) is Some,
    ensures
        script_program(script@) == Some(text_result(program)),
{
    let mut buffer = Vec::new();
    Program::<FakeNamedDeBruijn>::from_cbor(script, &mut buffer).map(
        Into::<Program<NamedDeBruijn>>::into,
    ).map_err(|error| error.to_string())
}

/// `Program::apply_data`: the program applied to the value.
#[verifier::external_body]
pub(crate) fn apply_data(program: &Program<NamedDeBruijn>, data: &PlutusData) -> (result: Program<
    NamedDeBruijn,
>)
    ensures
        result == applied(*program, *data),
{
    program.apply_data(data.clone())
}

/// `Program::eval_as`, and of its result the cost, the logs, and the text of the
/// error, if there is one.
#[verifier::external_body]
pub(crate) fn eval_as(
    program: Program<NamedDeBruijn>,
    language: Language,
    costs: &Vec<i64>,
    budget: &ExBudget,
) -> (evaluation: Evaluation)
    requires
        costed_run(program, language, costs@, *budget) is Some,
    ensures
        costed_run(program, language, costs@, *budget) == Some(evaluation@),
{
    let language = match language {
        Language::PlutusV1 => PallasLanguage::PlutusV1,
        Language::PlutusV2 => PallasLanguage::PlutusV2,
        Language::PlutusV3 => PallasLanguage::PlutusV3,
    };
    let budget = UplcBudget { mem: budget.mem, cpu: budget.cpu };
    let result = program.eval_as(&language, costs, Some(&budget));
    let UplcBudget { mem, cpu } = result.cost();
    let error = result.result().err().map(|error| error.to_string());
    Evaluation { cost: ExBudget { mem, cpu }, logs: result.logs(), error }
}

/// `Program::eval_version`, and of its result the cost, the logs, and the text of the
/// error, if there is one.
#[verifier::external_body]
pub(crate) fn eval_version(
    program: Program<NamedDeBruijn>,
    language: Language,
    budget: &ExBudget,
) -> (evaluation: Evaluation)
    requires
        default_run(program, language, *budget) is Some,
    ensures
        default_run(program, language, *budget) == Some(evaluation@),
{
    let language = match language {
        Language::PlutusV1 => PallasLanguage::PlutusV1,
        Language::PlutusV2 => PallasLanguage::PlutusV2,
        Language::PlutusV3 => PallasLanguage::PlutusV3,
    };
    let budget = UplcBudget { mem: budget.mem, cpu: budget.cpu };
    let result = program.eval_version(budget, &language);
    let UplcBudget { mem, cpu } = result.cost();
    let error = result.result().err().map(|error| error.to_string());
    Evaluation { cost: ExBudget { mem, cpu }, logs: result.logs(), error }
}

/// `ExBudget::max`: the largest budget.
#[verifier::external_body]
pub(crate) fn max_budget() -> (budget: ExBudget)
    ensures
        budget == (ExBudget { mem: 14000000000000, cpu: 10000000000000 }),
{
    let UplcBudget { mem, cpu } = UplcBudget::max();
    ExBudget { mem, cpu }
}

/// `ExBudget::default`: the budget of a transaction on the main network.
#[verifier::external_body]
pub(crate) fn default_budget() -> (budget: ExBudget)
    ensures
        budget == (ExBudget { mem: 16500000, cpu: 10000000000 }),
{
    let UplcBudget { mem, cpu } = UplcBudget::default();
    ExBudget { mem, cpu }
}

/// Whether there are cost models, and none for that language.
pub open spec fn lacks_model(models: Option<CostModelsView>, language: Language) -> bool {
    match models {
        Some(models) => match language {
            Language::PlutusV1 => models.plutus_v1 is None,
            Language::PlutusV2 => models.plutus_v2 is None,
            Language::PlutusV3 => models.plutus_v3 is None,
        },
        None => false,
    }
}

/// `uplc::tx::eval::eval_redeemer`: the units of the redeemer that it gives back, or the
/// text of the error.
#[verifier::external_body]
pub(crate) fn evaluate_units(
    tx: &MultiEraTx<'_>,
    utxos: &Vec<ResolvedInput>,
    slots: &SlotConfig,
    redeemer: &conway::Redeemer,
    table: &DataLookupTable,
    models: Option<&CostModels>,
    budget: &ExBudget,
) -> (units: Result<ExUnits, String>)
    requires
        is_conway(*tx),
        redeemer_units(
            *tx,
            utxos@,
            *slots,
            redeemer_content(*redeemer),
            *table,
            optional_models(models),
            *budget,
        ) is Some,
    ensures
        redeemer_units(
            *tx,
            utxos@,
            *slots,
            redeemer_content(*redeemer),
            *table,
            optional_models(models),
            *budget,
        ) == Some(text_result(units)),
{
    let SlotConfig { slot_length, zero_slot, zero_time } = *slots;
    let slots = UplcSlots { slot_length, zero_slot, zero_time };
    let budget = UplcBudget { mem: budget.mem, cpu: budget.cpu };
    let models = models.map(|models| conway::CostModels {
        plutus_v1: models.plutus_v1.clone(),
        plutus_v2: models.plutus_v2.clone(),
        plutus_v3: models.plutus_v3.clone(),
    });
    let (tx, models) = (tx.as_conway().unwrap(), models.as_ref());
    eval_redeemer(tx, utxos, &slots, redeemer, table, models, &budget).map(|(redeemer, _)|
        ExUnits { mem: redeemer.ex_units.mem, steps: redeemer.ex_units.steps }
    ).map_err(|error| error.to_string())
}

/// `uplc::tx::eval_phase_one`: whether it succeeds, else the text of its error. Where
/// scripts are unexpected, they are listed in the text in the order in which the table is
/// walked, of which nothing is said.
#[verifier::external_body]
pub(crate) fn check_phase_one(
    tx: &MultiEraTx<'_>,
    utxos: &Vec<ResolvedInput>,
    table: &DataLookupTable,
) -> (passed: Result<(), String>)
    requires
        is_conway(*tx),
        all_stake(withdrawal_accounts(*tx)) || phase_one(*tx, utxos@, *table) is Some,
    ensures
        phase_one_told(passed, phase_one(*tx, utxos@, *table)),
{
    eval_phase_one(tx.as_conway().unwrap(), utxos, table).map_err(|error| error.to_string())
}

} // verus!
