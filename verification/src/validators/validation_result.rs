//! The outcome of the checks.

use vstd::prelude::*;

use crate::common::ExUnits;
use crate::validators::phase_1::errors::{ValidationPhase1Error, ValidationPhase1Warning};

verus! {

/// All that the checks reported.
#[derive(Debug)]
pub struct ValidationResult {
    pub errors: Vec<ValidationPhase1Error>,
    pub warnings: Vec<ValidationPhase1Warning>,
}

impl ValidationResult {
    /// The outcome of the first phase.
    pub fn new_phase_1(
        errors: Vec<ValidationPhase1Error>,
        warnings: Vec<ValidationPhase1Warning>,
    ) -> (result: Self)
        ensures
            result.errors == errors,
            result.warnings == warnings,
    {
        ValidationResult { errors, warnings }
    }
}

/// What a redeemer is for.
#[derive(Clone, Copy, Debug, PartialEq, Eq, Structural)]
pub enum RedeemerTag {
    Mint,
    Spend,
    Cert,
    Propose,
    Vote,
    Reward,
}

/// How the script of a redeemer fared.
#[derive(Debug)]
pub struct EvalRedeemerResult {
    pub tag: RedeemerTag,
    pub index: u64,
    pub calculated_ex_units: ExUnits,
    pub provided_ex_units: ExUnits,
    pub success: bool,
    pub error: Option<String>,
    pub logs: Vec<String>,
}

/// How the script of a redeemer fared, with texts taken by their views.
#[verifier::ext_equal]
pub struct EvalRedeemerResultView {
    pub tag: RedeemerTag,
    pub index: u64,
    pub calculated_ex_units: ExUnits,
    pub provided_ex_units: ExUnits,
    pub success: bool,
    pub error: Option<Seq<char>>,
    pub logs: Seq<Seq<char>>,
}

impl View for EvalRedeemerResult {
    type V = EvalRedeemerResultView;

    open spec fn view(&self) -> EvalRedeemerResultView {
        EvalRedeemerResultView {
            tag: self.tag,
            index: self.index,
            calculated_ex_units: self.calculated_ex_units,
            provided_ex_units: self.provided_ex_units,
            success: self.success,
            error: match self.error {
                Some(error) => Some(error@),
                None => None,
            },
            logs: Seq::new(self.logs@.len(), |i: int| self.logs@[i]@),
        }
    }
}

} // verus!
