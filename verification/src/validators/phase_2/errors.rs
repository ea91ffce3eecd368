//! Why a script was not run, or failed.

use vstd::prelude::*;
use vstd::string::StringExecFns;

verus! {

/// A reason for which the script of a redeemer does not succeed.
#[derive(Debug)]
pub enum Phase2Error {
    /// The script ran, and failed.
    MachineError { error: String },
    /// There is no script for the redeemer, or its datum is missing.
    MissingScriptForRedeemer { error: String },
    /// There is no cost model for the language of the script.
    CostModelNotFound { language: String },
    /// The transaction cannot be shown to a script of that language.
    BuildTxContextError { error: String },
    /// The bytes of the script are no program.
    ScriptDecodeError { error: String },
}

/// A reason, with its text taken by its view.
#[verifier::ext_equal]
pub enum Phase2ErrorView {
    MachineError { error: Seq<char> },
    MissingScriptForRedeemer { error: Seq<char> },
    CostModelNotFound { language: Seq<char> },
    BuildTxContextError { error: Seq<char> },
    ScriptDecodeError { error: Seq<char> },
}

impl View for Phase2Error {
    type V = Phase2ErrorView;

    open spec fn view(&self) -> Phase2ErrorView {
        match *self {
            Phase2Error::MachineError { error } => Phase2ErrorView::MachineError { error: error@ },
            Phase2Error::MissingScriptForRedeemer { error } => {
                Phase2ErrorView::MissingScriptForRedeemer { error: error@ }
            },
            Phase2Error::CostModelNotFound { language } => Phase2ErrorView::CostModelNotFound {
                language: language@,
            },
            Phase2Error::BuildTxContextError { error } => Phase2ErrorView::BuildTxContextError {
                error: error@,
            },
            Phase2Error::ScriptDecodeError { error } => Phase2ErrorView::ScriptDecodeError {
                error: error@,
            },
        }
    }
}

impl Phase2ErrorView {
    /// The reason in words.
    pub open spec fn message(self) -> Seq<char> {
        match self {
            Phase2ErrorView::MachineError { error } => "Machine error: "@ + error,
            Phase2ErrorView::MissingScriptForRedeemer { error } => {
                "Missing script for redeemer: "@ + error
            },
            Phase2ErrorView::CostModelNotFound { language } => {
                "Cost model not found for language: "@ + language
            },
            Phase2ErrorView::BuildTxContextError { error } => {
                "Failed to build transaction context: "@ + error
            },
            Phase2ErrorView::ScriptDecodeError { error } => "Failed to decode script: "@ + error,
        }
    }
}

impl Phase2Error {
    /// The reason in words.
    pub fn message(&self) -> (message: String)
        ensures
            message@ == self@.message(),
    {
        let (intro, detail) = match self {
            Phase2Error::MachineError { error } => ("Machine error: ", error),
            Phase2Error::MissingScriptForRedeemer { error } => {
                ("Missing script for redeemer: ", error)
            },
            Phase2Error::CostModelNotFound { language } => {
                ("Cost model not found for language: ", language)
            },
            Phase2Error::BuildTxContextError { error } => {
                ("Failed to build transaction context: ", error)
            },
            Phase2Error::ScriptDecodeError { error } => ("Failed to decode script: ", error),
        };
        let mut message = intro.to_owned();
        message.append(detail.as_str());
        message
    }
}

} // verus!
