//! Types that the script evaluation takes in and gives out.

use vstd::prelude::*;

verus! {

/// What a script run uses: memory and steps.
#[derive(Clone, Copy, Debug, PartialEq, Eq, Structural)]
pub struct ExUnits {
    pub mem: u64,
    pub steps: u64,
}

/// The prices of the script languages' operations.
#[derive(Debug)]
pub struct CostModels {
    pub plutus_v1: Option<Vec<i64>>,
    pub plutus_v2: Option<Vec<i64>>,
    pub plutus_v3: Option<Vec<i64>>,
}

/// Cost models, with each list taken by its view.
#[verifier::ext_equal]
pub struct CostModelsView {
    pub plutus_v1: Option<Seq<i64>>,
    pub plutus_v2: Option<Seq<i64>>,
    pub plutus_v3: Option<Seq<i64>>,
}

/// A list that may be missing, taken by its view.
pub open spec fn optional_costs(costs: Option<Vec<i64>>) -> Option<Seq<i64>> {
    match costs {
        Some(costs) => Some(costs@),
        None => None,
    }
}

impl View for CostModels {
    type V = CostModelsView;

    open spec fn view(&self) -> CostModelsView {
        CostModelsView {
            plutus_v1: optional_costs(self.plutus_v1),
            plutus_v2: optional_costs(self.plutus_v2),
            plutus_v3: optional_costs(self.plutus_v3),
        }
    }
}

/// Cost models that may be missing, taken by their view.
pub open spec fn optional_models(models: Option<&CostModels>) -> Option<CostModelsView> {
    match models {
        Some(models) => Some(models@),
        None => None,
    }
}

/// The output of a transaction that another one spends.
#[derive(Debug)]
pub struct TxInput {
    /// The hash of the transaction, in hexadecimal.
    pub tx_hash: String,
    pub output_index: u32,
}

/// An unspent output, with its contents as CBOR.
#[derive(Debug)]
pub struct UTxO {
    pub input: TxInput,
    pub output: Vec<u8>,
}

/// An unspent output, taken by its view.
#[verifier::ext_equal]
pub struct UTxOView {
    pub tx_hash: Seq<char>,
    pub output_index: u32,
    pub output: Seq<u8>,
}

impl View for UTxO {
    type V = UTxOView;

    open spec fn view(&self) -> UTxOView {
        UTxOView {
            tx_hash: self.input.tx_hash@,
            output_index: self.input.output_index,
            output: self.output@,
        }
    }
}

/// Unspent outputs, taken by their views.
pub open spec fn utxo_views(utxos: Seq<UTxO>) -> Seq<UTxOView> {
    Seq::new(utxos.len(), |i: int| utxos[i]@)
}

} // verus!
