//! What is read out of a transaction before its scripts are run.

use pallas_primitives::conway;
use pallas_primitives::conway::RedeemerTag as PallasTag;
use pallas_traverse::{Era, MultiEraTx};
use uplc::tx::iter_redeemers;
use uplc::PlutusData;
use vstd::prelude::*;

use crate::common::ExUnits;

verus! {

/// `pallas_traverse::MultiEraTx`, a decoded transaction of any era.
#[verifier::external_type_specification]
#[verifier::external_body]
pub struct ExMultiEraTx<'b>(pallas_traverse::MultiEraTx<'b>);

/// `uplc::tx::ResolvedInput`, an input with the output that it spends.
#[verifier::external_type_specification]
#[verifier::external_body]
pub struct ExResolvedInput(uplc::tx::ResolvedInput);

/// `uplc::PlutusData`, a value that scripts work on.
#[verifier::external_type_specification]
#[verifier::external_body]
pub struct ExPlutusData(uplc::PlutusData);

/// `pallas_primitives::conway::Redeemer`, a redeemer as the evaluator takes it.
#[verifier::external_type_specification]
#[verifier::external_body]
pub struct ExPallasRedeemer(pallas_primitives::conway::Redeemer);

/// What a redeemer is for.
#[derive(Clone, Copy, Debug, PartialEq, Eq, Structural)]
pub enum RedeemerTag {
    Spend,
    Mint,
    Cert,
    Reward,
    Vote,
    Propose,
}

/// The argument that a transaction gives to a script, and the units that it
/// allows for the run.
#[derive(Debug)]
pub struct TxRedeemer {
    pub tag: RedeemerTag,
    pub index: u32,
    pub data: PlutusData,
    pub ex_units: ExUnits,
}

/// An input of a transaction: the hash of a transaction and the index of one of
/// its outputs.
#[derive(Debug)]
pub struct InputRef {
    pub transaction_id: Vec<u8>,
    pub index: u64,
}

/// An input, taken by its view.
#[verifier::ext_equal]
pub struct InputView {
    pub transaction_id: Seq<u8>,
    pub index: u64,
}

impl View for InputRef {
    type V = InputView;

    open spec fn view(&self) -> InputView {
        InputView { transaction_id: self.transaction_id@, index: self.index }
    }
}

/// Inputs, taken by their views.
pub open spec fn input_views(inputs: Seq<InputRef>) -> Seq<InputView> {
    Seq::new(inputs.len(), |i: int| inputs[i]@)
}

/// The transaction of the Conway era that `bytes` encode, or the message of the
/// fault in them.
pub uninterp spec fn conway_tx(bytes: Seq<u8>) -> Result<
    pallas_traverse::MultiEraTx<'static>,
    Seq<char>,
>;

/// Whether a transaction is of the Conway era.
pub uninterp spec fn is_conway(tx: pallas_traverse::MultiEraTx<'_>) -> bool;

/// The inputs that a Conway transaction spends.
pub uninterp spec fn spent_inputs(tx: pallas_traverse::MultiEraTx<'_>) -> Seq<InputView>;

/// The inputs that a Conway transaction only refers to; none where it has no
/// such field.
pub uninterp spec fn reference_inputs(tx: pallas_traverse::MultiEraTx<'_>) -> Seq<InputView>;

/// The inputs that a Conway transaction offers as collateral; none where it has
/// no such field.
pub uninterp spec fn collateral_inputs(tx: pallas_traverse::MultiEraTx<'_>) -> Seq<InputView>;

/// The redeemers of a Conway transaction, in their order; none where it has no
/// such field.
pub uninterp spec fn redeemers_of(tx: pallas_traverse::MultiEraTx<'_>) -> Seq<TxRedeemer>;

/// The fields of a redeemer of the evaluator.
pub uninterp spec fn redeemer_content(redeemer: pallas_primitives::conway::Redeemer) -> TxRedeemer;

/// `MultiEraTx::decode_for_era` for the Conway era: the transaction that
/// `conway_tx` names, or the text of the decoder's error.
#[verifier::external_body]
fn decode_conway(bytes: &[u8]) -> (tx: Result<MultiEraTx<'_>, String>)
    ensures
        match tx {
            Ok(tx) => conway_tx(bytes@) == Ok::<MultiEraTx<'_>, Seq<char>>(tx),
            Err(message) => conway_tx(bytes@) == Err::<MultiEraTx<'_>, Seq<char>>(message@),
        },
{
    MultiEraTx::decode_for_era(Era::Conway, bytes).map_err(|error| error.to_string())
}

/// `MultiEraTx::as_conway`: whether the transaction is of the Conway era.
#[verifier::external_body]
fn tx_is_conway(tx: &MultiEraTx<'_>) -> (conway: bool)
    ensures
        conway == is_conway(*tx),
{
    tx.as_conway().is_some()
}

/// The body's `inputs`, each by its hash and index.
#[verifier::external_body]
fn read_spent_inputs(tx: &MultiEraTx<'_>) -> (inputs: Vec<InputRef>)
    requires
        is_conway(*tx),
    ensures
        input_views(inputs@) == spent_inputs(*tx),
{
    let body = &tx.as_conway().unwrap().transaction_body;
    body.inputs.iter().map(
        |input| InputRef { transaction_id: input.transaction_id.to_vec(), index: input.index },
    ).collect()
}

/// The body's `reference_inputs`, each by its hash and index; none where the field
/// is missing.
#[verifier::external_body]
fn read_reference_inputs(tx: &MultiEraTx<'_>) -> (inputs: Vec<InputRef>)
    requires
        is_conway(*tx),
    ensures
        input_views(inputs@) == reference_inputs(*tx),
{
    let body = &tx.as_conway().unwrap().transaction_body;
    body.reference_inputs.iter().flat_map(|inputs| inputs.iter()).map(
        |input| InputRef { transaction_id: input.transaction_id.to_vec(), index: input.index },
    ).collect()
}

/// The body's `collateral`, each input by its hash and index; none where the field
/// is missing.
#[verifier::external_body]
fn read_collateral_inputs(tx: &MultiEraTx<'_>) -> (inputs: Vec<InputRef>)
    requires
        is_conway(*tx),
    ensures
        input_views(inputs@) == collateral_inputs(*tx),
{
    let body = &tx.as_conway().unwrap().transaction_body;
    body.collateral.iter().flat_map(|inputs| inputs.iter()).map(
        |input| InputRef { transaction_id: input.transaction_id.to_vec(), index: input.index },
    ).collect()
}

/// `uplc::tx::iter_redeemers` on the redeemers of the witness set, each with its
/// fields; none where the witness set has no redeemers.
#[verifier::external_body]
fn read_redeemers(tx: &MultiEraTx<'_>) -> (redeemers: Vec<TxRedeemer>)
    requires
        is_conway(*tx),
    ensures
        redeemers@ == redeemers_of(*tx),
{
    let witnesses = &tx.as_conway().unwrap().transaction_witness_set;
    witnesses.redeemer.iter().flat_map(|redeemers| iter_redeemers(redeemers)).map(
        |(key, data, units)| {
            let tag = match key.tag {
                PallasTag::Spend => RedeemerTag::Spend, PallasTag::Mint => RedeemerTag::Mint,
                PallasTag::Cert => RedeemerTag::Cert, PallasTag::Reward => RedeemerTag::Reward,
                PallasTag::Vote => RedeemerTag::Vote, PallasTag::Propose => RedeemerTag::Propose,
            };
            let ex_units = ExUnits { mem: units.mem, steps: units.steps };
            TxRedeemer { tag, index: key.index, data: data.clone(), ex_units }
        },
    ).collect()
}

/// A redeemer of the evaluator with the given fields.
#[verifier::external_body]
pub(crate) fn pallas_redeemer(redeemer: &TxRedeemer) -> (converted: conway::Redeemer)
    ensures
        redeemer_content(converted) == *redeemer,
{
    let tag = match redeemer.tag {
        RedeemerTag::Spend => PallasTag::Spend,
        RedeemerTag::Mint => PallasTag::Mint,
        RedeemerTag::Cert => PallasTag::Cert,
        RedeemerTag::Reward => PallasTag::Reward,
        RedeemerTag::Vote => PallasTag::Vote,
        RedeemerTag::Propose => PallasTag::Propose,
    };
    let (mem, steps) = (redeemer.ex_units.mem, redeemer.ex_units.steps);
    let ex_units = pallas_primitives::ExUnits { mem, steps };
    conway::Redeemer { tag, index: redeemer.index, data: redeemer.data.clone(), ex_units }
}

/// `PlutusData::clone`: the same value.
#[verifier::external_body]
fn copy_data(data: &PlutusData) -> (copy: PlutusData)
    ensures
        copy == *data,
{
    data.clone()
}

impl TxRedeemer {
    /// The redeemer with other units.
    pub fn with_units(&self, ex_units: ExUnits) -> (redeemer: TxRedeemer)
        ensures
            redeemer == (TxRedeemer { ex_units, ..*self }),
    {
        TxRedeemer { tag: self.tag, index: self.index, data: copy_data(&self.data), ex_units }
    }
}

/// A transaction of the Conway era.
pub struct ConwayTx<'b> {
    inner: MultiEraTx<'b>,
}

impl<'b> ConwayTx<'b> {
    #[verifier::type_invariant]
    spec fn inv(self) -> bool {
        is_conway(self.inner)
    }

    /// The transaction as it was decoded.
    pub closed spec fn decoded(self) -> MultiEraTx<'b> {
        self.inner
    }

    pub(crate) fn era_tx(&self) -> (tx: &MultiEraTx<'b>)
        ensures
            *tx == self.decoded(),
            is_conway(*tx),
    {
        proof {
            use_type_invariant(self);
        }
        &self.inner
    }

    /// Decodes a transaction of the Conway era.
    pub fn decode(bytes: &'b [u8]) -> (tx: Result<ConwayTx<'b>, String>)
        ensures
            match (tx, decoded_conway(bytes@)) {
                (Ok(tx), Ok(expected)) => tx.decoded() == expected,
                (Err(message), Err(expected)) => message@ == expected,
                _ => false,
            },
    {
        let inner = match decode_conway(bytes) {
            Ok(inner) => inner,
            Err(message) => return Err(message),
        };
        if tx_is_conway(&inner) {
            Ok(ConwayTx { inner })
        } else {
            Err("Invalid transaction type".to_owned())
        }
    }

    /// The inputs that the transaction spends.
    pub fn inputs(&self) -> (inputs: Vec<InputRef>)
        ensures
            input_views(inputs@) == spent_inputs(self.decoded()),
    {
        read_spent_inputs(self.era_tx())
    }

    /// The inputs that the transaction only refers to.
    pub fn reference_inputs(&self) -> (inputs: Vec<InputRef>)
        ensures
            input_views(inputs@) == reference_inputs(self.decoded()),
    {
        read_reference_inputs(self.era_tx())
    }

    /// The inputs that the transaction offers as collateral.
    pub fn collateral(&self) -> (inputs: Vec<InputRef>)
        ensures
            input_views(inputs@) == collateral_inputs(self.decoded()),
    {
        read_collateral_inputs(self.era_tx())
    }

    /// The redeemers of the transaction, in their order.
    pub fn redeemers(&self) -> (redeemers: Vec<TxRedeemer>)
        ensures
            redeemers@ == redeemers_of(self.decoded()),
    {
        read_redeemers(self.era_tx())
    }
}

/// The transaction that `bytes` encode, or the message that refuses them.
pub open spec fn decoded_conway(bytes: Seq<u8>) -> Result<MultiEraTx<'static>, Seq<char>> {
    match conway_tx(bytes) {
        Ok(tx) => if is_conway(tx) {
            Ok(tx)
        } else {
            Err("Invalid transaction type"@)
        },
        Err(message) => Err(message),
    }
}

} // verus!
