//! When the evaluator surely describes a transaction to scripts. It stops without an
//! answer where an address does not decode, a withdrawal is not from a stake address, a
//! legacy output holds none of a token, or a time does not fit. The conditions here are
//! enough to rule that out before it is asked.

use pallas_addresses::Address;
use pallas_primitives::conway::PseudoTransactionOutput;
use pallas_traverse::MultiEraTx;
use uplc::tx::ResolvedInput;
use vstd::prelude::*;

use crate::validators::phase_2::transaction::{is_conway, ConwayTx};

verus! {

/// The versions of the script language.
#[derive(Clone, Copy, Debug, PartialEq, Eq, Structural)]
pub enum Language {
    PlutusV1,
    PlutusV2,
    PlutusV3,
}

/// How slots are turned into time, in milliseconds.
#[derive(Clone, Copy, Debug, PartialEq, Eq, Structural)]
pub struct SlotConfig {
    pub slot_length: u32,
    pub zero_slot: u64,
    pub zero_time: u64,
}

/// The kinds of addresses.
#[derive(Clone, Copy, Debug, PartialEq, Eq, Structural)]
pub enum AddressKind {
    Byron,
    Shelley,
    Stake,
}

/// The two forms that an output can have.
#[derive(Clone, Copy, Debug, PartialEq, Eq, Structural)]
pub enum OutputForm {
    Legacy,
    PostAlonzo,
}

/// An output: its form and its address.
#[derive(Debug)]
pub struct OutputShape {
    pub form: OutputForm,
    pub address: Vec<u8>,
}

/// An output, with its address taken by its view.
#[verifier::ext_equal]
pub struct OutputShapeView {
    pub form: OutputForm,
    pub address: Seq<u8>,
}

impl View for OutputShape {
    type V = OutputShapeView;

    open spec fn view(&self) -> OutputShapeView {
        OutputShapeView { form: self.form, address: self.address@ }
    }
}

/// The slots from which and until which a transaction is valid, where it says so.
#[derive(Clone, Copy, Debug, PartialEq, Eq, Structural)]
pub struct ValidityInterval {
    pub start: Option<u64>,
    pub end: Option<u64>,
}

/// The kind of the address that `bytes` encode, if they encode one.
pub uninterp spec fn address_kind(bytes: Seq<u8>) -> Option<AddressKind>;

/// The output that an input spends.
pub uninterp spec fn utxo_shape(utxo: uplc::tx::ResolvedInput) -> OutputShapeView;

/// The accounts that a Conway transaction withdraws rewards from.
pub uninterp spec fn withdrawal_accounts(tx: pallas_traverse::MultiEraTx<'_>) -> Seq<Seq<u8>>;

/// The forms of the outputs of a Conway transaction.
pub uninterp spec fn output_forms(tx: pallas_traverse::MultiEraTx<'_>) -> Seq<OutputForm>;

/// When a Conway transaction is valid.
pub uninterp spec fn validity_interval(tx: pallas_traverse::MultiEraTx<'_>) -> ValidityInterval;

/// Byte strings, taken by their views.
pub open spec fn bytes_views(list: Seq<Vec<u8>>) -> Seq<Seq<u8>> {
    Seq::new(list.len(), |i: int| list[i]@)
}

/// `pallas_addresses::Address::from_bytes`: the kind of the address, if the bytes
/// encode one.
#[verifier::external_body]
fn read_address_kind(bytes: &Vec<u8>) -> (kind: Option<AddressKind>)
    ensures
        kind == address_kind(bytes@),
{
    match Address::from_bytes(bytes).ok()? {
        Address::Byron(_) => Some(AddressKind::Byron),
        Address::Shelley(_) => Some(AddressKind::Shelley),
        Address::Stake(_) => Some(AddressKind::Stake),
    }
}

/// The form and the `address` of a resolved input's output.
#[verifier::external_body]
fn read_utxo_shape(utxo: &ResolvedInput) -> (shape: OutputShape)
    ensures
        shape@ == utxo_shape(*utxo),
{
    match &utxo.output {
        PseudoTransactionOutput::Legacy(output) => OutputShape {
            form: OutputForm::Legacy,
            address: output.address.to_vec(),
        },
        PseudoTransactionOutput::PostAlonzo(output) => OutputShape {
            form: OutputForm::PostAlonzo,
            address: output.address.to_vec(),
        },
    }
}

/// The accounts in the body's `withdrawals`.
#[verifier::external_body]
fn read_withdrawal_accounts(tx: &MultiEraTx<'_>) -> (accounts: Vec<Vec<u8>>)
    requires
        is_conway(*tx),
    ensures
        bytes_views(accounts@) == withdrawal_accounts(*tx),
{
    let body = &tx.as_conway().unwrap().transaction_body;
    body.withdrawals.iter().flat_map(|withdrawals| withdrawals.iter()).map(
        |(account, _)| account.to_vec(),
    ).collect()
}

/// The form of each of the body's `outputs`.
#[verifier::external_body]
fn read_output_forms(tx: &MultiEraTx<'_>) -> (forms: Vec<OutputForm>)
    requires
        is_conway(*tx),
    ensures
        forms@ == output_forms(*tx),
{
    let body = &tx.as_conway().unwrap().transaction_body;
    body.outputs.iter().map(
        |output|
            match output {
                PseudoTransactionOutput::Legacy(_) => OutputForm::Legacy,
                PseudoTransactionOutput::PostAlonzo(_) => OutputForm::PostAlonzo,
            },
    ).collect()
}

/// The body's `validity_interval_start` and `ttl`.
#[verifier::external_body]
fn read_validity_interval(tx: &MultiEraTx<'_>) -> (interval: ValidityInterval)
    requires
        is_conway(*tx),
    ensures
        interval == validity_interval(*tx),
{
    let body = &tx.as_conway().unwrap().transaction_body;
    ValidityInterval { start: body.validity_interval_start, end: body.ttl }
}

/// Every account is a stake address.
pub open spec fn all_stake(accounts: Seq<Seq<u8>>) -> bool {
    forall|i: int|
        0 <= i < accounts.len() ==> address_kind(#[trigger] accounts[i]) == Some(
            AddressKind::Stake,
        )
}

/// The address of every output decodes, and none of them has the legacy form.
pub open spec fn utxos_sound(utxos: Seq<ResolvedInput>) -> bool {
    forall|i: int|
        0 <= i < utxos.len() ==> {
            &&& address_kind(utxo_shape(#[trigger] utxos[i]).address) is Some
            &&& utxo_shape(utxos[i]).form == OutputForm::PostAlonzo
        }
}

/// The time of the slot fits, where there is one.
pub open spec fn slot_fits(slot: Option<u64>, config: SlotConfig) -> bool {
    slot matches Some(slot) ==> slot < config.zero_slot || (slot - config.zero_slot)
        * config.slot_length + config.zero_time <= u64::MAX
}

/// Enough for the script of any redeemer to be looked for.
pub open spec fn lookup_sound(tx: MultiEraTx<'_>, utxos: Seq<ResolvedInput>) -> bool {
    &&& all_stake(withdrawal_accounts(tx))
    &&& utxos_sound(utxos)
}

/// Enough for the transaction to be described to scripts.
pub open spec fn info_sound(
    tx: MultiEraTx<'_>,
    utxos: Seq<ResolvedInput>,
    slots: SlotConfig,
) -> bool {
    &&& lookup_sound(tx, utxos)
    &&& !output_forms(tx).contains(OutputForm::Legacy)
    &&& slot_fits(validity_interval(tx).start, slots)
    &&& slot_fits(validity_interval(tx).end, slots)
}

fn are_stake(accounts: &Vec<Vec<u8>>) -> (stake: bool)
    ensures
        stake == all_stake(bytes_views(accounts@)),
{
    let ghost views = bytes_views(accounts@);
    let mut i: usize = 0;
    while i < accounts.len()
        invariant
            i <= accounts@.len(),
            views == bytes_views(accounts@),
            forall|j: int|
                0 <= j < i ==> address_kind(#[trigger] views[j]) == Some(AddressKind::Stake),
        decreases accounts@.len() - i,
    {
        let kind = read_address_kind(&accounts[i]);
        assert(views[i as int] == accounts@[i as int]@);
        if !matches!(kind, Some(AddressKind::Stake)) {
            return false;
        }
        i = i + 1;
    }
    true
}

fn are_utxos_sound(utxos: &Vec<ResolvedInput>) -> (sound: bool)
    ensures
        sound == utxos_sound(utxos@),
{
    let mut i: usize = 0;
    while i < utxos.len()
        invariant
            i <= utxos@.len(),
            forall|j: int|
                0 <= j < i ==> {
                    &&& address_kind(utxo_shape(#[trigger] utxos@[j]).address) is Some
                    &&& utxo_shape(utxos@[j]).form == OutputForm::PostAlonzo
                },
        decreases utxos@.len() - i,
    {
        let shape = read_utxo_shape(&utxos[i]);
        assert(shape@ == utxo_shape(utxos@[i as int]));
        if shape.form == OutputForm::Legacy || read_address_kind(&shape.address).is_none() {
            return false;
        }
        i = i + 1;
    }
    true
}

fn has_legacy(forms: &Vec<OutputForm>) -> (found: bool)
    ensures
        found == forms@.contains(OutputForm::Legacy),
{
    let mut i: usize = 0;
    while i < forms.len()
        invariant
            i <= forms@.len(),
            forall|j: int| 0 <= j < i ==> forms@[j] != OutputForm::Legacy,
        decreases forms@.len() - i,
    {
        if forms[i] == OutputForm::Legacy {
            assert(forms@[i as int] == OutputForm::Legacy);
            return true;
        }
        i = i + 1;
    }
    false
}

fn does_slot_fit(slot: Option<u64>, config: &SlotConfig) -> (fits: bool)
    ensures
        fits == slot_fits(slot, *config),
{
    match slot {
        Some(slot) => {
            if slot < config.zero_slot {
                return true;
            }
            let after: u128 = (slot - config.zero_slot) as u128;
            let length: u128 = config.slot_length as u128;
            assert(0 <= after * length <= 0xffff_ffff_ffff_ffff * 0xffff_ffff) by (nonlinear_arith)
                requires
                    0 <= after <= 0xffff_ffff_ffff_ffff,
                    0 <= length <= 0xffff_ffff,
            ;
            after * length + config.zero_time as u128 <= u64::MAX as u128
        },
        None => true,
    }
}

/// Whether every withdrawal is from a stake address.
pub fn are_withdrawals_sound(tx: &ConwayTx<'_>) -> (sound: bool)
    ensures
        sound == all_stake(withdrawal_accounts(tx.decoded())),
{
    are_stake(&read_withdrawal_accounts(tx.era_tx()))
}

/// Whether it is certain that the transaction can be described to scripts.
pub fn is_info_sound(tx: &ConwayTx<'_>, utxos: &Vec<ResolvedInput>, slots: &SlotConfig) -> (sound:
    bool)
    ensures
        sound == info_sound(tx.decoded(), utxos@, *slots),
{
    let era_tx = tx.era_tx();
    let interval = read_validity_interval(era_tx);
    are_withdrawals_sound(tx) && are_utxos_sound(utxos) && !has_legacy(&read_output_forms(era_tx))
        && does_slot_fit(interval.start, slots) && does_slot_fit(interval.end, slots)
}

} // verus!
