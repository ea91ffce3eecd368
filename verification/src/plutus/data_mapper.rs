//! Unspent outputs as the evaluator takes them.

use pallas_codec::minicbor::decode as decode_cbor;
use pallas_primitives::conway::TransactionOutput;
use pallas_primitives::TransactionInput;
use uplc::tx::ResolvedInput;
use vstd::prelude::*;

use crate::common::{utxo_views, UTxO, UTxOView};
use crate::js_error::JsError;
use crate::text::{hex_bytes, hex_decode, hex_decode_message, is_hex};
use crate::validators::phase_2::evaluation::text_result;

verus! {

/// The number of bytes in the hash of a transaction.
pub const TX_HASH_LENGTH: usize = 32;

/// The input that names an output of a transaction, with that output, or the
/// message of the fault in the output's CBOR.
pub uninterp spec fn resolved_input(
    transaction_id: Seq<u8>,
    index: u64,
    output: Seq<u8>,
) -> Result<uplc::tx::ResolvedInput, Seq<char>>;

/// `minicbor::decode` of the output, put together with the input: the pair, or the
/// text of the decoder's error.
#[verifier::external_body]
fn resolve_input(transaction_id: &Vec<u8>, index: u64, output: &Vec<u8>) -> (resolved: Result<
    ResolvedInput,
    String,
>)
    requires
        transaction_id@.len() == TX_HASH_LENGTH,
    ensures
        text_result(resolved) == resolved_input(transaction_id@, index, output@),
{
    let output: TransactionOutput = decode_cbor(output).map_err(|error| error.to_string())?;
    let id: [u8; 32] = transaction_id.as_slice().try_into().unwrap();
    Ok(ResolvedInput { input: TransactionInput { transaction_id: id.into(), index }, output })
}

/// The input and output of an unspent output, or the message that refuses it.
pub open spec fn resolved_utxo(utxo: UTxOView) -> Result<ResolvedInput, Seq<char>> {
    if !is_hex(utxo.tx_hash) {
        Err(hex_decode_message(utxo.tx_hash))
    } else if hex_bytes(utxo.tx_hash).len() != TX_HASH_LENGTH {
        Err("Invalid transaction hash length"@)
    } else {
        resolved_input(hex_bytes(utxo.tx_hash), utxo.output_index as u64, utxo.output)
    }
}

/// The inputs and outputs of unspent outputs, or the message that refuses the
/// first of them that is refused.
pub open spec fn resolved_utxos(utxos: Seq<UTxOView>) -> Result<Seq<ResolvedInput>, Seq<char>>
    decreases utxos.len(),
{
    if utxos.len() == 0 {
        Ok(Seq::empty())
    } else {
        match resolved_utxos(utxos.drop_last()) {
            Err(message) => Err(message),
            Ok(resolved) => match resolved_utxo(utxos.last()) {
                Err(message) => Err(message),
                Ok(utxo) => Ok(resolved.push(utxo)),
            },
        }
    }
}

/// If the first of the unspent outputs are refused, all of them are.
proof fn refused_early(utxos: Seq<UTxOView>, n: int)
    requires
        0 <= n <= utxos.len(),
        resolved_utxos(utxos.take(n)) is Err,
    ensures
        resolved_utxos(utxos) == resolved_utxos(utxos.take(n)),
    decreases utxos.len(),
{
    if n == utxos.len() {
        assert(utxos.take(n) =~= utxos);
    } else {
        assert(utxos.drop_last().take(n) =~= utxos.take(n));
        refused_early(utxos.drop_last(), n);
    }
}

fn resolve_utxo(utxo: &UTxO) -> (resolved: Result<ResolvedInput, JsError>)
    ensures
        match (resolved, resolved_utxo(utxo@)) {
            (Ok(resolved), Ok(expected)) => resolved == expected,
            (Err(error), Err(expected)) => error@ == expected,
            _ => false,
        },
{
    let transaction_id = match hex_decode(utxo.input.tx_hash.as_str()) {
        Ok(transaction_id) => transaction_id,
        Err(message) => return Err(JsError { message }),
    };
    if transaction_id.len() != TX_HASH_LENGTH {
        return Err(JsError::new("Invalid transaction hash length"));
    }
    match resolve_input(&transaction_id, utxo.input.output_index as u64, &utxo.output) {
        Ok(resolved) => Ok(resolved),
        Err(message) => Err(JsError { message }),
    }
}

/// Unspent outputs as the evaluator takes them.
pub fn to_pallas_utxos(utxos: &Vec<UTxO>) -> (resolved: Result<Vec<ResolvedInput>, JsError>)
    ensures
        match (resolved, resolved_utxos(utxo_views(utxos@))) {
            (Ok(resolved), Ok(expected)) => resolved@ == expected,
            (Err(error), Err(expected)) => error@ == expected,
            _ => false,
        },
{
    let ghost views = utxo_views(utxos@);
    let mut resolved: Vec<ResolvedInput> = Vec::new();
    let mut i: usize = 0;
    assert(views.take(0) =~= Seq::empty());
    while i < utxos.len()
        invariant
            i <= utxos@.len(),
            views == utxo_views(utxos@),
            resolved_utxos(views.take(i as int)) == Ok::<Seq<ResolvedInput>, Seq<char>>(resolved@),
        decreases utxos@.len() - i,
    {
        proof {
            assert(views.take(i + 1).drop_last() =~= views.take(i as int));
            assert(views.take(i + 1).last() == utxos@[i as int]@);
        }
        match resolve_utxo(&utxos[i]) {
            Ok(utxo) => resolved.push(utxo),
            Err(error) => {
                proof {
                    refused_early(views, i + 1);
                }
                return Err(error);
            },
        }
        i = i + 1;
    }
    assert(views.take(i as int) =~= views);
    Ok(resolved)
}

} // verus!
