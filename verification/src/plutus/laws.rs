//! What holds of the requests to run scripts, whatever the transaction.

use pallas_traverse::MultiEraTx;
use uplc::tx::ResolvedInput;
use vstd::prelude::*;

use crate::common::{CostModelsView, ExUnits, UTxOView};
use crate::js_error::JsError;
use crate::plutus::data_mapper::{resolved_input, resolved_utxo, resolved_utxos};
use crate::plutus::execute_tx_scripts::{
    all_evaluated, all_outcomes, answer, default_slots, evaluated, fails_phase_one, hex_tx,
    input_text, is_executable, is_given, listed, missed, needs_no_evaluator, outcome_json,
    outcome_view, outcome_views, redeemer_outcome, requested, units_json, utxo_text, OutcomeView,
    RedeemerOutcome,
};
use crate::text::{
    decimal, decimal_is_injective, decimal_spells_the_number, hex_bytes, hex_decode_message,
    hex_is_lower_case, hex_round_trip, hex_text, hex_value, is_hex, spelt_number,
};
use crate::validators::common::NetworkType;
use crate::validators::phase_2::eval_redeemer::network_slots;
use crate::validators::phase_2::evaluable::SlotConfig;
use crate::validators::phase_2::evaluation::{
    mismatch_text, phase_one, redeemer_units, transaction_table, ExBudget, PhaseOneFailure,
};
use crate::validators::phase_2::transaction::{
    collateral_inputs, conway_tx, is_conway, redeemers_of, reference_inputs, spent_inputs,
    InputView, RedeemerTag, TxRedeemer,
};
use crate::value::{field, field_is, Json};

verus! {

/// The missed outputs are exactly those that are requested and not given.
pub proof fn missed_are_those_not_given(
    requests: Seq<Seq<char>>,
    utxos: Seq<UTxOView>,
    request: Seq<char>,
)
    ensures
        missed(requests, utxos).contains(request) <==> requests.contains(request) && !is_given(
            request,
            utxos,
        ),
    decreases requests.len(),
{
    if requests.len() > 0 {
        let fewer = requests.drop_last();
        let rest = missed(fewer, utxos);
        let all = missed(requests, utxos);
        let last = requests.last();
        missed_are_those_not_given(fewer, utxos, request);
        assert(requests.contains(request) <==> fewer.contains(request) || request == last) by {
            assert(requests =~= fewer.push(last));
            if fewer.contains(request) {
                let i = choose|i: int| 0 <= i < fewer.len() && fewer[i] == request;
                assert(requests[i] == request);
            }
            if request == last {
                assert(requests[requests.len() - 1] == request);
            }
            if requests.contains(request) {
                let i = choose|i: int| 0 <= i < requests.len() && requests[i] == request;
                if i < fewer.len() {
                    assert(fewer[i] == request);
                }
            }
        }
        if !is_given(last, utxos) {
            assert(all == rest.push(last));
            if rest.contains(request) {
                let i = choose|i: int| 0 <= i < rest.len() && rest[i] == request;
                assert(all[i] == request);
            }
            if request == last {
                assert(all[rest.len() as int] == request);
            }
            if all.contains(request) {
                let i = choose|i: int| 0 <= i < all.len() && all[i] == request;
                if i < rest.len() {
                    assert(rest[i] == request);
                }
            }
        }
    }
}

/// Nothing is missed exactly if every request is given.
pub proof fn nothing_missed_if_all_given(requests: Seq<Seq<char>>, utxos: Seq<UTxOView>)
    ensures
        missed(requests, utxos).len() == 0 <==> forall|i: int|
            0 <= i < requests.len() ==> is_given(#[trigger] requests[i], utxos),
{
    let all = missed(requests, utxos);
    if all.len() == 0 {
        assert forall|i: int| 0 <= i < requests.len() implies is_given(
            #[trigger] requests[i],
            utxos,
        ) by {
            missed_are_those_not_given(requests, utxos, requests[i]);
        }
    } else {
        missed_are_those_not_given(requests, utxos, all[0]);
        assert(all.contains(all[0]));
        let i = choose|i: int| 0 <= i < requests.len() && requests[i] == all[0];
        assert(!is_given(requests[i], utxos));
    }
}

/// Giving further outputs never makes one missed.
pub proof fn further_outputs_do_not_harm(
    requests: Seq<Seq<char>>,
    utxos: Seq<UTxOView>,
    further: Seq<UTxOView>,
)
    requires
        missed(requests, utxos).len() == 0,
    ensures
        missed(requests, utxos + further).len() == 0,
{
    nothing_missed_if_all_given(requests, utxos);
    assert forall|i: int| 0 <= i < requests.len() implies is_given(
        #[trigger] requests[i],
        utxos + further,
    ) by {
        assert(is_given(requests[i], utxos));
        let j = choose|j: int|
            0 <= j < utxos.len() && utxo_text(#[trigger] utxos[j]) == requests[i];
        assert(utxo_text((utxos + further)[j]) == requests[i]);
    }
    nothing_missed_if_all_given(requests, utxos + further);
}

/// The text of an input names it: inputs whose hashes have the same length and
/// whose texts are the same are the same.
pub proof fn request_names_one_input(input: InputView, other: InputView)
    requires
        input.transaction_id.len() == other.transaction_id.len(),
        input_text(input) == input_text(other),
    ensures
        input == other,
{
    let hash = hex_text(input.transaction_id);
    let other_hash = hex_text(other.transaction_id);
    let index = decimal(input.index as nat);
    let other_index = decimal(other.index as nat);
    reveal_strlit("#");
    let n = hash.len() as int;
    assert(hash =~= input_text(input).take(n));
    assert(other_hash =~= input_text(other).take(n));
    assert(index =~= input_text(input).skip(n + 1));
    assert(other_index =~= input_text(other).skip(n + 1));
    hex_round_trip(input.transaction_id);
    hex_round_trip(other.transaction_id);
    decimal_is_injective(input.index as nat, other.index as nat);
}

/// To give the outputs that are listed for a transaction is enough: a request with
/// readable outputs that contain them, and readable cost models, is not refused.
pub proof fn listed_outputs_suffice(
    tx_hex: Seq<char>,
    utxos: Seq<UTxOView>,
    models: CostModelsView,
)
    requires
        hex_tx(tx_hex) is Ok,
        resolved_utxos(utxos) is Ok,
        forall|i: int|
            0 <= i < requested(hex_tx(tx_hex)->Ok_0).len() ==> is_given(
                #[trigger] requested(hex_tx(tx_hex)->Ok_0)[i],
                utxos,
            ),
    ensures
        answer(tx_hex, Ok(utxos), Ok(models)) is Ok,
{
    nothing_missed_if_all_given(requested(hex_tx(tx_hex)->Ok_0), utxos);
}

/// A request on a transaction that does not decode is refused with the same
/// message, whatever else is given.
pub proof fn transaction_is_judged_first(
    tx_hex: Seq<char>,
    utxos: Result<Seq<UTxOView>, Seq<char>>,
    models: Result<CostModelsView, Seq<char>>,
)
    requires
        hex_tx(tx_hex) is Err,
    ensures
        answer(tx_hex, utxos, models) == Err::<Json, Seq<char>>(hex_tx(tx_hex)->Err_0),
{
}

/// There is one outcome for each redeemer, in their order, with the redeemer as it was;
/// where its script succeeds, also with other units and nothing else changed. It is the
/// outcome of that redeemer alone.
pub proof fn outcomes_match_redeemers(
    tx: MultiEraTx<'_>,
    utxos: Seq<ResolvedInput>,
    slots: SlotConfig,
    models: Option<CostModelsView>,
    i: int,
)
    requires
        0 <= i < redeemers_of(tx).len(),
    ensures
        all_outcomes(tx, utxos, slots, models).len() == redeemers_of(tx).len(),
        ({
            let redeemer = redeemers_of(tx)[i];
            let outcome = all_outcomes(tx, utxos, slots, models)[i];
            &&& match outcome {
                Ok((original, calculated)) => {
                    &&& original == redeemer
                    &&& calculated == TxRedeemer { ex_units: calculated.ex_units, ..redeemer }
                },
                Err((original, _)) => original == redeemer,
            }
            &&& evaluated(tx, utxos, slots, models, redeemer) matches Some(units)
                ==> outcome == redeemer_outcome(redeemer, units)
        }),
{
}

/// A request that is answered gets an array with one object for each redeemer, in their
/// order; one whose script fails has the entry "error".
pub proof fn answer_lists_the_redeemers(
    tx_hex: Seq<char>,
    utxos: Result<Seq<UTxOView>, Seq<char>>,
    models: Result<CostModelsView, Seq<char>>,
)
    requires
        answer(tx_hex, utxos, models) is Ok,
    ensures
        answer(tx_hex, utxos, models) matches Ok(Json::Array(entries)) && {
            let tx = hex_tx(tx_hex)->Ok_0;
            let resolved = resolved_utxos(utxos->Ok_0)->Ok_0;
            let outcomes = all_outcomes(tx, resolved, default_slots(), Some(models->Ok_0));
            &&& entries.len() == redeemers_of(tx).len()
            &&& forall|i: int|
                0 <= i < entries.len() ==> #[trigger] entries[i] == outcome_json(outcomes[i])
            &&& forall|i: int|
                0 <= i < entries.len() && outcomes[i] is Err ==> ((
                #[trigger] entries[i]) matches Json::Object(fields) && fields[1].0 == "error"@)
        },
{
}

/// The text of a failed phase one is fixed unless several scripts are unexpected.
pub proof fn phase_one_text_is_fixed(
    failure: PhaseOneFailure,
    text: Seq<char>,
    other_text: Seq<char>,
)
    requires
        failure matches PhaseOneFailure::Scripts { unexpected, .. } ==> unexpected.len() <= 1,
        failure.has_text(text),
        failure.has_text(other_text),
    ensures
        text == other_text,
{
    if let PhaseOneFailure::Scripts { missing, unexpected } = failure {
        let order = choose|order: Seq<Seq<char>>|
            {
                &&& #[trigger] order.to_multiset() == unexpected
                &&& text == mismatch_text(missing, order)
            };
        let other_order = choose|order: Seq<Seq<char>>|
            {
                &&& #[trigger] order.to_multiset() == unexpected
                &&& other_text == mismatch_text(missing, order)
            };
        order.to_multiset_ensures();
        other_order.to_multiset_ensures();
        if order.len() == 1 {
            assert(order.contains(order[0]));
            assert(order.to_multiset().count(order[0]) > 0);
            assert(other_order.to_multiset().count(order[0]) > 0);
            assert(other_order.contains(order[0]));
        }
        assert(order =~= other_order);
    }
}

/// Scripts are run with the time of the main network.
pub proof fn default_slots_are_the_main_network()
    ensures
        default_slots() == network_slots(NetworkType::Mainnet),
{
}

/// The list of a transaction names each input that the transaction spends, then each that
/// it refers to, then each that it offers as collateral, whatever the others are, and
/// nothing else.
pub proof fn every_input_is_requested(tx: MultiEraTx<'_>, i: int)
    ensures
        ({
            let (spent, references, collateral) = (
                spent_inputs(tx),
                reference_inputs(tx),
                collateral_inputs(tx),
            );
            let first = spent.len();
            let second = spent.len() + references.len();
            &&& requested(tx).len() == spent.len() + references.len() + collateral.len()
            &&& 0 <= i < spent.len() ==> requested(tx)[i] == input_text(spent[i])
            &&& 0 <= i < references.len() ==> requested(tx)[first + i] == input_text(references[i])
            &&& 0 <= i < collateral.len() ==> requested(tx)[second + i] == input_text(
                collateral[i],
            )
        }),
{
}

/// An input of a transaction is requested, of whichever kind it is.
pub proof fn inputs_of_all_kinds_are_requested(tx: MultiEraTx<'_>, input: InputView)
    requires
        spent_inputs(tx).contains(input) || reference_inputs(tx).contains(input)
            || collateral_inputs(tx).contains(input),
    ensures
        requested(tx).contains(input_text(input)),
{
    let all = requested(tx);
    let first = spent_inputs(tx).len();
    let second = first + reference_inputs(tx).len();
    if spent_inputs(tx).contains(input) {
        let i = choose|i: int| 0 <= i < spent_inputs(tx).len() && spent_inputs(tx)[i] == input;
        assert(all[i] == input_text(input));
    } else if reference_inputs(tx).contains(input) {
        let i = choose|i: int|
            0 <= i < reference_inputs(tx).len() && reference_inputs(tx)[i] == input;
        assert(all[first + i] == input_text(input));
    } else {
        let i = choose|i: int|
            0 <= i < collateral_inputs(tx).len() && collateral_inputs(tx)[i] == input;
        assert(all[second + i] == input_text(input));
    }
}

/// The text of an input can be read back: the hash in hexadecimal, the sign "#", and the
/// index in decimal.
pub proof fn request_can_be_read(input: InputView)
    ensures
        ({
            let text = input_text(input);
            let n = 2 * input.transaction_id.len() as int;
            &&& text.len() > n + 1
            &&& is_hex(text.take(n))
            &&& hex_bytes(text.take(n)) == input.transaction_id
            &&& text[n] == '#'
            &&& spelt_number(text.skip(n + 1)) == input.index
            &&& text.skip(n + 1)[0] == '0' ==> input.index == 0
        }),
{
    let text = input_text(input);
    let n = 2 * input.transaction_id.len() as int;
    reveal_strlit("#");
    hex_round_trip(input.transaction_id);
    decimal_spells_the_number(input.index as nat);
    assert(text.take(n) =~= hex_text(input.transaction_id));
    assert(text.skip(n + 1) =~= decimal(input.index as nat));
}

/// An output is given for an input exactly if it has the input's hash, in lower case, and
/// its index.
pub proof fn outputs_are_given_by_hash_and_index(input: InputView, utxo: UTxOView)
    ensures
        is_given(input_text(input), seq![utxo]) <==> utxo.tx_hash == hex_text(
            input.transaction_id,
        ) && utxo.output_index == input.index,
{
    let n = hex_text(input.transaction_id).len() as int;
    let m = utxo.tx_hash.len() as int;
    let request = input_text(input);
    let text = utxo_text(utxo);
    reveal_strlit("#");
    outputs_are_given_by_their_text(input_text(input), utxo);
    hex_is_lower_case(input.transaction_id);
    decimal_spells_the_number(input.index as nat);
    assert(request.take(n) =~= hex_text(input.transaction_id));
    assert(request.skip(n + 1) =~= decimal(input.index as nat));
    if is_given(request, seq![utxo]) {
        assert(request[m] == '#');
        if m < n {
            assert(request[m] == hex_text(input.transaction_id)[m]);
        } else if n < m {
            assert(request[m] == decimal(input.index as nat)[m - n - 1]);
        }
        decimal_is_injective(utxo.output_index as nat, input.index as nat);
    }
}

/// An output is given for a text exactly if the text is the output's hash as it stands, the
/// sign "#", and the output's index in decimal.
pub proof fn outputs_are_given_by_their_text(request: Seq<char>, utxo: UTxOView)
    ensures
        is_given(request, seq![utxo]) <==> {
            let m = utxo.tx_hash.len() as int;
            &&& request.len() > m
            &&& request.take(m) == utxo.tx_hash
            &&& request[m] == '#'
            &&& request.skip(m + 1) == decimal(utxo.output_index as nat)
        },
{
    let m = utxo.tx_hash.len() as int;
    let text = utxo_text(utxo);
    let single = seq![utxo];
    reveal_strlit("#");
    assert(single[0] == utxo);
    assert(is_given(request, single) <==> text == request) by {
        if text == request {
            assert(utxo_text(single[0]) == request);
        }
    }
    assert(text.take(m) =~= utxo.tx_hash);
    assert(text.skip(m + 1) =~= decimal(utxo.output_index as nat));
    if request.len() > m && request.take(m) == utxo.tx_hash && request[m] == '#' && request.skip(
        m + 1,
    ) == decimal(utxo.output_index as nat) {
        assert(request =~= request.take(m) + "#"@ + request.skip(m + 1));
        assert(text =~= request);
    }
}

/// A request is given by outputs exactly if one of them alone gives it.
pub proof fn one_output_gives_a_request(request: Seq<char>, utxos: Seq<UTxOView>)
    ensures
        is_given(request, utxos) <==> exists|i: int|
            0 <= i < utxos.len() && is_given(request, seq![#[trigger] utxos[i]]),
{
    assert forall|i: int| 0 <= i < utxos.len() implies is_given(request, seq![#[trigger] utxos[i]])
        == (utxo_text(utxos[i]) == request) by {
        let single = seq![utxos[i]];
        assert(single[0] == utxos[i]);
        if utxo_text(utxos[i]) == request {
            assert(utxo_text(single[0]) == request);
        }
    }
    if is_given(request, utxos) {
        let i = choose|i: int| 0 <= i < utxos.len() && utxo_text(#[trigger] utxos[i]) == request;
        assert(is_given(request, seq![utxos[i]]));
    }
    if exists|i: int| 0 <= i < utxos.len() && is_given(request, seq![#[trigger] utxos[i]]) {
        let i = choose|i: int|
            0 <= i < utxos.len() && is_given(request, seq![#[trigger] utxos[i]]);
        assert(utxo_text(utxos[i]) == request);
    }
}

/// What is missed of requests is what is missed of the first of them, and then what is
/// missed of the rest; a single request is missed exactly if it is not given.
pub proof fn missed_outputs_keep_their_order(
    first: Seq<Seq<char>>,
    second: Seq<Seq<char>>,
    request: Seq<char>,
    utxos: Seq<UTxOView>,
)
    ensures
        missed(first + second, utxos) == missed(first, utxos) + missed(second, utxos),
        missed(seq![request], utxos) == if is_given(request, utxos) {
            Seq::<Seq<char>>::empty()
        } else {
            seq![request]
        },
    decreases second.len(),
{
    let single = seq![request];
    assert(single.drop_last() =~= Seq::empty());
    assert(missed(single.drop_last(), utxos) =~= Seq::empty());
    assert(single.last() == request);
    assert(Seq::<Seq<char>>::empty().push(request) =~= seq![request]);
    let both = first + second;
    if second.len() == 0 {
        assert(both =~= first);
        assert(missed(first, utxos) + missed(second, utxos) =~= missed(first, utxos));
    } else {
        assert(both.drop_last() =~= first + second.drop_last());
        assert(both.last() == second.last());
        missed_outputs_keep_their_order(first, second.drop_last(), request, utxos);
        let rest = missed(second.drop_last(), utxos);
        assert(missed(first, utxos) + rest.push(second.last()) =~= (missed(first, utxos)
            + rest).push(second.last()));
    }
}

/// A list of texts is the list of the first of them and the list of the rest, with a comma
/// and a space between.
pub proof fn lists_are_joined(first: Seq<Seq<char>>, second: Seq<Seq<char>>, text: Seq<char>)
    requires
        first.len() > 0,
        second.len() > 0,
    ensures
        listed(first + second) == listed(first) + ", "@ + listed(second),
        listed(seq![text]) == text,
    decreases second.len(),
{
    let both = first + second;
    assert(both.last() == second.last());
    assert(both.drop_last() =~= first + second.drop_last());
    if second.len() == 1 {
        assert(both.drop_last() =~= first);
    } else {
        lists_are_joined(first, second.drop_last(), text);
        assert(listed(first) + ", "@ + listed(second.drop_last()) + ", "@ + second.last()
            =~= listed(first) + ", "@ + (listed(second.drop_last()) + ", "@ + second.last()));
    }
}

/// A request that lacks outputs is answered with the list of those that lack, where
/// nothing before that refuses it.
pub proof fn lacking_outputs_are_named(
    tx_hex: Seq<char>,
    utxos: Seq<UTxOView>,
    models: Result<CostModelsView, Seq<char>>,
)
    requires
        hex_tx(tx_hex) is Ok,
        resolved_utxos(utxos) is Ok,
        missed(requested(hex_tx(tx_hex)->Ok_0), utxos).len() > 0,
    ensures
        answer(tx_hex, Ok(utxos), models) == Err::<Json, Seq<char>>(
            "Can't get these UTXOs from API, check the network type: "@ + listed(
                missed(requested(hex_tx(tx_hex)->Ok_0), utxos),
            ),
        ),
{
}

/// A transaction is read out of any hexadecimal text of its bytes; one of another era is
/// refused.
pub proof fn transactions_are_read_from_hexadecimal_text(tx_hex: Seq<char>, bytes: Seq<u8>)
    requires
        tx_hex == hex_text(bytes) || is_hex(tx_hex) && hex_bytes(tx_hex) == bytes,
    ensures
        hex_tx(tx_hex) == match conway_tx(bytes) {
            Err(message) => Err(message),
            Ok(tx) => if is_conway(tx) {
                Ok(tx)
            } else {
                Err("Invalid transaction type"@)
            },
        },
{
    hex_round_trip(bytes);
}

/// Text that is not hexadecimal is refused with the message of the decoder.
pub proof fn other_text_is_refused(tx_hex: Seq<char>)
    requires
        tx_hex.len() % 2 == 1 || exists|i: int|
            0 <= i < tx_hex.len() && hex_value(#[trigger] tx_hex[i]) is None,
    ensures
        hex_tx(tx_hex) == Err::<MultiEraTx<'static>, Seq<char>>(hex_decode_message(tx_hex)),
{
}

/// An output is resolved by the bytes of its transaction's hash, in hexadecimal of either
/// case, its index and its contents; other text is refused with the message of the
/// decoder.
pub proof fn outputs_are_resolved_as_given(utxo: UTxOView, id: Seq<u8>)
    ensures
        utxo.tx_hash == hex_text(id) || is_hex(utxo.tx_hash) && hex_bytes(utxo.tx_hash) == id
            ==> resolved_utxo(utxo) == if id.len() == 32 {
            resolved_input(id, utxo.output_index as u64, utxo.output)
        } else {
            Err("Invalid transaction hash length"@)
        },
        !is_hex(utxo.tx_hash) ==> resolved_utxo(utxo) == Err::<ResolvedInput, Seq<char>>(
            hex_decode_message(utxo.tx_hash),
        ),
{
    hex_round_trip(id);
}

/// Outputs are resolved one for one and in their order, or refused with the message on the
/// first of them that is refused.
pub proof fn outputs_are_resolved_in_order(utxos: Seq<UTxOView>)
    ensures
        match resolved_utxos(utxos) {
            Ok(resolved) => resolved.len() == utxos.len() && forall|i: int|
                0 <= i < utxos.len() ==> resolved_utxo(#[trigger] utxos[i]) == Ok::<
                    ResolvedInput,
                    Seq<char>,
                >(resolved[i]),
            Err(message) => exists|i: int|
                {
                    &&& 0 <= i < utxos.len()
                    &&& resolved_utxo(#[trigger] utxos[i]) == Err::<ResolvedInput, Seq<char>>(
                        message,
                    )
                    &&& forall|j: int| 0 <= j < i ==> resolved_utxo(#[trigger] utxos[j]) is Ok
                },
        },
    decreases utxos.len(),
{
    if utxos.len() > 0 {
        let fewer = utxos.drop_last();
        let n = utxos.len() - 1;
        outputs_are_resolved_in_order(fewer);
        assert forall|i: int| 0 <= i < n implies fewer[i] == #[trigger] utxos[i] by {}
        match resolved_utxos(fewer) {
            Ok(resolved) => {
                assert forall|i: int| 0 <= i < n implies resolved_utxo(#[trigger] utxos[i]) == Ok::<
                    ResolvedInput,
                    Seq<char>,
                >(resolved[i]) by {
                    assert(fewer[i] == utxos[i]);
                }
                match resolved_utxo(utxos.last()) {
                    Ok(last) => {
                        let all = resolved.push(last);
                        assert forall|i: int| 0 <= i < utxos.len() implies resolved_utxo(
                            #[trigger] utxos[i],
                        ) == Ok::<ResolvedInput, Seq<char>>(all[i]) by {}
                    },
                    Err(message) => {
                        assert(resolved_utxo(utxos[n]) == Err::<ResolvedInput, Seq<char>>(
                            message,
                        ));
                    },
                }
            },
            Err(message) => {
                let i = choose|i: int|
                    {
                        &&& 0 <= i < fewer.len()
                        &&& resolved_utxo(#[trigger] fewer[i]) == Err::<ResolvedInput, Seq<char>>(
                            message,
                        )
                        &&& forall|j: int| 0 <= j < i ==> resolved_utxo(#[trigger] fewer[j]) is Ok
                    };
                assert(resolved_utxo(utxos[i]) == Err::<ResolvedInput, Seq<char>>(message));
                assert forall|j: int| 0 <= j < i implies resolved_utxo(
                    #[trigger] utxos[j],
                ) is Ok by {
                    assert(fewer[j] == utxos[j]);
                }
            },
        }
    }
}

/// Faults are judged in this order: the transaction, the outputs as text, each output, the
/// outputs that lack, the cost models. A request without a fault is not refused.
pub proof fn requests_are_judged_in_order(
    tx_hex: Seq<char>,
    utxos: Result<Seq<UTxOView>, Seq<char>>,
    models: Result<CostModelsView, Seq<char>>,
)
    ensures
        match (hex_tx(tx_hex), utxos) {
            (Err(message), _) => answer(tx_hex, utxos, models) == Err::<Json, Seq<char>>(message),
            (Ok(_), Err(message)) => answer(tx_hex, utxos, models) == Err::<Json, Seq<char>>(
                message,
            ),
            (Ok(tx), Ok(given)) => match resolved_utxos(given) {
                Err(message) => answer(tx_hex, utxos, models) == Err::<Json, Seq<char>>(message),
                Ok(_) => if missed(requested(tx), given).len() == 0 {
                    match models {
                        Err(message) => answer(tx_hex, utxos, models) == Err::<Json, Seq<char>>(
                            message,
                        ),
                        Ok(_) => answer(tx_hex, utxos, models) is Ok,
                    }
                } else {
                    answer(tx_hex, utxos, models) is Err
                },
            },
        },
{
}

/// Where the evaluator finds a script to use units, the outcome of its redeemer has exactly
/// these units, whatever the redeemer declares and whatever the other redeemers are; where
/// it gives an error, the outcome has its text. The evaluator gets the transaction's own
/// scripts and the budget of a transaction, for every redeemer anew.
pub proof fn outcomes_are_what_the_evaluator_finds(
    tx: MultiEraTx<'_>,
    utxos: Seq<ResolvedInput>,
    slots: SlotConfig,
    models: Option<CostModelsView>,
    i: int,
)
    requires
        0 <= i < redeemers_of(tx).len(),
    ensures
        ({
            let redeemer = redeemers_of(tx)[i];
            let outcome = all_outcomes(tx, utxos, slots, models)[i];
            let said = redeemer_units(
                tx,
                utxos,
                slots,
                redeemer,
                transaction_table(tx, utxos),
                models,
                ExBudget { mem: 16500000, cpu: 10000000000 },
            );
            &&& said matches Some(Ok(units)) ==> (outcome matches Ok((original, calculated)) && {
                &&& original == redeemer
                &&& calculated.ex_units == units
                &&& calculated.tag == redeemer.tag
                &&& calculated.index == redeemer.index
                &&& calculated.data == redeemer.data
            })
            &&& said matches Some(Err(text)) ==> outcome == Err::<
                (TxRedeemer, TxRedeemer),
                (TxRedeemer, Seq<char>),
            >((redeemer, text))
        }),
{
}

/// Whether a JSON value is the decimal text of a number.
pub open spec fn spells(value: Option<Json>, n: u64) -> bool {
    value matches Some(Json::String(text)) && {
        &&& text.len() > 0
        &&& spelt_number(text) == n
        &&& text[0] == '0' ==> n == 0
        &&& forall|i: int| 0 <= i < text.len() ==> '0' <= #[trigger] text[i] <= '9'
    }
}

/// Whether a JSON object spells units.
pub open spec fn spells_units(value: Option<Json>, units: ExUnits) -> bool {
    value matches Some(object) && {
        &&& object is Object && object->Object_0.len() == 2
        &&& spells(field(object, "steps"@), units.steps)
        &&& spells(field(object, "mem"@), units.mem)
    }
}

/// Units are answered as an object that spells the steps and the memory.
pub proof fn units_are_spelt(units: ExUnits)
    ensures
        spells_units(Some(units_json(units)), units),
{
    reveal_strlit("steps");
    reveal_strlit("mem");
    assert("steps"@.len() != "mem"@.len());
    let object = units_json(units);
    field_is(object, 0);
    field_is(object, 1);
    decimal_spells_the_number(units.steps as nat);
    decimal_spells_the_number(units.mem as nat);
}

proof fn response_keys_differ()
    ensures
        "original_ex_units"@.len() == 17,
        "calculated_ex_units"@.len() == 19,
        "redeemer_index"@.len() == 14,
        "redeemer_tag"@.len() == 12,
        "error"@.len() == 5,
{
    reveal_strlit("original_ex_units");
    reveal_strlit("calculated_ex_units");
    reveal_strlit("redeemer_index");
    reveal_strlit("redeemer_tag");
    reveal_strlit("error");
}

/// The answer on a redeemer spells its declared units, its index and its tag; where its
/// script succeeded the measured units, and no error; else the error, and no measured
/// units.
pub proof fn outcomes_are_answered(
    original: TxRedeemer,
    calculated: TxRedeemer,
    error: Seq<char>,
    outcome: OutcomeView,
)
    requires
        outcome == Ok::<(TxRedeemer, TxRedeemer), (TxRedeemer, Seq<char>)>((original, calculated))
            || outcome == Err::<(TxRedeemer, TxRedeemer), (TxRedeemer, Seq<char>)>(
            (original, error),
        ),
    ensures
        ({
            let object = outcome_json(outcome);
            &&& object is Object && object->Object_0.len() == 4
            &&& spells_units(field(object, "original_ex_units"@), original.ex_units)
            &&& spells(field(object, "redeemer_index"@), original.index as u64)
            &&& field(object, "redeemer_tag"@) == Some(
                Json::String(
                    match original.tag {
                        RedeemerTag::Spend => "Spend"@,
                        RedeemerTag::Mint => "Mint"@,
                        RedeemerTag::Cert => "Cert"@,
                        RedeemerTag::Reward => "Reward"@,
                        RedeemerTag::Vote => "Vote"@,
                        RedeemerTag::Propose => "Propose"@,
                    },
                ),
            )
            &&& outcome is Ok ==> spells_units(
                field(object, "calculated_ex_units"@),
                calculated.ex_units,
            ) && field(object, "error"@) is None
            &&& outcome is Err ==> field(object, "error"@) == Some(Json::String(error)) && field(
                object,
                "calculated_ex_units"@,
            ) is None
        }),
{
    let object = outcome_json(outcome);
    response_keys_differ();
    field_is(object, 0);
    field_is(object, 1);
    field_is(object, 2);
    field_is(object, 3);
    units_are_spelt(original.ex_units);
    units_are_spelt(calculated.ex_units);
    decimal_spells_the_number(original.index as nat);
}

/// A request that is not refused is answered with one object for each redeemer of the
/// transaction, in their order: it spells the units that the evaluator finds the script to
/// use within the budget of a transaction, or has the text of the evaluator's error.
pub proof fn measured_units_are_answered(
    tx_hex: Seq<char>,
    utxos: Seq<UTxOView>,
    models: CostModelsView,
    i: int,
)
    requires
        answer(tx_hex, Ok(utxos), Ok(models)) is Ok,
        0 <= i < redeemers_of(hex_tx(tx_hex)->Ok_0).len(),
    ensures
        ({
            let tx = hex_tx(tx_hex)->Ok_0;
            let resolved = resolved_utxos(utxos)->Ok_0;
            let redeemer = redeemers_of(tx)[i];
            let said = redeemer_units(
                tx,
                resolved,
                SlotConfig { slot_length: 1000, zero_slot: 4492800, zero_time: 1596059091000 },
                redeemer,
                transaction_table(tx, resolved),
                Some(models),
                ExBudget { mem: 16500000, cpu: 10000000000 },
            );
            answer(tx_hex, Ok(utxos), Ok(models)) matches Ok(Json::Array(objects)) && {
                &&& objects.len() == redeemers_of(tx).len()
                &&& spells_units(field(objects[i], "original_ex_units"@), redeemer.ex_units)
                &&& spells(field(objects[i], "redeemer_index"@), redeemer.index as u64)
                &&& said matches Some(Ok(units)) ==> spells_units(
                    field(objects[i], "calculated_ex_units"@),
                    units,
                ) && field(objects[i], "error"@) is None
                &&& said matches Some(Err(text)) ==> field(objects[i], "error"@) == Some(
                    Json::String(text),
                ) && field(objects[i], "calculated_ex_units"@) is None
            }
        }),
{
    let tx = hex_tx(tx_hex)->Ok_0;
    let resolved = resolved_utxos(utxos)->Ok_0;
    let outcome = all_outcomes(tx, resolved, default_slots(), Some(models))[i];
    outcomes_are_what_the_evaluator_finds(tx, resolved, default_slots(), Some(models), i);
    match outcome {
        Ok((original, calculated)) => {
            outcomes_are_answered(original, calculated, Seq::empty(), outcome);
        },
        Err((original, error)) => {
            outcomes_are_answered(original, original, error, outcome);
        },
    }
}

/// Phase one fails exactly if it is run and finds something wrong by the transaction's own
/// scripts; where it is not run nothing fails.
pub proof fn phase_one_fails_only_if_run(tx: MultiEraTx<'_>, utxos: Seq<ResolvedInput>)
    ensures
        !fails_phase_one(tx, utxos, false),
        fails_phase_one(tx, utxos, true) <==> phase_one(
            tx,
            utxos,
            transaction_table(tx, utxos),
        ) matches Some(Err(_)),
{
}

/// Whether the evaluator returns for a redeemer of a transaction.
pub open spec fn returns_for(
    tx: MultiEraTx<'_>,
    utxos: Seq<ResolvedInput>,
    slots: SlotConfig,
    models: Option<CostModelsView>,
    redeemer: TxRedeemer,
) -> bool {
    redeemer_units(
        tx,
        utxos,
        slots,
        redeemer,
        transaction_table(tx, utxos),
        models,
        ExBudget { mem: 16500000, cpu: 10000000000 },
    ) is Some
}

/// A request can be executed exactly if it is refused or the evaluator returns for every
/// redeemer, and needs no evaluator exactly if it is refused or there is no redeemer.
pub proof fn executable_requests(
    tx_hex: Seq<char>,
    utxos: Seq<UTxOView>,
    models: CostModelsView,
)
    ensures
        ({
            let tx = hex_tx(tx_hex)->Ok_0;
            let resolved = resolved_utxos(utxos)->Ok_0;
            let refused = answer(tx_hex, Ok(utxos), Ok(models)) is Err;
            &&& is_executable(tx_hex, Ok(utxos), Ok(models)) <==> refused || forall|i: int|
                0 <= i < redeemers_of(tx).len() ==> returns_for(
                    tx,
                    resolved,
                    default_slots(),
                    Some(models),
                    #[trigger] redeemers_of(tx)[i],
                )
            &&& needs_no_evaluator(tx_hex, Ok(utxos), Ok(models)) <==> refused || redeemers_of(
                tx,
            ).len() == 0
        }),
{
}

/// Requests whose outputs or cost models could not be read are refused, so they can be
/// executed and need no evaluator.
pub proof fn unreadable_requests_are_executable(
    tx_hex: Seq<char>,
    utxos: Result<Seq<UTxOView>, Seq<char>>,
    models: Result<CostModelsView, Seq<char>>,
)
    requires
        utxos is Err || models is Err,
    ensures
        answer(tx_hex, utxos, models) is Err,
        is_executable(tx_hex, utxos, models),
        needs_no_evaluator(tx_hex, utxos, models),
{
}

/// Where all redeemers are evaluated, either phase one is run and fails with a message that
/// is its own, or there is an outcome for each redeemer, in their order: the units that
/// the evaluator finds, or its text.
pub proof fn evaluations_are_complete(
    outcomes: Result<Vec<RedeemerOutcome>, JsError>,
    tx: MultiEraTx<'_>,
    utxos: Seq<ResolvedInput>,
    slots: SlotConfig,
    models: Option<CostModelsView>,
    run_phase_one: bool,
    i: int,
)
    requires
        all_evaluated(outcomes, tx, utxos, slots, models, run_phase_one),
    ensures
        match outcomes {
            Err(error) => {
                &&& run_phase_one
                &&& phase_one(tx, utxos, transaction_table(tx, utxos)) matches Some(Err(failure))
                &&& failure.has_text(error.message@)
            },
            Ok(found) => {
                &&& run_phase_one ==> !(phase_one(
                    tx,
                    utxos,
                    transaction_table(tx, utxos),
                ) matches Some(Err(_)))
                &&& found@.len() == redeemers_of(tx).len()
                &&& 0 <= i < found@.len() ==> {
                    let redeemer = redeemers_of(tx)[i];
                    let said = redeemer_units(
                        tx,
                        utxos,
                        slots,
                        redeemer,
                        transaction_table(tx, utxos),
                        models,
                        ExBudget { mem: 16500000, cpu: 10000000000 },
                    );
                    &&& said matches Some(Ok(units)) ==> (found@[i] matches Ok((
                        original,
                        calculated,
                    )) && original == redeemer && calculated.ex_units == units && calculated.tag
                        == redeemer.tag && calculated.index == redeemer.index && calculated.data
                        == redeemer.data)
                    &&& said matches Some(Err(text)) ==> (found@[i] matches Err((original, error))
                        && original == redeemer && error@ == text)
                }
            },
        },
{
    if let Ok(found) = outcomes {
        assert(outcome_views(found@).len() == found@.len());
        assert(outcome_views(found@).len() == all_outcomes(tx, utxos, slots, models).len());
        if 0 <= i < redeemers_of(tx).len() {
            outcomes_are_what_the_evaluator_finds(tx, utxos, slots, models, i);
            assert(outcome_views(found@)[i] == outcome_view(found@[i]));
        }
    }
}

} // verus!
