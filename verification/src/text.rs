//! Decimal and hexadecimal text.

use vstd::prelude::*;
use vstd::string::StringExecFns;

verus! {

/// The character of a decimal digit.
pub open spec fn digit_char(digit: nat) -> char {
    (('0' as nat) + digit) as char
}

/// The decimal text of `n`, without leading zeros.
pub open spec fn decimal(n: nat) -> Seq<char>
    decreases n,
{
    if n < 10 {
        seq![digit_char(n)]
    } else {
        decimal(n / 10).push(digit_char(n % 10))
    }
}

fn digit_text(digit: u128) -> (text: &'static str)
    requires
        digit < 10,
    ensures
        text@ == seq![digit_char(digit as nat)],
{
    proof {
        reveal_strlit("0");
        reveal_strlit("1");
        reveal_strlit("2");
        reveal_strlit("3");
        reveal_strlit("4");
        reveal_strlit("5");
        reveal_strlit("6");
        reveal_strlit("7");
        reveal_strlit("8");
        reveal_strlit("9");
    }
    match digit {
        0 => "0",
        1 => "1",
        2 => "2",
        3 => "3",
        4 => "4",
        5 => "5",
        6 => "6",
        7 => "7",
        8 => "8",
        _ => "9",
    }
}

/// The decimal text of `n`.
pub fn decimal_text(n: u128) -> (text: String)
    ensures
        text@ == decimal(n as nat),
    decreases n,
{
    if n < 10 {
        digit_text(n).to_owned()
    } else {
        let mut text = decimal_text(n / 10);
        text.append(digit_text(n % 10));
        proof {
            assert(text@ =~= decimal((n / 10) as nat).push(digit_char((n % 10) as nat)));
        }
        text
    }
}

/// Different numbers have different decimal texts.
pub proof fn decimal_is_injective(n: nat, m: nat)
    requires
        decimal(n) == decimal(m),
    ensures
        n == m,
    decreases n,
{
    decimal_is_not_empty(n / 10);
    decimal_is_not_empty(m / 10);
    assert forall|d: nat, e: nat| d < 10 && e < 10 && #[trigger] digit_char(d)
        == #[trigger] digit_char(e) implies d == e by {}
    if n < 10 || m < 10 {
        assert(n >= 10 ==> decimal(n).len() >= 2);
        assert(m >= 10 ==> decimal(m).len() >= 2);
        assert(n < 10 ==> decimal(n) == seq![digit_char(n)]);
        assert(m < 10 ==> decimal(m) == seq![digit_char(m)]);
        assert(n < 10 && m < 10);
        assert(seq![digit_char(n)][0] == seq![digit_char(m)][0]);
    } else {
        let (head, tail) = (decimal(n / 10), digit_char(n % 10));
        let (other_head, other_tail) = (decimal(m / 10), digit_char(m % 10));
        assert(decimal(n) == head.push(tail));
        assert(decimal(m) == other_head.push(other_tail));
        assert(head.push(tail).last() == tail);
        assert(other_head.push(other_tail).last() == other_tail);
        assert(head.push(tail).drop_last() =~= head);
        assert(other_head.push(other_tail).drop_last() =~= other_head);
        decimal_is_injective(n / 10, m / 10);
    }
}

/// The number that decimal digits spell.
pub open spec fn spelt_number(text: Seq<char>) -> nat
    decreases text.len(),
{
    if text.len() == 0 {
        0
    } else {
        (10 * spelt_number(text.drop_last()) + (text.last() as int - '0' as int)) as nat
    }
}

/// The decimal text of a number consists of digits that spell it, with no zero in front
/// but for the number zero.
pub proof fn decimal_spells_the_number(n: nat)
    ensures
        spelt_number(decimal(n)) == n,
        decimal(n).len() > 0,
        forall|i: int| 0 <= i < decimal(n).len() ==> '0' <= #[trigger] decimal(n)[i] <= '9',
        decimal(n)[0] == '0' ==> n == 0,
    decreases n,
{
    if n < 10 {
        let text = decimal(n);
        assert(text.drop_last() =~= Seq::empty());
        assert(spelt_number(text.drop_last()) == 0);
        assert(text.last() == digit_char(n));
    } else {
        decimal_spells_the_number(n / 10);
        let head = decimal(n / 10);
        let text = decimal(n);
        assert(text == head.push(digit_char(n % 10)));
        assert(text.drop_last() =~= head);
        assert(text.last() == digit_char(n % 10));
        assert(text[0] == head[0]);
        assert forall|i: int| 0 <= i < text.len() implies '0' <= #[trigger] text[i] <= '9' by {
            if i < head.len() {
                assert(text[i] == head[i]);
            }
        }
    }
}

proof fn decimal_is_not_empty(n: nat)
    ensures
        decimal(n).len() > 0,
    decreases n,
{
    if n >= 10 {
        decimal_is_not_empty(n / 10);
    }
}

/// The lower-case hexadecimal digit of a value below sixteen.
pub open spec fn hex_char(nibble: nat) -> char {
    if nibble < 10 {
        (('0' as nat) + nibble) as char
    } else {
        (('a' as nat) + (nibble - 10)) as char
    }
}

/// The hexadecimal text of `bytes`: two lower-case digits for each byte, the
/// high half first.
pub open spec fn hex_text(bytes: Seq<u8>) -> Seq<char> {
    Seq::new(
        2 * bytes.len(),
        |i: int|
            hex_char(
                if i % 2 == 0 {
                    bytes[i / 2] as nat / 16
                } else {
                    bytes[i / 2] as nat % 16
                },
            ),
    )
}

/// `hex::encode`: the result is the text that `hex_text` describes.
#[verifier::external_body]
pub(crate) fn hex_encode(bytes: &[u8]) -> (text: String)
    ensures
        text@ == hex_text(bytes@),
{
    hex::encode(bytes)
}

/// The value of a hexadecimal digit of either case.
pub open spec fn hex_value(c: char) -> Option<nat> {
    if '0' <= c <= '9' {
        Some((c as nat - '0' as nat) as nat)
    } else if 'a' <= c <= 'f' {
        Some((c as nat - 'a' as nat + 10) as nat)
    } else if 'A' <= c <= 'F' {
        Some((c as nat - 'A' as nat + 10) as nat)
    } else {
        None
    }
}

/// Whether `text` is an even number of hexadecimal digits.
pub open spec fn is_hex(text: Seq<char>) -> bool {
    &&& text.len() % 2 == 0
    &&& forall|i: int| 0 <= i < text.len() ==> hex_value(#[trigger] text[i]) is Some
}

/// The bytes that the hexadecimal text `text` spells.
pub open spec fn hex_bytes(text: Seq<char>) -> Seq<u8> {
    Seq::new(
        text.len() / 2,
        |i: int| (16 * hex_value(text[2 * i])->0 + hex_value(text[2 * i + 1])->0) as u8,
    )
}

/// The message of the error that `hex::decode` gives for `text`.
pub uninterp spec fn hex_decode_message(text: Seq<char>) -> Seq<char>;

/// `hex::decode`: succeeds exactly on an even number of hexadecimal digits, of
/// either case, and gives the bytes that they spell. Of the message on other
/// text it is said only that the text determines it.
#[verifier::external_body]
pub(crate) fn hex_decode(text: &str) -> (bytes: Result<Vec<u8>, String>)
    ensures
        bytes is Ok <==> is_hex(text@),
        bytes matches Ok(decoded) ==> decoded@ == hex_bytes(text@),
        bytes matches Err(message) ==> message@ == hex_decode_message(text@),
{
    hex::decode(text).map_err(|error| error.to_string())
}

/// Decoding the hexadecimal text of `bytes` gives `bytes` back.
pub proof fn hex_round_trip(bytes: Seq<u8>)
    ensures
        is_hex(hex_text(bytes)),
        hex_bytes(hex_text(bytes)) == bytes,
{
    let text = hex_text(bytes);
    assert forall|n: nat| n < 16 implies hex_value(#[trigger] hex_char(n)) == Some(n) by {}
    assert forall|i: int| 0 <= i < text.len() implies hex_value(#[trigger] text[i]) is Some by {
        let b = bytes[i / 2] as nat;
        assert(b / 16 < 16 && b % 16 < 16);
    }
    assert forall|i: int| 0 <= i < bytes.len() implies hex_bytes(text)[i] == bytes[i] by {
        let b = bytes[i] as nat;
        assert(b / 16 < 16 && b % 16 < 16);
        assert(text[2 * i] == hex_char(b / 16));
        assert(text[2 * i + 1] == hex_char(b % 16));
        assert(16 * (b / 16) + b % 16 == b);
    }
    assert(hex_bytes(text) =~= bytes);
}

/// The hexadecimal text of bytes has two digits for each, none of them in upper case.
pub proof fn hex_is_lower_case(bytes: Seq<u8>)
    ensures
        hex_text(bytes).len() == 2 * bytes.len(),
        forall|i: int|
            0 <= i < hex_text(bytes).len() ==> '0' <= #[trigger] hex_text(bytes)[i] <= '9' || 'a'
                <= hex_text(bytes)[i] <= 'f',
{
    let text = hex_text(bytes);
    assert forall|i: int| 0 <= i < text.len() implies '0' <= #[trigger] text[i] <= '9' || 'a'
        <= text[i] <= 'f' by {
        let b = bytes[i / 2] as nat;
        assert(b / 16 < 16 && b % 16 < 16);
    }
}

} // verus!
