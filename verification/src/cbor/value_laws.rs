//! What the JSON tree says of each token and each collection, whatever they hold.

use vstd::prelude::*;

use crate::cbor::cbor_decoder::{
    items_json, leaf_json, map_entry_json, pos_json, run, stepped, tag_name, token_json,
    token_name, tokens_from, CborPos, CollectionView,
};
use crate::cbor::laws::TokenItem;
use crate::cbor::token::{cbor_token, ExtendedTokenView, Tag, TokenRead, TokenView};
use crate::text::{
    decimal, decimal_is_injective, decimal_spells_the_number, hex_bytes, hex_is_lower_case,
    hex_round_trip, is_hex,
};
use crate::value::{field, field_is, number_value, Json, Number};

verus! {

/// The integer that a token is, if it is one.
pub open spec fn integer_of(token: TokenView) -> Option<int> {
    match token {
        TokenView::U8(n) => Some(n as int),
        TokenView::U16(n) => Some(n as int),
        TokenView::U32(n) => Some(n as int),
        TokenView::U64(n) => Some(n as int),
        TokenView::I8(n) => Some(n as int),
        TokenView::I16(n) => Some(n as int),
        TokenView::I32(n) => Some(n as int),
        TokenView::I64(n) => Some(n as int),
        TokenView::Int(n) => Some(n as int),
        TokenView::Simple(n) => Some(n as int),
        _ => None,
    }
}

/// Every integer that a JSON number can hold keeps its value. Any other is refused, with
/// its sign and the number by which it is encoded.
pub proof fn integers_keep_their_value(token: TokenView, n: int)
    requires
        integer_of(token) == Some(n),
    ensures
        match token_json(token) {
            Ok(value) => {
                &&& -0x8000_0000_0000_0000 <= n < 0x1_0000_0000_0000_0000
                &&& value matches Json::Number(number)
                &&& number_value(number) == Some(n)
                &&& number is NegInt <==> n < 0
            },
            Err(message) => {
                &&& !(-0x8000_0000_0000_0000 <= n < 0x1_0000_0000_0000_0000)
                &&& forall|k: nat|
                    #![trigger decimal(k)]
                    n == k ==> message == "Can't covert CBOR int into js Value. "@ + (
                    "Int { neg: false, val: "@ + decimal(k) + " }"@)
                &&& forall|k: nat|
                    #![trigger decimal(k)]
                    n == -1 - k ==> message == "Can't covert CBOR int into js Value. "@ + (
                    "Int { neg: true, val: "@ + decimal(k) + " }"@)
            },
        },
{
}

/// Floating-point numbers keep their bits, unless all bits of the exponent are set: those
/// are refused.
pub proof fn floats_keep_their_bits(single: u32, double: u64)
    ensures
        match token_json(TokenView::F32(single)) {
            Ok(value) => single & 0x7f80_0000 != 0x7f80_0000 && value == Json::Number(
                Number::Single(single),
            ),
            Err(message) => single & 0x7f80_0000 == 0x7f80_0000 && message
                == "Failed to convert float"@,
        },
        token_json(TokenView::F16(single)) == token_json(TokenView::F32(single)),
        match token_json(TokenView::F64(double)) {
            Ok(value) => double & 0x7ff0_0000_0000_0000 != 0x7ff0_0000_0000_0000 && value
                == Json::Number(Number::Double(double)),
            Err(message) => double & 0x7ff0_0000_0000_0000 == 0x7ff0_0000_0000_0000 && message
                == "Failed to convert float"@,
        },
{
    assert((single / 0x80_0000 % 0x100 != 0xff) == (single & 0x7f80_0000 != 0x7f80_0000))
        by (bit_vector);
    assert((double / 0x10_0000_0000_0000 % 0x800 != 0x7ff) == (double & 0x7ff0_0000_0000_0000
        != 0x7ff0_0000_0000_0000)) by (bit_vector);
}

/// Bytes are given as hexadecimal text in lower case, from which they can be read back.
/// Text and truth values are given as they are, the absence of a value as such. What
/// starts a collection has no value of its own.
pub proof fn scalars_keep_their_contents(bytes: Seq<u8>, text: Seq<char>, truth: bool)
    ensures
        token_json(TokenView::Bytes(bytes)) matches Ok(Json::String(digits)) && {
            &&& is_hex(digits)
            &&& hex_bytes(digits) == bytes
            &&& forall|i: int|
                0 <= i < digits.len() ==> '0' <= #[trigger] digits[i] <= '9' || 'a' <= digits[i]
                    <= 'f'
        },
        token_json(TokenView::String(text)) == Ok::<Json, Seq<char>>(Json::String(text)),
        token_json(TokenView::Bool(truth)) == Ok::<Json, Seq<char>>(Json::Bool(truth)),
        token_json(TokenView::Null) == Ok::<Json, Seq<char>>(Json::Null),
        token_json(TokenView::Undefined) == Ok::<Json, Seq<char>>(Json::Null),
        token_json(TokenView::Break) == Ok::<Json, Seq<char>>(Json::Null),
{
    hex_round_trip(bytes);
    hex_is_lower_case(bytes);
}

/// A token starts a collection exactly if it declares a length, is a tag, or begins
/// something of indefinite length; it then has no value of its own, and the collection
/// starts at its place, empty.
pub proof fn starts_have_no_value(token: ExtendedTokenView)
    ensures
        CollectionView::started(token) is Some <==> token.token.starts_collection(),
        token.token.starts_collection() <==> match token.token {
            TokenView::Array(_) | TokenView::MapOf(_) | TokenView::Tag(_) => true,
            TokenView::BeginArray | TokenView::BeginMap => true,
            TokenView::BeginBytes | TokenView::BeginString => true,
            _ => false,
        },
        token.token.starts_collection() ==> token_json(token.token) == Err::<Json, Seq<char>>(
            "Collection token cannot be a direct value"@,
        ),
        CollectionView::started(token) matches Some(started) ==> {
            &&& started.first_pos() == (CborPos { offset: token.offset, length: token.length })
            &&& started.full_pos() == started.first_pos()
        },
{
}

/// The number of bits of a number's encoding, and the letter of its kind.
pub open spec fn kind_and_width(token: TokenView) -> Option<(Seq<char>, nat)> {
    match token {
        TokenView::U8(_) => Some(("U"@, 8)),
        TokenView::U16(_) => Some(("U"@, 16)),
        TokenView::U32(_) => Some(("U"@, 32)),
        TokenView::U64(_) => Some(("U"@, 64)),
        TokenView::I8(_) => Some(("I"@, 8)),
        TokenView::I16(_) => Some(("I"@, 16)),
        TokenView::I32(_) => Some(("I"@, 32)),
        TokenView::I64(_) => Some(("I"@, 64)),
        TokenView::F16(_) => Some(("F"@, 16)),
        TokenView::F32(_) => Some(("F"@, 32)),
        TokenView::F64(_) => Some(("F"@, 64)),
        _ => None,
    }
}

proof fn widths_in_decimal()
    ensures
        decimal(8) == "8"@,
        decimal(16) == "16"@,
        decimal(32) == "32"@,
        decimal(64) == "64"@,
{
    reveal_strlit("8");
    reveal_strlit("16");
    reveal_strlit("32");
    reveal_strlit("64");
    reveal_with_fuel(decimal, 3);
    assert(decimal(8) =~= "8"@);
    assert(decimal(16) =~= "16"@);
    assert(decimal(32) =~= "32"@);
    assert(decimal(64) =~= "64"@);
}

/// A number is named by the letter of its kind and the width of its encoding.
pub proof fn numbers_are_named_by_their_width(token: TokenView)
    ensures
        kind_and_width(token) matches Some((kind, width)) ==> token_name(token) == kind + decimal(
            width,
        ),
{
    widths_in_decimal();
    reveal_strlit("U");
    reveal_strlit("I");
    reveal_strlit("F");
    reveal_strlit("8");
    reveal_strlit("16");
    reveal_strlit("32");
    reveal_strlit("64");
    reveal_strlit("U8");
    reveal_strlit("U16");
    reveal_strlit("U32");
    reveal_strlit("U64");
    reveal_strlit("I8");
    reveal_strlit("I16");
    reveal_strlit("I32");
    reveal_strlit("I64");
    reveal_strlit("F16");
    reveal_strlit("F32");
    reveal_strlit("F64");
    if let Some((kind, width)) = kind_and_width(token) {
        assert(token_name(token) =~= kind + decimal(width));
    }
}

/// The start of something of indefinite length is named after what it begins; a token is
/// named by its kind, whatever it holds.
pub proof fn starts_are_named_after_what_they_begin(
    n: u64,
    bytes: Seq<u8>,
    text: Seq<char>,
    tag: Tag,
    truth: bool,
    simple: u8,
    wide: i128,
)
    ensures
        token_name(TokenView::BeginArray) == "Begin"@ + token_name(TokenView::Array(n)),
        token_name(TokenView::BeginMap) == "Begin"@ + token_name(TokenView::MapOf(n)),
        token_name(TokenView::BeginBytes) == "Begin"@ + token_name(TokenView::Bytes(bytes)),
        token_name(TokenView::BeginString) == "Begin"@ + token_name(TokenView::String(text)),
        token_name(TokenView::Array(n)) == "Array"@,
        token_name(TokenView::MapOf(n)) == "Map"@,
        token_name(TokenView::Bytes(bytes)) == "Bytes"@,
        token_name(TokenView::String(text)) == "String"@,
        token_name(TokenView::Tag(tag)) == "Tag"@,
        token_name(TokenView::Bool(truth)) == "Bool"@,
        token_name(TokenView::Simple(simple)) == "Simple"@,
        token_name(TokenView::Int(wide)) == "Int"@,
        token_name(TokenView::Null) == "Null"@,
        token_name(TokenView::Undefined) == "Undefined"@,
        token_name(TokenView::Break) == "Break"@,
{
    reveal_strlit("Begin");
    reveal_strlit("Array");
    reveal_strlit("Map");
    reveal_strlit("Bytes");
    reveal_strlit("String");
    reveal_strlit("BeginArray");
    reveal_strlit("BeginMap");
    reveal_strlit("BeginBytes");
    reveal_strlit("BeginString");
    assert("BeginArray"@ =~= "Begin"@ + "Array"@);
    assert("BeginMap"@ =~= "Begin"@ + "Map"@);
    assert("BeginBytes"@ =~= "Begin"@ + "Bytes"@);
    assert("BeginString"@ =~= "Begin"@ + "String"@);
}

/// Different numbers are different tags; a number without a name stays itself, and only
/// the registered ones have a name.
pub proof fn tags_are_told_apart(number: u64, other: u64)
    ensures
        Tag::spec_of_number(number) == Tag::spec_of_number(other) <==> number == other,
        Tag::spec_of_number(number) matches Tag::Unassigned(kept) ==> kept == number,
        Tag::spec_of_number(number) is Unassigned <==> !(number <= 5 || 21 <= number <= 24 || 32
            <= number <= 36),
{
}

/// A tag is given by the name under which its number is registered, or by its number.
pub proof fn tags_are_given_by_their_registered_names(number: u64)
    ensures
        tag_name(Tag::spec_of_number(number)) == match number {
            0 => "DateTime"@,
            1 => "Timestamp"@,
            2 => "PosBignum"@,
            3 => "NegBignum"@,
            4 => "Decimal"@,
            5 => "Bigfloat"@,
            21 => "ToBase64Url"@,
            22 => "ToBase64"@,
            23 => "ToBase16"@,
            24 => "Cbor"@,
            32 => "Uri"@,
            33 => "Base64Url"@,
            34 => "Base64"@,
            35 => "Regex"@,
            36 => "Mime"@,
            _ => "Unassigned("@ + decimal(number as nat) + ")"@,
        },
{
}

/// A tag without a name is given by its number.
pub proof fn unnamed_tags_are_given_by_their_number(number: u64)
    ensures
        tag_name(Tag::Unassigned(number)) == "Unassigned("@ + decimal(number as nat) + ")"@,
{
}

/// Whether a JSON object is that of a position: its offset and its length as numbers.
pub open spec fn is_position(value: Option<Json>, pos: CborPos) -> bool {
    value matches Some(object) && {
        &&& object is Object && object->Object_0.len() == 2
        &&& field(object, "offset"@) == Some(Json::Number(Number::PosInt(pos.offset as u64)))
        &&& field(object, "length"@) == Some(Json::Number(Number::PosInt(pos.length as u64)))
    }
}

/// A position is given by its offset and its length.
pub proof fn positions_are_given(pos: CborPos)
    ensures
        is_position(Some(pos_json(pos)), pos),
{
    reveal_strlit("offset");
    reveal_strlit("length");
    assert("offset"@[0] != "length"@[0]);
    field_is(pos_json(pos), 0);
    field_is(pos_json(pos), 1);
}

proof fn keys_have_their_lengths()
    ensures
        "type"@.len() == 4,
        "items"@.len() == 5,
        "position_info"@.len() == 13,
        "struct_position_info"@.len() == 20,
        "values"@.len() == 6,
        "tag"@.len() == 3,
        "value"@.len() == 5,
        "chunks"@.len() == 6,
        "key"@.len() == 3,
{
    reveal_strlit("type");
    reveal_strlit("items");
    reveal_strlit("position_info");
    reveal_strlit("struct_position_info");
    reveal_strlit("values");
    reveal_strlit("tag");
    reveal_strlit("value");
    reveal_strlit("chunks");
    reveal_strlit("key");
}

/// A scalar is given by its place, its name and its value, and refused exactly if it has
/// no value.
pub proof fn scalars_are_given_with_their_place(token: TokenView, pos: CborPos)
    ensures
        match (token_json(token), leaf_json(token, pos)) {
            (Ok(value), Ok(object)) => {
                &&& object is Object && object->Object_0.len() == 3
                &&& is_position(field(object, "position_info"@), pos)
                &&& field(object, "type"@) == Some(Json::String(token_name(token)))
                &&& field(object, "value"@) == Some(value)
            },
            (Err(message), Err(refusal)) => message == refusal,
            _ => false,
        },
{
    if let Ok(object) = leaf_json(token, pos) {
        keys_have_their_lengths();
        positions_are_given(pos);
        field_is(object, 0);
        field_is(object, 1);
        field_is(object, 2);
    }
}

/// What an array or a map declares to hold: a number, or that it is indefinite.
pub open spec fn declares(value: Option<Json>, length: Option<usize>) -> bool {
    value == Some(
        match length {
            Some(n) => Json::Number(Number::PosInt(n as u64)),
            None => Json::String("Indefinite"@),
        },
    )
}

/// A collection is given by its kind, the place of its first token, the place of all of
/// it, and what it holds; a tag without a value is refused.
pub proof fn collections_are_given_with_their_places(collection: CollectionView)
    ensures
        match collection.value() {
            Err(message) => {
                &&& collection matches CollectionView::Tag { value: None, .. }
                &&& message == "Tag has no value"@
            },
            Ok(object) => {
                &&& object is Object
                &&& is_position(field(object, "position_info"@), collection.first_pos())
                &&& is_position(field(object, "struct_position_info"@), collection.full_pos())
                &&& match collection {
                    CollectionView::Array { values, length, .. } => {
                        &&& object->Object_0.len() == 5
                        &&& field(object, "type"@) == Some(Json::String("Array"@))
                        &&& declares(field(object, "items"@), length)
                        &&& field(object, "values"@) == Some(values)
                    },
                    CollectionView::Mapping { values, length, .. } => {
                        &&& object->Object_0.len() == 5
                        &&& field(object, "type"@) == Some(Json::String("Map"@))
                        &&& declares(field(object, "items"@), length)
                        &&& field(object, "values"@) == Some(values)
                    },
                    CollectionView::Tag { value, tag, .. } => {
                        &&& object->Object_0.len() == 5
                        &&& field(object, "type"@) == Some(Json::String("Tag"@))
                        &&& field(object, "tag"@) == Some(Json::String(tag_name(tag)))
                        &&& field(object, "value"@) == value
                    },
                    CollectionView::IndefiniteString { chunks, .. } => {
                        &&& object->Object_0.len() == 4
                        &&& field(object, "type"@) == Some(Json::String("IndefiniteLengthString"@))
                        &&& field(object, "chunks"@) == Some(Json::Array(chunks))
                    },
                    CollectionView::IndefiniteBytes { chunks, .. } => {
                        &&& object->Object_0.len() == 4
                        &&& field(object, "type"@) == Some(Json::String("IndefiniteLengthBytes"@))
                        &&& field(object, "chunks"@) == Some(Json::Array(chunks))
                    },
                }
            },
        },
{
    if let Ok(object) = collection.value() {
        keys_have_their_lengths();
        positions_are_given(collection.first_pos());
        positions_are_given(collection.full_pos());
        field_is(object, 0);
        field_is(object, 1);
        field_is(object, 2);
        field_is(object, 3);
        if object->Object_0.len() == 5 {
            field_is(object, 4);
        }
    }
}

/// An entry of a map is given by its key and its value.
pub proof fn entries_are_given_by_key_and_value(key: Json, value: Json)
    ensures
        field(map_entry_json(key, value), "key"@) == Some(key),
        field(map_entry_json(key, value), "value"@) == Some(value),
        map_entry_json(key, value)->Object_0.len() == 2,
{
    keys_have_their_lengths();
    field_is(map_entry_json(key, value), 0);
    field_is(map_entry_json(key, value), 1);
}

/// What a collection holds, in order.
pub open spec fn contents(collection: CollectionView) -> Seq<Json> {
    match collection {
        CollectionView::Array { values: Json::Array(elements), .. } => elements,
        CollectionView::Mapping { values: Json::Array(entries), .. } => entries,
        CollectionView::Tag { value: Some(value), .. } => seq![value],
        CollectionView::IndefiniteString { chunks, .. } => chunks,
        CollectionView::IndefiniteBytes { chunks, .. } => chunks,
        _ => Seq::empty(),
    }
}

/// How many values a collection has counted.
pub open spec fn counted(collection: CollectionView) -> nat {
    match collection {
        CollectionView::Array { count, .. } => count,
        CollectionView::Mapping { count, .. } => count,
        _ => 0,
    }
}

/// A value that is added to a collection stands behind what it held before, and nothing
/// else changes but the end of its place. In a map every second value makes an entry with
/// the one before it, which waits as its key until then. Only the chunks of a string do
/// not take up the break, and only values, not breaks, are counted.
pub proof fn values_are_added_at_the_end(
    collection: CollectionView,
    value: Json,
    pos: CborPos,
    finalizer: bool,
)
    ensures
        collection.added(value, pos, finalizer) matches Ok(next) ==> {
            &&& next.first_pos() == collection.first_pos()
            &&& next.full_pos().offset == collection.full_pos().offset
            &&& collection is Array <==> next is Array
            &&& collection is Mapping <==> next is Mapping
            &&& collection is Tag <==> next is Tag
            &&& collection is IndefiniteString <==> next is IndefiniteString
            &&& collection is IndefiniteBytes <==> next is IndefiniteBytes
            &&& match (collection, next) {
                (CollectionView::Array { length, .. }, CollectionView::Array { length: kept, .. })
                    => {
                    &&& kept == length
                    &&& contents(next) == contents(collection).push(value)
                    &&& counted(next) == counted(collection) + if finalizer {
                        0nat
                    } else {
                        1nat
                    }
                },
                (
                    CollectionView::Mapping { key: None, length, full, .. },
                    CollectionView::Mapping { key, length: kept, full: same, .. },
                ) => {
                    &&& kept == length
                    &&& same == full
                    &&& key == Some(value)
                    &&& contents(next) == contents(collection)
                    &&& counted(next) == counted(collection)
                },
                (
                    CollectionView::Mapping { key: Some(waiting), length, .. },
                    CollectionView::Mapping { key, length: kept, .. },
                ) => {
                    &&& kept == length
                    &&& key is None
                    &&& contents(next).len() == contents(collection).len() + 1
                    &&& contents(next).drop_last() == contents(collection)
                    &&& field(contents(next).last(), "key"@) == Some(waiting)
                    &&& field(contents(next).last(), "value"@) == Some(value)
                    &&& counted(next) == counted(collection) + if finalizer {
                        0nat
                    } else {
                        1nat
                    }
                },
                (CollectionView::Tag { tag, .. }, CollectionView::Tag { tag: kept, .. }) => {
                    &&& kept == tag
                    &&& contents(next) == seq![value]
                },
                _ => contents(next) == if finalizer {
                    contents(collection)
                } else {
                    contents(collection).push(value)
                },
            }
        },
{
    if let CollectionView::Mapping { key: Some(waiting), values: Json::Array(entries), .. } =
        collection {
        entries_are_given_by_key_and_value(waiting, value);
        let more = entries.push(map_entry_json(waiting, value));
        assert(more.drop_last() =~= entries);
        assert(more.last() == map_entry_json(waiting, value));
    }
}

/// A value prolongs the place of a collection to its end, if it ends behind it; the key of
/// a map does not.
pub proof fn places_reach_the_last_value(
    collection: CollectionView,
    value: Json,
    pos: CborPos,
    finalizer: bool,
)
    requires
        pos.wf(),
        collection.full_pos().wf(),
        !(collection matches CollectionView::Mapping { key: None, .. }),
    ensures
        collection.added(value, pos, finalizer) matches Ok(next) ==> next.full_pos().end() == if
            pos.end() > collection.full_pos().end() {
            pos.end()
        } else {
            collection.full_pos().end()
        },
{
}

/// A finished collection says why it takes no more.
pub proof fn full_collections_say_so(
    collection: CollectionView,
    value: Json,
    pos: CborPos,
    finalizer: bool,
)
    requires
        collection.finished(),
    ensures
        collection.added(value, pos, finalizer) == Err::<CollectionView, Seq<char>>(
            if collection is Array {
                "Array is already full"@
            } else if collection is Mapping {
                "Map is already full"@
            } else {
                "Tag already has a value"@
            },
        ),
{
}

/// Tokens lie one behind the other from the start on. Each is the one that stands at its
/// offset. Only the last item may be a fault; it is the one behind the last token, and
/// without one the input has no further token there.
pub proof fn tokens_lie_in_a_row(data: Seq<u8>, position: nat)
    requires
        data.len() <= usize::MAX,
        position <= data.len(),
        forall|p: nat|
            (#[trigger] cbor_token(data, p)) matches TokenRead::Token(_, end) ==> p < end
                <= data.len(),
    ensures
        ({
            let items = tokens_from(data, position);
            match cbor_token(data, position) {
                TokenRead::EndOfInput => items.len() == 0,
                TokenRead::Malformed(message) => items.len() == 1 && items[0] == Err::<
                    ExtendedTokenView,
                    Seq<char>,
                >(message),
                TokenRead::Token(token, end) => {
                    &&& items.len() > 0
                    &&& items[0] matches Ok(found)
                    &&& found.token == token
                    &&& found.offset == position
                    &&& found.offset + found.length == end
                    &&& items.drop_first() == tokens_from(data, end)
                },
            }
        }),
        forall|i: int|
            #![trigger tokens_from(data, position)[i]]
            0 <= i < tokens_from(data, position).len() ==> match tokens_from(data, position)[i] {
                Ok(found) => cbor_token(data, found.offset as nat) == TokenRead::Token(
                    found.token,
                    (found.offset + found.length) as nat,
                ),
                Err(message) => {
                    &&& i == tokens_from(data, position).len() - 1
                    &&& exists|p: nat| #[trigger]
                        cbor_token(data, p) == TokenRead::Malformed(message)
                },
            },
    decreases data.len() - position,
{
    let items = tokens_from(data, position);
    match cbor_token(data, position) {
        TokenRead::Token(token, end) => {
            let rest = tokens_from(data, end);
            tokens_lie_in_a_row(data, end);
            assert(items.drop_first() =~= rest);
            assert forall|i: int|
                #![trigger tokens_from(data, position)[i]]
                0 <= i < items.len() implies match tokens_from(data, position)[i] {
                Ok(found) => cbor_token(data, found.offset as nat) == TokenRead::Token(
                    found.token,
                    (found.offset + found.length) as nat,
                ),
                Err(message) => {
                    &&& i == items.len() - 1
                    &&& exists|p: nat| #[trigger]
                        cbor_token(data, p) == TokenRead::Malformed(message)
                },
            } by {
                if i > 0 {
                    assert(items[i] == rest[i - 1]);
                }
            }
        },
        TokenRead::Malformed(message) => {
            assert(cbor_token(data, position) == TokenRead::Malformed(message));
        },
        TokenRead::EndOfInput => {},
    }
}

/// A fault in the input is reported, with its description, where nothing before it is
/// refused.
pub proof fn faults_are_reported(
    stack: Seq<CollectionView>,
    items: Seq<TokenItem>,
    fault: Seq<char>,
)
    requires
        run(stack, items) is Ok,
    ensures
        run(stack, items.push(Err(fault))) == Err::<Seq<CollectionView>, Seq<char>>(
            "Failed to decode CBOR token: "@ + fault,
        ),
        stack == seq![CollectionView::root()] ==> items_json(items.push(Err(fault))) == Err::<
            Json,
            Seq<char>,
        >("Failed to decode CBOR token: "@ + fault),
{
    crate::cbor::laws::run_composes(stack, items, seq![Err(fault)]);
    assert(items + seq![Err::<ExtendedTokenView, Seq<char>>(fault)] =~= items.push(Err(fault)));
}

/// Unnamed tags are told apart by their names.
pub proof fn unnamed_tags_have_different_names(number: u64, other: u64)
    requires
        tag_name(Tag::Unassigned(number)) == tag_name(Tag::Unassigned(other)),
    ensures
        number == other,
{
    let name = tag_name(Tag::Unassigned(number));
    let start = "Unassigned("@.len() as int;
    reveal_strlit(")");
    let first = decimal(number as nat);
    let second = decimal(other as nat);
    decimal_spells_the_number(number as nat);
    decimal_spells_the_number(other as nat);
    assert(name.subrange(start, name.len() - 1) =~= first);
    assert(tag_name(Tag::Unassigned(other)).subrange(start, name.len() - 1) =~= second);
    decimal_is_injective(number as nat, other as nat);
}

/// Where no collection is open, a break and a value are refused, each with its reason.
pub proof fn nothing_is_added_to_nothing(token: ExtendedTokenView)
    requires
        !token.token.starts_collection(),
        token_json(token.token) is Ok,
    ensures
        stepped(Seq::<CollectionView>::empty(), token) == Err::<Seq<CollectionView>, Seq<char>>(
            if token.token == TokenView::Break {
                "No collection to finalize"@
            } else {
                "No active collection found"@
            },
        ),
{
}

/// A collection whose contents are no array is refused, with the reason.
pub proof fn contents_have_to_be_an_array(
    collection: CollectionView,
    value: Json,
    pos: CborPos,
    finalizer: bool,
)
    requires
        !collection.finished(),
    ensures
        match collection {
            CollectionView::Array { values, .. } => !(values is Array) ==> collection.added(
                value,
                pos,
                finalizer,
            ) == Err::<CollectionView, Seq<char>>("Array collection is not actually array"@),
            CollectionView::Mapping { values, key, .. } => !(values is Array) && key is Some
                ==> collection.added(value, pos, finalizer) == Err::<CollectionView, Seq<char>>(
                "Map collection is not stored as array"@,
            ),
            _ => collection.added(value, pos, finalizer) is Ok,
        },
{
}

} // verus!
