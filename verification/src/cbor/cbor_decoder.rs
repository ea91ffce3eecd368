//! Builds, from CBOR tokens, a JSON tree that keeps every position.

use vstd::prelude::*;
use vstd::string::StringExecFns;

use crate::cbor::token::{
    next_token_spec, ExtendedToken, ExtendedTokenView, ExtendedTokenizer, NextToken, Tag, Token,
    TokenView,
};
use crate::js_error::{viewed, JsError};
use crate::text::{decimal, decimal_text, hex_encode, hex_text};
use crate::value::{
    array_json, entry, integer_number, jsons, number_from_i128, object_json, signed_number,
    signed_value, text_value, unsigned_value, Json, Number, Value,
};

verus! {

/// Position info in the CBOR input (offset + length).
#[derive(Clone, Copy, Debug, PartialEq, Eq, Structural)]
pub struct CborPos {
    pub offset: usize,
    pub length: usize,
}

impl CborPos {
    /// The offset just behind the range.
    pub open spec fn end(self) -> int {
        self.offset + self.length
    }

    /// The range ends inside the address space.
    pub open spec fn wf(self) -> bool {
        self.end() <= usize::MAX
    }

    /// Whether every offset of `other` is in this range.
    pub open spec fn covers(self, other: CborPos) -> bool {
        self.offset <= other.offset && other.end() <= self.end()
    }
}

/// `struct_pos`, prolonged to reach the end of `value_pos` where it does not yet.
pub open spec fn extended(struct_pos: CborPos, value_pos: CborPos) -> CborPos {
    if value_pos.end() > struct_pos.end() {
        CborPos {
            offset: struct_pos.offset,
            length: (value_pos.end() - struct_pos.offset) as usize,
        }
    } else {
        struct_pos
    }
}

/// Extend the position if `value_pos` goes beyond current `struct_pos`.
pub fn extend_pos(struct_pos: &CborPos, value_pos: &CborPos) -> (pos: CborPos)
    requires
        struct_pos.wf(),
        value_pos.wf(),
    ensures
        pos == extended(*struct_pos, *value_pos),
        pos.wf(),
{
    let end_struct: usize = struct_pos.offset + struct_pos.length;
    let end_value: usize = value_pos.offset + value_pos.length;
    if end_value > end_struct {
        CborPos { offset: struct_pos.offset, length: end_value - struct_pos.offset }
    } else {
        *struct_pos
    }
}

/// A JSON number from an unsigned machine word.
pub open spec fn count_json(n: usize) -> Json {
    Json::Number(Number::PosInt(n as u64))
}

/// The JSON of a position.
pub open spec fn pos_json(pos: CborPos) -> Json {
    Json::Object(seq![("offset"@, count_json(pos.offset)), ("length"@, count_json(pos.length))])
}

/// Convert a `CborPos` into JSON.
pub fn cbor_pos_to_value(pos: &CborPos) -> (value: Value)
    ensures
        value@ == pos_json(*pos),
{
    let entries = vec![
        entry("offset", unsigned_value(pos.offset as u64)),
        entry("length", unsigned_value(pos.length as u64)),
    ];
    proof {
        object_json(entries);
        assert(Value::Object(entries)@->Object_0 =~= pos_json(*pos)->Object_0);
    }
    Value::Object(entries)
}

/// The JSON of a map entry.
pub open spec fn map_entry_json(key: Json, value: Json) -> Json {
    Json::Object(seq![("key"@, key), ("value"@, value)])
}

/// Build a map entry object: `{ "key": <...>, "value": <...> }`.
pub fn build_map_value(key: Value, value: Value) -> (pair: Value)
    ensures
        pair@ == map_entry_json(key@, value@),
{
    let ghost expected = map_entry_json(key@, value@);
    let entries = vec![entry("key", key), entry("value", value)];
    proof {
        object_json(entries);
        assert(Value::Object(entries)@->Object_0 =~= expected->Object_0);
    }
    Value::Object(entries)
}

/// Collection types, including indefinite string/bytes *as arrays of chunks*.
/// Each holds the position of its first token and the position of all of it.
#[derive(Debug)]
pub enum CborCollection {
    Tag(Option<Value>, Tag, CborPos, CborPos),
    /// The elements, the declared length, the number of elements so far.
    Array(Value, Option<usize>, usize, CborPos, CborPos),
    /// The entries, a key that waits for its value, the declared length, the
    /// number of entries so far.
    Mapping(Value, Option<Value>, Option<usize>, usize, CborPos, CborPos),
    /// Stores a list of chunk tokens for an indefinite string.
    IndefiniteString(Vec<Value>, CborPos, CborPos),
    /// Stores a list of chunk tokens for an indefinite byte string.
    IndefiniteBytes(Vec<Value>, CborPos, CborPos),
}

/// A collection, with the values in it taken by their views.
#[verifier::ext_equal]
pub enum CollectionView {
    Tag { value: Option<Json>, tag: Tag, pos: CborPos, full: CborPos },
    Array { values: Json, length: Option<usize>, count: nat, pos: CborPos, full: CborPos },
    Mapping {
        values: Json,
        key: Option<Json>,
        length: Option<usize>,
        count: nat,
        pos: CborPos,
        full: CborPos,
    },
    IndefiniteString { chunks: Seq<Json>, pos: CborPos, full: CborPos },
    IndefiniteBytes { chunks: Seq<Json>, pos: CborPos, full: CborPos },
}

/// A value that may be missing, taken by its view.
pub open spec fn optional_json(value: Option<Value>) -> Option<Json> {
    match value {
        Some(value) => Some(value@),
        None => None,
    }
}

impl View for CborCollection {
    type V = CollectionView;

    open spec fn view(&self) -> CollectionView {
        match *self {
            CborCollection::Tag(value, tag, pos, full) => CollectionView::Tag {
                value: optional_json(value),
                tag,
                pos,
                full,
            },
            CborCollection::Array(values, length, count, pos, full) => CollectionView::Array {
                values: values@,
                length,
                count: count as nat,
                pos,
                full,
            },
            CborCollection::Mapping(values, key, length, count, pos, full) => {
                CollectionView::Mapping {
                    values: values@,
                    key: optional_json(key),
                    length,
                    count: count as nat,
                    pos,
                    full,
                }
            },
            CborCollection::IndefiniteString(chunks, pos, full) => {
                CollectionView::IndefiniteString { chunks: jsons(chunks@), pos, full }
            },
            CborCollection::IndefiniteBytes(chunks, pos, full) => {
                CollectionView::IndefiniteBytes { chunks: jsons(chunks@), pos, full }
            },
        }
    }
}

/// Whether `values` holds at least `count` elements, where it is an array.
pub open spec fn holds_at_least(values: Json, count: nat) -> bool {
    values matches Json::Array(elements) ==> count <= elements.len()
}

impl CollectionView {
    /// The position of the whole collection.
    pub open spec fn full_pos(self) -> CborPos {
        match self {
            CollectionView::Tag { full, .. } => full,
            CollectionView::Array { full, .. } => full,
            CollectionView::Mapping { full, .. } => full,
            CollectionView::IndefiniteString { full, .. } => full,
            CollectionView::IndefiniteBytes { full, .. } => full,
        }
    }

    /// The position of the token that started the collection.
    pub open spec fn first_pos(self) -> CborPos {
        match self {
            CollectionView::Tag { pos, .. } => pos,
            CollectionView::Array { pos, .. } => pos,
            CollectionView::Mapping { pos, .. } => pos,
            CollectionView::IndefiniteString { pos, .. } => pos,
            CollectionView::IndefiniteBytes { pos, .. } => pos,
        }
    }

    /// Positions end inside the address space, and nothing is counted that is
    /// not held.
    pub open spec fn wf(self) -> bool {
        &&& self.first_pos().wf()
        &&& self.full_pos().wf()
        &&& match self {
            CollectionView::Array { values, count, .. } => holds_at_least(values, count),
            CollectionView::Mapping { values, count, .. } => holds_at_least(values, count),
            _ => true,
        }
    }

    /// Whether the collection is complete on its own, without a break.
    pub open spec fn finished(self) -> bool {
        match self {
            CollectionView::Array { length: Some(length), count, .. } => count >= length,
            CollectionView::Mapping { length: Some(length), count, .. } => count >= length,
            CollectionView::Tag { value, .. } => value is Some,
            _ => false,
        }
    }

    /// The collection after a value, or with `finalizer` a break, has been added
    /// to it, or the message that refuses it.
    pub open spec fn added(self, value: Json, value_pos: CborPos, finalizer: bool) -> Result<
        CollectionView,
        Seq<char>,
    > {
        let counted: nat = if finalizer {
            0
        } else {
            1
        };
        match self {
            CollectionView::Array { values, length, count, pos, full } => {
                if self.finished() {
                    Err("Array is already full"@)
                } else {
                    match values {
                        Json::Array(elements) => Ok(
                            CollectionView::Array {
                                values: Json::Array(elements.push(value)),
                                length,
                                count: count + counted,
                                pos,
                                full: extended(full, value_pos),
                            },
                        ),
                        _ => Err("Array collection is not actually array"@),
                    }
                }
            },
            CollectionView::Mapping { values, key, length, count, pos, full } => {
                if self.finished() {
                    Err("Map is already full"@)
                } else {
                    match (key, values) {
                        (None, _) => Ok(
                            CollectionView::Mapping {
                                values,
                                key: Some(value),
                                length,
                                count,
                                pos,
                                full,
                            },
                        ),
                        (Some(key), Json::Array(entries)) => Ok(
                            CollectionView::Mapping {
                                values: Json::Array(entries.push(map_entry_json(key, value))),
                                key: None,
                                length,
                                count: count + counted,
                                pos,
                                full: extended(full, value_pos),
                            },
                        ),
                        _ => Err("Map collection is not stored as array"@),
                    }
                }
            },
            CollectionView::Tag { value: stored, tag, pos, full } => {
                if stored is Some {
                    Err("Tag already has a value"@)
                } else {
                    Ok(
                        CollectionView::Tag {
                            value: Some(value),
                            tag,
                            pos,
                            full: extended(full, value_pos),
                        },
                    )
                }
            },
            CollectionView::IndefiniteString { chunks, pos, full } => Ok(
                CollectionView::IndefiniteString {
                    chunks: if finalizer {
                        chunks
                    } else {
                        chunks.push(value)
                    },
                    pos,
                    full: extended(full, value_pos),
                },
            ),
            CollectionView::IndefiniteBytes { chunks, pos, full } => Ok(
                CollectionView::IndefiniteBytes {
                    chunks: if finalizer {
                        chunks
                    } else {
                        chunks.push(value)
                    },
                    pos,
                    full: extended(full, value_pos),
                },
            ),
        }
    }

    /// The collection that a token starts, if it starts one.
    pub open spec fn started(token: ExtendedTokenView) -> Option<CollectionView> {
        let pos = CborPos { offset: token.offset, length: token.length };
        let none = Json::Array(Seq::<Json>::empty());
        match token.token {
            TokenView::BeginArray => Some(
                CollectionView::Array { values: none, length: None, count: 0, pos, full: pos },
            ),
            TokenView::Array(len) => Some(
                CollectionView::Array {
                    values: none,
                    length: Some(len as usize),
                    count: 0,
                    pos,
                    full: pos,
                },
            ),
            TokenView::BeginMap => Some(
                CollectionView::Mapping {
                    values: none,
                    key: None,
                    length: None,
                    count: 0,
                    pos,
                    full: pos,
                },
            ),
            TokenView::MapOf(len) => Some(
                CollectionView::Mapping {
                    values: none,
                    key: None,
                    length: Some(len as usize),
                    count: 0,
                    pos,
                    full: pos,
                },
            ),
            TokenView::Tag(tag) => Some(CollectionView::Tag { value: None, tag, pos, full: pos }),
            TokenView::BeginString => Some(
                CollectionView::IndefiniteString { chunks: Seq::<Json>::empty(), pos, full: pos },
            ),
            TokenView::BeginBytes => Some(
                CollectionView::IndefiniteBytes { chunks: Seq::<Json>::empty(), pos, full: pos },
            ),
            _ => None,
        }
    }

    /// The empty array of no declared length at offset zero.
    pub open spec fn root() -> CollectionView {
        let pos = CborPos { offset: 0, length: 0 };
        CollectionView::Array {
            values: Json::Array(Seq::<Json>::empty()),
            length: None,
            count: 0,
            pos,
            full: pos,
        }
    }

    /// The JSON object of the collection, with its metadata. A tag without a
    /// value has none.
    pub open spec fn value(self) -> Result<Json, Seq<char>> {
        match self {
            CollectionView::Array { values, length, pos, full, .. } => Ok(
                Json::Object(
                    seq![
                        ("type"@, Json::String("Array"@)),
                        ("items"@, length_json(length)),
                        ("position_info"@, pos_json(pos)),
                        ("struct_position_info"@, pos_json(full)),
                        ("values"@, values),
                    ],
                ),
            ),
            CollectionView::Mapping { values, length, pos, full, .. } => Ok(
                Json::Object(
                    seq![
                        ("type"@, Json::String("Map"@)),
                        ("items"@, length_json(length)),
                        ("position_info"@, pos_json(pos)),
                        ("struct_position_info"@, pos_json(full)),
                        ("values"@, values),
                    ],
                ),
            ),
            CollectionView::Tag { value: Some(value), tag, pos, full } => Ok(
                Json::Object(
                    seq![
                        ("type"@, Json::String("Tag"@)),
                        ("position_info"@, pos_json(pos)),
                        ("struct_position_info"@, pos_json(full)),
                        ("tag"@, Json::String(tag_name(tag))),
                        ("value"@, value),
                    ],
                ),
            ),
            CollectionView::Tag { value: None, .. } => Err("Tag has no value"@),
            CollectionView::IndefiniteString { chunks, pos, full } => Ok(
                Json::Object(
                    seq![
                        ("type"@, Json::String("IndefiniteLengthString"@)),
                        ("position_info"@, pos_json(pos)),
                        ("struct_position_info"@, pos_json(full)),
                        ("chunks"@, Json::Array(chunks)),
                    ],
                ),
            ),
            CollectionView::IndefiniteBytes { chunks, pos, full } => Ok(
                Json::Object(
                    seq![
                        ("type"@, Json::String("IndefiniteLengthBytes"@)),
                        ("position_info"@, pos_json(pos)),
                        ("struct_position_info"@, pos_json(full)),
                        ("chunks"@, Json::Array(chunks)),
                    ],
                ),
            ),
        }
    }

    /// The values in the collection, without metadata.
    pub open spec fn simple_value(self) -> Json {
        match self {
            CollectionView::Array { values, .. } => values,
            CollectionView::Mapping { values, .. } => values,
            CollectionView::Tag { value: Some(value), .. } => value,
            CollectionView::Tag { value: None, .. } => Json::Null,
            CollectionView::IndefiniteString { chunks, .. } => Json::Array(chunks),
            CollectionView::IndefiniteBytes { chunks, .. } => Json::Array(chunks),
        }
    }
}

/// The JSON of a declared length.
pub open spec fn length_json(length: Option<usize>) -> Json {
    match length {
        Some(n) => count_json(n),
        None => Json::String("Indefinite"@),
    }
}

fn length_value(length: Option<usize>) -> (value: Value)
    ensures
        value@ == length_json(length),
{
    match length {
        Some(n) => unsigned_value(n as u64),
        None => text_value("Indefinite"),
    }
}

/// The name of a tag.
pub open spec fn tag_name(tag: Tag) -> Seq<char> {
    match tag {
        Tag::DateTime => "DateTime"@,
        Tag::Timestamp => "Timestamp"@,
        Tag::PosBignum => "PosBignum"@,
        Tag::NegBignum => "NegBignum"@,
        Tag::Decimal => "Decimal"@,
        Tag::Bigfloat => "Bigfloat"@,
        Tag::ToBase64Url => "ToBase64Url"@,
        Tag::ToBase64 => "ToBase64"@,
        Tag::ToBase16 => "ToBase16"@,
        Tag::Cbor => "Cbor"@,
        Tag::Uri => "Uri"@,
        Tag::Base64Url => "Base64Url"@,
        Tag::Base64 => "Base64"@,
        Tag::Regex => "Regex"@,
        Tag::Mime => "Mime"@,
        Tag::Unassigned(number) => "Unassigned("@ + decimal(number as nat) + ")"@,
    }
}

/// Human-readable tag name
pub fn get_tag_name(tag: &Tag) -> (name: String)
    ensures
        name@ == tag_name(*tag),
{
    let name = match tag {
        Tag::DateTime => "DateTime",
        Tag::Timestamp => "Timestamp",
        Tag::PosBignum => "PosBignum",
        Tag::NegBignum => "NegBignum",
        Tag::Decimal => "Decimal",
        Tag::Bigfloat => "Bigfloat",
        Tag::ToBase64Url => "ToBase64Url",
        Tag::ToBase64 => "ToBase64",
        Tag::ToBase16 => "ToBase16",
        Tag::Cbor => "Cbor",
        Tag::Uri => "Uri",
        Tag::Base64Url => "Base64Url",
        Tag::Base64 => "Base64",
        Tag::Regex => "Regex",
        Tag::Mime => "Mime",
        Tag::Unassigned(number) => {
            let mut name = "Unassigned(".to_owned();
            name.append(decimal_text(*number as u128).as_str());
            name.append(")");
            return name;
        },
    };
    name.to_owned()
}

/// Adding an element to a sequence of values adds its view.
proof fn jsons_push(values: Seq<Value>, value: Value)
    ensures
        jsons(values.push(value)) == jsons(values).push(value@),
{
    assert(jsons(values.push(value)) =~= jsons(values).push(value@));
}

/// A copy of values.
fn copy_values(values: &Vec<Value>) -> (copies: Vec<Value>)
    ensures
        jsons(copies@) == jsons(values@),
{
    let mut copies: Vec<Value> = Vec::new();
    let mut i: usize = 0;
    while i < values.len()
        invariant
            i <= values@.len(),
            copies@.len() == i,
            forall|j: int| 0 <= j < i ==> (#[trigger] copies@[j])@ == values@[j]@,
        decreases values@.len() - i,
    {
        copies.push(values[i].copy());
        i = i + 1;
    }
    assert(jsons(copies@) =~= jsons(values@));
    copies
}

/// A copy of a value that may be missing.
fn copy_optional(value: &Option<Value>) -> (copy: Option<Value>)
    ensures
        optional_json(copy) == optional_json(*value),
{
    match value {
        Some(value) => Some(value.copy()),
        None => None,
    }
}

impl Clone for CborCollection {
    fn clone(&self) -> (copy: Self)
        ensures
            copy@ == self@,
    {
        match self {
            CborCollection::Tag(value, tag, pos, full) => {
                CborCollection::Tag(copy_optional(value), *tag, *pos, *full)
            },
            CborCollection::Array(values, len, count, pos, full) => {
                CborCollection::Array(values.copy(), *len, *count, *pos, *full)
            },
            CborCollection::Mapping(values, key, len, count, pos, full) => {
                CborCollection::Mapping(
                    values.copy(),
                    copy_optional(key),
                    *len,
                    *count,
                    *pos,
                    *full,
                )
            },
            CborCollection::IndefiniteString(chunks, pos, full) => {
                CborCollection::IndefiniteString(copy_values(chunks), *pos, *full)
            },
            CborCollection::IndefiniteBytes(chunks, pos, full) => {
                CborCollection::IndefiniteBytes(copy_values(chunks), *pos, *full)
            },
        }
    }
}

impl CborCollection {
    /// Create a new root array collection with zero offset/length.
    pub fn new_array() -> (collection: Self)
        ensures
            collection@ == CollectionView::root(),
            collection@.wf(),
    {
        let values: Vec<Value> = Vec::new();
        proof {
            array_json(values);
            assert(jsons(values@) =~= Seq::<Json>::empty());
        }
        CborCollection::Array(
            Value::Array(values),
            None,
            0,
            CborPos { offset: 0, length: 0 },
            CborPos { offset: 0, length: 0 },
        )
    }

    /// Create a new collection from the given token (array, map, tag, or indefinite string/bytes).
    pub fn new_collection(token: &ExtendedToken) -> (collection: Result<Self, JsError>)
        ensures
            match CollectionView::started(token@) {
                Some(started) => collection matches Ok(found) && found@ == started,
                None => viewed(collection) == Err::<CollectionView, Seq<char>>(
                    "Invalid token for new collection"@,
                ),
            },
    {
        let pos = CborPos { offset: token.offset, length: token.length };
        let values: Vec<Value> = Vec::new();
        proof {
            array_json(values);
            assert(jsons(values@) =~= Seq::<Json>::empty());
        }
        match token.token {
            Token::BeginArray => Ok(
                CborCollection::Array(Value::Array(values), None, 0, pos, pos),
            ),
            Token::BeginMap => Ok(
                CborCollection::Mapping(Value::Array(values), None, None, 0, pos, pos),
            ),
            Token::Array(len) => Ok(
                CborCollection::Array(
                    Value::Array(values),
                    Some(
                        #[verifier::truncate]
                        (len as usize),
                    ),
                    0,
                    pos,
                    pos,
                ),
            ),
            Token::MapOf(len) => Ok(
                CborCollection::Mapping(
                    Value::Array(values),
                    None,
                    Some(
                        #[verifier::truncate]
                        (len as usize),
                    ),
                    0,
                    pos,
                    pos,
                ),
            ),
            Token::Tag(tag) => Ok(CborCollection::Tag(None, tag, pos, pos)),
            // Indefinite string/bytes => store chunk tokens in a Vec
            Token::BeginString => Ok(CborCollection::IndefiniteString(values, pos, pos)),
            Token::BeginBytes => Ok(CborCollection::IndefiniteBytes(values, pos, pos)),
            _ => Err(JsError::new("Invalid token for new collection")),
        }
    }

    /// Returns true if this collection is complete on its own (without a break).
    /// - Arrays/Maps are complete if they have definite length and we've reached it.
    /// - Tags are complete once they have a value.
    /// - Indefinite strings/bytes never "auto-complete" (need a break).
    pub fn is_collection_finished(&self) -> (finished: bool)
        ensures
            finished == self@.finished(),
    {
        match self {
            CborCollection::Array(_, Some(len), count, _, _) => *count >= *len,
            CborCollection::Mapping(_, _, Some(len), count, _, _) => *count >= *len,
            CborCollection::Tag(Some(_), _, _, _) => true,
            // Indefinite collections do not finish unless a break is encountered
            _ => false,
        }
    }

    /// Finalize this collection and convert it to a full JSON Value (with metadata).
    pub fn to_value(self) -> (value: Result<Value, JsError>)
        ensures
            viewed(value) == self@.value(),
    {
        let ghost expected = self@.value();
        match self {
            CborCollection::Array(array_val, length, _, pos, full_struct_pos) => {
                let entries = vec![
                    entry("type", text_value("Array")),
                    entry("items", length_value(length)),
                    entry("position_info", cbor_pos_to_value(&pos)),
                    entry("struct_position_info", cbor_pos_to_value(&full_struct_pos)),
                    entry("values", array_val),
                ];
                proof {
                    object_json(entries);
                    assert(Value::Object(entries)@->Object_0 =~= expected->Ok_0->Object_0);
                }
                Ok(Value::Object(entries))
            },
            CborCollection::Mapping(map_val, _, length, _, pos, full_struct_pos) => {
                let entries = vec![
                    entry("type", text_value("Map")),
                    entry("items", length_value(length)),
                    entry("position_info", cbor_pos_to_value(&pos)),
                    entry("struct_position_info", cbor_pos_to_value(&full_struct_pos)),
                    entry("values", map_val),
                ];
                proof {
                    object_json(entries);
                    assert(Value::Object(entries)@->Object_0 =~= expected->Ok_0->Object_0);
                }
                Ok(Value::Object(entries))
            },
            CborCollection::Tag(value, tag, pos, full_struct_pos) => {
                let val = match value {
                    Some(val) => val,
                    None => return Err(JsError::new("Tag has no value")),
                };
                let entries = vec![
                    entry("type", text_value("Tag")),
                    entry("position_info", cbor_pos_to_value(&pos)),
                    entry("struct_position_info", cbor_pos_to_value(&full_struct_pos)),
                    entry("tag", Value::String(get_tag_name(&tag))),
                    entry("value", val),
                ];
                proof {
                    object_json(entries);
                    assert(Value::Object(entries)@->Object_0 =~= expected->Ok_0->Object_0);
                }
                Ok(Value::Object(entries))
            },
            CborCollection::IndefiniteString(chunks, pos, full_struct_pos) => {
                proof {
                    array_json(chunks);
                }
                // Instead of a single concatenated string, we show them as `chunks`
                // which is an array of token objects.
                let entries = vec![
                    entry("type", text_value("IndefiniteLengthString")),
                    entry("position_info", cbor_pos_to_value(&pos)),
                    entry("struct_position_info", cbor_pos_to_value(&full_struct_pos)),
                    entry("chunks", Value::Array(chunks)),
                ];
                proof {
                    object_json(entries);
                    assert(Value::Object(entries)@->Object_0 =~= expected->Ok_0->Object_0);
                }
                Ok(Value::Object(entries))
            },
            CborCollection::IndefiniteBytes(chunks, pos, full_struct_pos) => {
                proof {
                    array_json(chunks);
                }
                // Show chunk tokens as an array
                let entries = vec![
                    entry("type", text_value("IndefiniteLengthBytes")),
                    entry("position_info", cbor_pos_to_value(&pos)),
                    entry("struct_position_info", cbor_pos_to_value(&full_struct_pos)),
                    entry("chunks", Value::Array(chunks)),
                ];
                proof {
                    object_json(entries);
                    assert(Value::Object(entries)@->Object_0 =~= expected->Ok_0->Object_0);
                }
                Ok(Value::Object(entries))
            },
        }
    }

    /// Convert to a *simple* value, discarding metadata.
    /// For indefinite string/bytes, we just store an array of chunk tokens as JSON.
    pub fn to_simple_value(self) -> (value: Value)
        ensures
            value@ == self@.simple_value(),
    {
        match self {
            CborCollection::Array(vals, _, _, _, _) => vals,
            CborCollection::Mapping(vals, _, _, _, _, _) => vals,
            CborCollection::Tag(Some(val), _, _, _) => val,
            CborCollection::Tag(None, _, _, _) => Value::Null,
            CborCollection::IndefiniteString(chunks, _, _) => {
                proof {
                    array_json(chunks);
                }
                Value::Array(chunks)
            },
            CborCollection::IndefiniteBytes(chunks, _, _) => {
                proof {
                    array_json(chunks);
                }
                Value::Array(chunks)
            },
        }
    }

    /// Get the overall position info for this collection
    pub fn get_full_pos(&self) -> (pos: CborPos)
        ensures
            pos == self@.full_pos(),
    {
        match self {
            CborCollection::Array(_, _, _, _, pos) => *pos,
            CborCollection::Mapping(_, _, _, _, _, pos) => *pos,
            CborCollection::Tag(_, _, _, pos) => *pos,
            CborCollection::IndefiniteString(_, _, pos) => *pos,
            CborCollection::IndefiniteBytes(_, _, pos) => *pos,
        }
    }

    /// Add a `new_value` to this collection. If `finalizer` is `true`, it indicates a CBOR `break`.
    /// A refused value leaves the collection as it was.
    pub fn add_value(
        &mut self,
        new_value: Value,
        value_pos: &CborPos,
        finalizer: bool,
    ) -> (added: Result<(), JsError>)
        requires
            old(self)@.wf(),
            value_pos.wf(),
        ensures
            final(self)@.wf(),
            match old(self)@.added(new_value@, *value_pos, finalizer) {
                Ok(collection) => added is Ok && final(self)@ == collection,
                Err(message) => {
                    &&& added matches Err(error)
                    &&& error@ == message
                    &&& *final(self) == *old(self)
                },
            },
    {
        match self {
            CborCollection::Array(array, len, count, _, total_size) => {
                if let Some(max_len) = *len {
                    if *count >= max_len {
                        return Err(JsError::new("Array is already full"));
                    }
                }
                match array {
                    Value::Array(elements) => {
                        proof {
                            array_json(*elements);
                            jsons_push(elements@, new_value);
                        }
                        elements.push(new_value);
                        if !finalizer {
                            assert(elements@.len() == elements.len());
                            *count = *count + 1;
                        }
                        proof {
                            array_json(*elements);
                        }
                        *total_size = extend_pos(total_size, value_pos);
                        Ok(())
                    },
                    _ => Err(JsError::new("Array collection is not actually array")),
                }
            },
            CborCollection::Mapping(map_val, key_slot, len, count, _, total_size) => {
                if let Some(max_len) = *len {
                    if *count >= max_len {
                        return Err(JsError::new("Map is already full"));
                    }
                }
                if key_slot.is_none() {
                    // Next value is the key
                    *key_slot = Some(new_value);
                    return Ok(());
                }
                match map_val {
                    Value::Array(entries) => {
                        // We have a key, so new_value is the map's value
                        let key = key_slot.take().unwrap();
                        let pair = build_map_value(key, new_value);
                        proof {
                            array_json(*entries);
                            jsons_push(entries@, pair);
                        }
                        entries.push(pair);
                        if !finalizer {
                            assert(entries@.len() == entries.len());
                            *count = *count + 1;
                        }
                        proof {
                            array_json(*entries);
                        }
                        *total_size = extend_pos(total_size, value_pos);
                        Ok(())
                    },
                    _ => Err(JsError::new("Map collection is not stored as array")),
                }
            },
            CborCollection::Tag(stored_value, _, _, total_size) => {
                if stored_value.is_some() {
                    return Err(JsError::new("Tag already has a value"));
                }
                *stored_value = Some(new_value);
                *total_size = extend_pos(total_size, value_pos);
                Ok(())
            },
            CborCollection::IndefiniteString(chunks, _, total_size) => {
                // If finalizer == true (break), we do not add a new chunk
                if !finalizer {
                    proof {
                        jsons_push(chunks@, new_value);
                    }
                    chunks.push(new_value);
                }
                *total_size = extend_pos(total_size, value_pos);
                Ok(())
            },
            CborCollection::IndefiniteBytes(chunks, _, total_size) => {
                if !finalizer {
                    proof {
                        jsons_push(chunks@, new_value);
                    }
                    chunks.push(new_value);
                }
                *total_size = extend_pos(total_size, value_pos);
                Ok(())
            },
        }
    }
}

/// Whether the bits of a single-precision number denote a finite one: the
/// exponent is not all ones.
pub open spec fn single_is_finite(bits: u32) -> bool {
    bits / 0x80_0000 % 0x100 != 0xff
}

/// Whether the bits of a double-precision number denote a finite one.
pub open spec fn double_is_finite(bits: u64) -> bool {
    bits / 0x10_0000_0000_0000 % 0x800 != 0x7ff
}

/// The JSON number of a single-precision number; one that is not finite has none.
pub open spec fn single_json(bits: u32) -> Result<Json, Seq<char>> {
    if single_is_finite(bits) {
        Ok(Json::Number(Number::Single(bits)))
    } else {
        Err("Failed to convert float"@)
    }
}

/// The JSON number of a double-precision number; one that is not finite has none.
pub open spec fn double_json(bits: u64) -> Result<Json, Seq<char>> {
    if double_is_finite(bits) {
        Ok(Json::Number(Number::Double(bits)))
    } else {
        Err("Failed to convert float"@)
    }
}

/// Convert a single-precision float to JSON number if possible.
fn single_to_value(bits: u32) -> (value: Result<Value, JsError>)
    ensures
        viewed(value) == single_json(bits),
{
    if bits / 0x80_0000 % 0x100 != 0xff {
        Ok(Value::Number(Number::Single(bits)))
    } else {
        Err(JsError::new("Failed to convert float"))
    }
}

/// Convert a double-precision float to JSON number if possible.
fn double_to_value(bits: u64) -> (value: Result<Value, JsError>)
    ensures
        viewed(value) == double_json(bits),
{
    if bits / 0x10_0000_0000_0000 % 0x800 != 0x7ff {
        Ok(Value::Number(Number::Double(bits)))
    } else {
        Err(JsError::new("Failed to convert float"))
    }
}

/// The text of a CBOR integer: its sign, and its magnitude as it is encoded (one
/// less than the absolute value below zero).
pub open spec fn integer_debug_text(n: int) -> Seq<char> {
    if n < 0 {
        "Int { neg: true, val: "@ + decimal((-1 - n) as nat) + " }"@
    } else {
        "Int { neg: false, val: "@ + decimal(n as nat) + " }"@
    }
}

/// The JSON number of a CBOR integer, or the message that it fits none.
pub open spec fn integer_json(n: int) -> Result<Json, Seq<char>> {
    match integer_number(n) {
        Some(number) => Ok(Json::Number(number)),
        None => Err("Can't covert CBOR int into js Value. "@ + integer_debug_text(n)),
    }
}

/// Convert a CBOR integer to JSON number if possible.
fn integer_to_value(n: i128) -> (value: Result<Value, JsError>)
    ensures
        viewed(value) == integer_json(n as int),
{
    match number_from_i128(n) {
        Some(number) => Ok(Value::Number(number)),
        None => {
            let mut message = "Can't covert CBOR int into js Value. ".to_owned();
            let ghost intro = message@;
            if n < 0 {
                message.append("Int { neg: true, val: ");
                message.append(decimal_text((-1 - n) as u128).as_str());
            } else {
                message.append("Int { neg: false, val: ");
                message.append(decimal_text(n as u128).as_str());
            }
            message.append(" }");
            assert(message@ =~= intro + integer_debug_text(n as int));
            Err(JsError { message })
        },
    }
}

/// The JSON value of a token, or the message that it has none.
pub open spec fn token_json(token: TokenView) -> Result<Json, Seq<char>> {
    match token {
        TokenView::Null | TokenView::Undefined | TokenView::Break => Ok(Json::Null),
        TokenView::Bool(b) => Ok(Json::Bool(b)),
        TokenView::U8(n) => Ok(Json::Number(Number::PosInt(n as u64))),
        TokenView::U16(n) => Ok(Json::Number(Number::PosInt(n as u64))),
        TokenView::U32(n) => Ok(Json::Number(Number::PosInt(n as u64))),
        TokenView::U64(n) => Ok(Json::Number(Number::PosInt(n))),
        TokenView::I8(n) => Ok(Json::Number(signed_number(n as int))),
        TokenView::I16(n) => Ok(Json::Number(signed_number(n as int))),
        TokenView::I32(n) => Ok(Json::Number(signed_number(n as int))),
        TokenView::I64(n) => Ok(Json::Number(signed_number(n as int))),
        TokenView::Int(n) => integer_json(n as int),
        TokenView::F16(bits) => single_json(bits),
        TokenView::F32(bits) => single_json(bits),
        TokenView::F64(bits) => double_json(bits),
        TokenView::Bytes(bytes) => Ok(Json::String(hex_text(bytes))),
        TokenView::String(text) => Ok(Json::String(text)),
        TokenView::Simple(n) => Ok(Json::Number(Number::PosInt(n as u64))),
        _ => Err("Collection token cannot be a direct value"@),
    }
}

/// Convert a single Token to a JSON value. Collection starters return error.
pub fn token_to_value(token: &Token) -> (value: Result<Value, JsError>)
    ensures
        viewed(value) == token_json(token@),
{
    match token {
        Token::Null | Token::Undefined | Token::Break => Ok(Value::Null),
        Token::Bool(b) => Ok(Value::Bool(*b)),
        Token::U8(n) => Ok(unsigned_value(*n as u64)),
        Token::U16(n) => Ok(unsigned_value(*n as u64)),
        Token::U32(n) => Ok(unsigned_value(*n as u64)),
        Token::U64(n) => Ok(unsigned_value(*n)),
        Token::I8(n) => Ok(signed_value(*n as i64)),
        Token::I16(n) => Ok(signed_value(*n as i64)),
        Token::I32(n) => Ok(signed_value(*n as i64)),
        Token::I64(n) => Ok(signed_value(*n)),
        Token::Int(n) => integer_to_value(*n),
        Token::F16(bits) => single_to_value(*bits),
        Token::F32(bits) => single_to_value(*bits),
        Token::F64(bits) => double_to_value(*bits),
        Token::Bytes(bytes) => Ok(Value::String(hex_encode(bytes.as_slice()))),
        Token::String(text) => Ok(Value::String(text.clone())),
        Token::Simple(n) => Ok(unsigned_value(*n as u64)),
        // Collection starters => Not direct values
        _ => Err(JsError::new("Collection token cannot be a direct value")),
    }
}

/// The name of a token's variant.
pub open spec fn token_name(token: TokenView) -> Seq<char> {
    match token {
        TokenView::Null => "Null"@,
        TokenView::Bool(_) => "Bool"@,
        TokenView::U8(_) => "U8"@,
        TokenView::U16(_) => "U16"@,
        TokenView::U32(_) => "U32"@,
        TokenView::U64(_) => "U64"@,
        TokenView::I8(_) => "I8"@,
        TokenView::I16(_) => "I16"@,
        TokenView::I32(_) => "I32"@,
        TokenView::I64(_) => "I64"@,
        TokenView::Int(_) => "Int"@,
        TokenView::F16(_) => "F16"@,
        TokenView::F32(_) => "F32"@,
        TokenView::F64(_) => "F64"@,
        TokenView::Bytes(_) => "Bytes"@,
        TokenView::String(_) => "String"@,
        TokenView::Simple(_) => "Simple"@,
        TokenView::Undefined => "Undefined"@,
        TokenView::BeginArray => "BeginArray"@,
        TokenView::BeginMap => "BeginMap"@,
        TokenView::BeginString => "BeginString"@,
        TokenView::BeginBytes => "BeginBytes"@,
        TokenView::Break => "Break"@,
        TokenView::Array(_) => "Array"@,
        TokenView::MapOf(_) => "Map"@,
        TokenView::Tag(_) => "Tag"@,
    }
}

/// Return a human-readable name for each Token variant.
pub fn get_token_name(token: &Token) -> (name: String)
    ensures
        name@ == token_name(token@),
{
    let name = match token {
        Token::Null => "Null",
        Token::Bool(_) => "Bool",
        Token::U8(_) => "U8",
        Token::U16(_) => "U16",
        Token::U32(_) => "U32",
        Token::U64(_) => "U64",
        Token::I8(_) => "I8",
        Token::I16(_) => "I16",
        Token::I32(_) => "I32",
        Token::I64(_) => "I64",
        Token::Int(_) => "Int",
        Token::F16(_) => "F16",
        Token::F32(_) => "F32",
        Token::F64(_) => "F64",
        Token::Bytes(_) => "Bytes",
        Token::String(_) => "String",
        Token::Simple(_) => "Simple",
        Token::Undefined => "Undefined",
        Token::BeginArray => "BeginArray",
        Token::BeginMap => "BeginMap",
        Token::BeginString => "BeginString",
        Token::BeginBytes => "BeginBytes",
        Token::Break => "Break",
        Token::Array(_) => "Array",
        Token::MapOf(_) => "Map",
        Token::Tag(_) => "Tag",
    };
    name.to_owned()
}

/// The JSON object of a token that is a direct value, at `pos`.
pub open spec fn leaf_json(token: TokenView, pos: CborPos) -> Result<Json, Seq<char>> {
    match token_json(token) {
        Ok(value) => Ok(
            Json::Object(
                seq![
                    ("position_info"@, pos_json(pos)),
                    ("type"@, Json::String(token_name(token))),
                    ("value"@, value),
                ],
            ),
        ),
        Err(message) => Err(message),
    }
}

/// Convert an `ExtendedToken` to JSON: { "position_info", "type", "value" }
pub fn extended_token_to_value(token: &ExtendedToken, pos: &CborPos) -> (value: Result<
    Value,
    JsError,
>)
    ensures
        viewed(value) == leaf_json(token.token@, *pos),
{
    match token_to_value(&token.token) {
        Ok(val) => {
            let entries = vec![
                entry("position_info", cbor_pos_to_value(pos)),
                entry("type", Value::String(get_token_name(&token.token))),
                entry("value", val),
            ];
            proof {
                object_json(entries);
                assert(Value::Object(entries)@->Object_0 =~= leaf_json(
                    token.token@,
                    *pos,
                )->Ok_0->Object_0);
            }
            Ok(Value::Object(entries))
        },
        Err(error) => Err(error),
    }
}

/// Check if `token` starts a new collection (map, array, tag, or indefinite string/bytes).
pub fn is_token_collection(token: &Token) -> (starts: bool)
    ensures
        starts == token@.starts_collection(),
{
    matches!(
        token,
        Token::BeginArray
            | Token::BeginMap
            | Token::Array(_)
            | Token::MapOf(_)
            | Token::Tag(_)
            | Token::BeginString
            | Token::BeginBytes
    )
}

/// Check if `token` is the break marker for an indefinite-length collection.
pub fn is_break_token(token: &Token) -> (is_break: bool)
    ensures
        is_break == (token@ == TokenView::Break),
{
    matches!(token, Token::Break)
}

/// The collections of a stack, taken by their views.
pub open spec fn stack_view(stack: Seq<CborCollection>) -> Seq<CollectionView> {
    Seq::new(stack.len(), |i: int| stack[i]@)
}

/// Every collection of the stack is well-formed.
pub open spec fn stack_wf(stack: Seq<CborCollection>) -> bool {
    forall|i: int| 0 <= i < stack.len() ==> (#[trigger] stack[i])@.wf()
}

/// The stack after the JSON object of `child` has been added to its top, or the
/// message that refuses it; `missing` is the one for an empty stack.
pub open spec fn delivered(
    stack: Seq<CollectionView>,
    child: CollectionView,
    missing: Seq<char>,
) -> Result<Seq<CollectionView>, Seq<char>> {
    match child.value() {
        Err(message) => Err(message),
        Ok(value) => if stack.len() == 0 {
            Err(missing)
        } else {
            match stack.last().added(value, child.full_pos(), false) {
                Ok(parent) => Ok(stack.drop_last().push(parent)),
                Err(message) => Err(message),
            }
        },
    }
}

/// The stack after each finished collection on top of it has been added to the
/// one below.
pub open spec fn collapsed(stack: Seq<CollectionView>) -> Result<Seq<CollectionView>, Seq<char>>
    decreases stack.len(),
{
    if stack.len() == 0 || !stack.last().finished() {
        Ok(stack)
    } else {
        match delivered(
            stack.drop_last(),
            stack.last(),
            "No parent collection to collapse into"@,
        ) {
            Ok(rest) => if rest.len() < stack.len() {
                collapsed(rest)
            } else {
                Ok(rest)
            },
            Err(message) => Err(message),
        }
    }
}

/// A result with a stack, taken by its view.
pub open spec fn stack_result(result: Result<Vec<CborCollection>, JsError>) -> Result<
    Seq<CollectionView>,
    Seq<char>,
> {
    match result {
        Ok(stack) => Ok(stack_view(stack@)),
        Err(error) => Err(error@),
    }
}

/// Adds the JSON object of `child` to the collection on top of the stack.
fn deliver(stack: &mut Vec<CborCollection>, child: CborCollection, missing: &str) -> (done: Result<
    (),
    JsError,
>)
    requires
        stack_wf(old(stack)@),
        child@.wf(),
    ensures
        match delivered(stack_view(old(stack)@), child@, missing@) {
            Ok(rest) => {
                &&& done is Ok
                &&& stack_view(final(stack)@) == rest
                &&& stack_wf(final(stack)@)
                &&& final(stack)@.len() == old(stack)@.len()
            },
            Err(message) => done matches Err(error) && error@ == message,
        },
{
    let pos = child.get_full_pos();
    let val = match child.to_value() {
        Ok(val) => val,
        Err(error) => return Err(error),
    };
    let len: usize = stack.len();
    if len == 0 {
        return Err(JsError::new(missing));
    }
    let ghost before = stack@;
    let top: usize = len - 1;
    let added = stack[top].add_value(val, &pos, false);
    proof {
        assert(stack_view(before).last() == before[top as int]@);
        if added is Ok {
            assert(stack_view(stack@) =~= stack_view(before).drop_last().push(stack@[top as int]@));
        }
    }
    added
}

/// Try to collapse the stack of collections if the top is "finished".
pub fn collapse_collections(stack: Vec<CborCollection>) -> (collapsed_stack: Result<
    Vec<CborCollection>,
    JsError,
>)
    requires
        stack_wf(stack@),
    ensures
        stack_result(collapsed_stack) == collapsed(stack_view(stack@)),
        collapsed_stack matches Ok(rest) ==> stack_wf(rest@),
{
    let mut rest = stack;
    loop
        invariant
            stack_wf(rest@),
            collapsed(stack_view(rest@)) == collapsed(stack_view(stack@)),
        decreases rest@.len(),
    {
        let ghost before = rest@;
        let finished = match rest.pop() {
            Some(last) => last,
            None => return Ok(rest),
        };
        proof {
            assert(stack_view(before).last() == finished@);
            assert(stack_view(before).drop_last() =~= stack_view(rest@));
        }
        if !finished.is_collection_finished() {
            rest.push(finished);
            assert(rest@ =~= before);
            return Ok(rest);
        }
        match deliver(&mut rest, finished, "No parent collection to collapse into") {
            Ok(_) => {},
            Err(error) => return Err(error),
        }
    }
}

/// The stack after a token, or the message that refuses it.
pub open spec fn stepped(stack: Seq<CollectionView>, token: ExtendedTokenView) -> Result<
    Seq<CollectionView>,
    Seq<char>,
> {
    let pos = CborPos { offset: token.offset, length: token.length };
    match collapsed(stack) {
        Err(message) => Err(message),
        Ok(open) => match CollectionView::started(token) {
            Some(collection) => Ok(open.push(collection)),
            None => match leaf_json(token.token, pos) {
                Err(message) => Err(message),
                Ok(value) => if token.token == TokenView::Break {
                    if open.len() == 0 {
                        Err("No collection to finalize"@)
                    } else {
                        match open.last().added(value, pos, true) {
                            Err(message) => Err(message),
                            Ok(last) => delivered(
                                open.drop_last(),
                                last,
                                "No parent collection found"@,
                            ),
                        }
                    }
                } else if open.len() == 0 {
                    Err("No active collection found"@)
                } else {
                    match open.last().added(value, pos, false) {
                        Err(message) => Err(message),
                        Ok(last) => Ok(open.drop_last().push(last)),
                    }
                },
            },
        },
    }
}

/// Takes one token in: a break ends the collection on top of the stack, the
/// start of a collection opens one, any other token is a value of the
/// collection on top.
pub fn apply_token(stack: Vec<CborCollection>, token: &ExtendedToken) -> (next: Result<
    Vec<CborCollection>,
    JsError,
>)
    requires
        stack_wf(stack@),
        token.offset + token.length <= usize::MAX,
    ensures
        stack_result(next) == stepped(stack_view(stack@), token@),
        next matches Ok(rest) ==> stack_wf(rest@),
{
    let token_pos = CborPos { offset: token.offset, length: token.length };

    // Attempt to collapse finished collections
    let mut collections = match collapse_collections(stack) {
        Ok(collections) => collections,
        Err(error) => return Err(error),
    };
    let ghost open = collections@;

    // If we got a `break` => pop the top collection
    if is_break_token(&token.token) {
        let mut last = match collections.pop() {
            Some(last) => last,
            None => return Err(JsError::new("No collection to finalize")),
        };
        proof {
            assert(stack_view(open).last() == last@);
            assert(stack_view(open).drop_last() =~= stack_view(collections@));
        }
        let break_value = match extended_token_to_value(token, &token_pos) {
            Ok(value) => value,
            Err(error) => return Err(error),
        };
        match last.add_value(break_value, &token_pos, true) {
            Ok(_) => {},
            Err(error) => return Err(error),
        }
        // Insert the finished collection into its parent
        return match deliver(&mut collections, last, "No parent collection found") {
            Ok(_) => Ok(collections),
            Err(error) => Err(error),
        };
    }

    // If this is a new collection start, push it
    if is_token_collection(&token.token) {
        let new_coll = match CborCollection::new_collection(token) {
            Ok(collection) => collection,
            Err(error) => return Err(error),
        };
        collections.push(new_coll);
        assert(stack_view(collections@) =~= stack_view(open).push(new_coll@));
        return Ok(collections);
    }

    // Otherwise, treat it as a simple token => add to current collection
    let new_value = match extended_token_to_value(token, &token_pos) {
        Ok(value) => value,
        Err(error) => return Err(error),
    };
    let len: usize = collections.len();
    if len == 0 {
        return Err(JsError::new("No active collection found"));
    }
    let top: usize = len - 1;
    let added = collections[top].add_value(new_value, &token_pos, false);
    match added {
        Ok(_) => {
            proof {
                assert(stack_view(open).last() == open[top as int]@);
                assert(stack_view(collections@) =~= stack_view(open).drop_last().push(
                    collections@[top as int]@,
                ));
            }
            Ok(collections)
        },
        Err(error) => {
            assert(stack_view(open).last() == open[top as int]@);
            Err(error)
        },
    }
}

/// What a tokenizer of `data` hands out from `position` on: tokens, and at most
/// one fault, behind them.
pub open spec fn tokens_from(data: Seq<u8>, position: nat) -> Seq<
    Result<ExtendedTokenView, Seq<char>>,
>
    decreases data.len() - position,
{
    match next_token_spec(data, position) {
        NextToken::End => Seq::empty(),
        NextToken::Fault(message) => seq![Err(message)],
        NextToken::Token(token, end) => if position < end <= data.len() {
            seq![Ok(token)] + tokens_from(data, end)
        } else {
            Seq::empty()
        },
    }
}

/// Tokens and faults, taken by their views.
pub open spec fn items_view(items: Seq<Result<ExtendedToken, String>>) -> Seq<
    Result<ExtendedTokenView, Seq<char>>,
> {
    Seq::new(
        items.len(),
        |i: int|
            match items[i] {
                Ok(token) => Ok(token@),
                Err(message) => Err(message@),
            },
    )
}

/// Every token ends inside the address space.
pub open spec fn items_wf(items: Seq<Result<ExtendedToken, String>>) -> bool {
    forall|i: int|
        0 <= i < items.len() ==> ((#[trigger] items[i]) matches Ok(token) ==> token.offset
            + token.length <= usize::MAX)
}

/// The stack after a sequence of tokens, or the message that refuses it.
pub open spec fn run(
    stack: Seq<CollectionView>,
    items: Seq<Result<ExtendedTokenView, Seq<char>>>,
) -> Result<Seq<CollectionView>, Seq<char>>
    decreases items.len(),
{
    if items.len() == 0 {
        Ok(stack)
    } else {
        match items[0] {
            Err(message) => Err("Failed to decode CBOR token: "@ + message),
            Ok(token) => match stepped(stack, token) {
                Err(message) => Err(message),
                Ok(next) => run(next, items.drop_first()),
            },
        }
    }
}

/// The values that are left when the tokens have come to an end.
pub open spec fn finished_value(stack: Seq<CollectionView>) -> Result<Json, Seq<char>> {
    match collapsed(stack) {
        Err(message) => Err(message),
        Ok(open) => if open.len() == 1 {
            Ok(open[0].simple_value())
        } else {
            Err("Invalid CBOR: unexpected extra collections"@)
        },
    }
}

/// The JSON array of the items that a sequence of tokens spells, or the message
/// that refuses it.
pub open spec fn items_json(items: Seq<Result<ExtendedTokenView, Seq<char>>>) -> Result<
    Json,
    Seq<char>,
> {
    match run(seq![CollectionView::root()], items) {
        Err(message) => Err(message),
        Ok(stack) => finished_value(stack),
    }
}

/// All that a tokenizer hands out.
fn read_items(tokenizer: ExtendedTokenizer) -> (items: Vec<Result<ExtendedToken, String>>)
    ensures
        items_view(items@) == tokens_from(tokenizer.input(), tokenizer.offset()),
        items_wf(items@),
{
    let mut tokenizer = tokenizer;
    let ghost data = tokenizer.input();
    let ghost start = tokenizer.offset();
    let mut items: Vec<Result<ExtendedToken, String>> = Vec::new();
    proof {
        assert(items_view(items@) + tokens_from(data, start) =~= tokens_from(data, start));
    }
    loop
        invariant_except_break
            tokenizer.input() == data,
            items_wf(items@),
            items_view(items@) + tokens_from(data, tokenizer.offset()) == tokens_from(data, start),
        ensures
            items_wf(items@),
            items_view(items@) == tokens_from(data, start),
        decreases data.len() - tokenizer.offset(),
    {
        let ghost before = items@;
        let ghost position = tokenizer.offset();
        match tokenizer.next() {
            None => {
                assert(items_view(items@) + tokens_from(data, position) =~= items_view(items@));
                break;
            },
            Some(Err(message)) => {
                items.push(Err(message));
                assert(items_view(items@) =~= items_view(before) + tokens_from(data, position));
                break;
            },
            Some(Ok(token)) => {
                let ghost view = token@;
                items.push(Ok(token));
                proof {
                    assert(items_view(items@) =~= items_view(before).push(Ok(view)));
                    assert(items_view(items@) + tokens_from(data, tokenizer.offset())
                        =~= items_view(before) + tokens_from(data, position));
                }
            },
        }
    }
    items
}

/// Builds the JSON tree of a sequence of tokens; a fault among them ends it.
pub fn value_of_tokens(items: Vec<Result<ExtendedToken, String>>) -> (value: Result<Value, JsError>)
    requires
        items_wf(items@),
    ensures
        viewed(value) == items_json(items_view(items@)),
{
    let mut collections: Vec<CborCollection> = Vec::new();
    // Start with a root array as a container
    collections.push(CborCollection::new_array());
    let ghost all = items_view(items@);
    proof {
        assert(stack_view(collections@) =~= seq![CollectionView::root()]);
        assert(all.skip(0) =~= all);
    }
    let mut i: usize = 0;
    while i < items.len()
        invariant
            i <= items@.len(),
            all == items_view(items@),
            items_wf(items@),
            stack_wf(collections@),
            run(stack_view(collections@), all.skip(i as int)) == run(
                seq![CollectionView::root()],
                all,
            ),
        decreases items@.len() - i,
    {
        assert(all.skip(i as int)[0] == all[i as int]);
        assert(all.skip(i as int).drop_first() =~= all.skip(i + 1));
        match &items[i] {
            Err(fault) => {
                let mut message = "Failed to decode CBOR token: ".to_owned();
                message.append(fault.as_str());
                return Err(JsError { message });
            },
            Ok(token) => {
                collections = match apply_token(collections, token) {
                    Ok(next) => next,
                    Err(error) => return Err(error),
                };
            },
        }
        i = i + 1;
    }
    assert(all.skip(i as int) =~= Seq::empty());
    // Final collapse
    let mut roots = match collapse_collections(collections) {
        Ok(roots) => roots,
        Err(error) => return Err(error),
    };
    // We expect exactly one root
    if roots.len() != 1 {
        return Err(JsError::new("Invalid CBOR: unexpected extra collections"));
    }
    let ghost open = stack_view(roots@);
    let root = roots.pop().unwrap();
    assert(open[0] == root@);
    Ok(root.to_simple_value())
}

/// Creates an `ExtendedTokenizer` from raw CBOR data.
pub fn get_tokenizer<'a>(data: &'a [u8]) -> (tokenizer: ExtendedTokenizer<'a>)
    ensures
        tokenizer.input() == data@,
        tokenizer.offset() == 0,
{
    ExtendedTokenizer::new(data)
}

/// Parse a stream of tokens into a JSON value that includes structure metadata.
pub fn get_value(tokenizer: ExtendedTokenizer) -> (value: Result<Value, JsError>)
    ensures
        viewed(value) == items_json(tokens_from(tokenizer.input(), tokenizer.offset())),
{
    value_of_tokens(read_items(tokenizer))
}

} // verus!
