use cquisitor::cbor::cbor_decoder::{
    apply_token, build_map_value, cbor_pos_to_value, collapse_collections, extend_pos,
    extended_token_to_value, get_tag_name, get_token_name, get_tokenizer, get_value,
    is_break_token, is_token_collection, token_to_value, value_of_tokens, CborCollection, CborPos,
};
use cquisitor::cbor::token::{ExtendedToken, Tag, Token};
use cquisitor::value::{Number, Value};

fn to_json(value: &Value) -> serde_json::Value {
    match value {
        Value::Null => serde_json::Value::Null,
        Value::Bool(b) => serde_json::Value::Bool(*b),
        Value::Number(Number::PosInt(n)) => serde_json::Value::from(*n),
        Value::Number(Number::NegInt(n)) => serde_json::Value::from(*n),
        Value::Number(Number::Single(bits)) => {
            serde_json::Value::from(f64::from(f32::from_bits(*bits)))
        }
        Value::Number(Number::Double(bits)) => serde_json::Value::from(f64::from_bits(*bits)),
        Value::String(s) => serde_json::Value::String(s.clone()),
        Value::Array(values) => serde_json::Value::Array(values.iter().map(to_json).collect()),
        Value::Object(entries) => serde_json::Value::Object(
            entries
                .iter()
                .map(|(key, value)| (key.clone(), to_json(value)))
                .collect(),
        ),
    }
}

fn decoded(hex_text: &str) -> serde_json::Value {
    let data = hex::decode(hex_text).unwrap();
    to_json(&get_value(get_tokenizer(&data)).unwrap())
}

fn refused(hex_text: &str) -> String {
    let data = hex::decode(hex_text).unwrap();
    get_value(get_tokenizer(&data)).unwrap_err().message
}

fn json(text: &str) -> serde_json::Value {
    serde_json::from_str(text).unwrap()
}

fn pos(offset: usize, length: usize) -> CborPos {
    CborPos { offset, length }
}

fn token(token: Token, offset: usize, length: usize) -> ExtendedToken {
    ExtendedToken {
        token,
        offset,
        length,
    }
}

#[test]
fn extend_pos_reaches_the_later_end() {
    assert_eq!(extend_pos(&pos(2, 3), &pos(4, 6)), pos(2, 8));
    assert_eq!(extend_pos(&pos(2, 8), &pos(4, 6)), pos(2, 8));
    assert_eq!(extend_pos(&pos(2, 3), &pos(3, 1)), pos(2, 3));
    assert_eq!(extend_pos(&pos(5, 1), &pos(0, 9)), pos(5, 4));
    assert_eq!(extend_pos(&pos(0, 0), &pos(0, 0)), pos(0, 0));
}

#[test]
fn small_integers_are_decoded() {
    assert_eq!(
        decoded("01"),
        json(r#"[{"position_info":{"offset":0,"length":1},"type":"U8","value":1}]"#)
    );
    assert_eq!(
        decoded("190100"),
        json(r#"[{"position_info":{"offset":0,"length":3},"type":"U16","value":256}]"#)
    );
    assert_eq!(
        decoded("1a00010000"),
        json(r#"[{"position_info":{"offset":0,"length":5},"type":"U32","value":65536}]"#)
    );
    assert_eq!(
        decoded("1bffffffffffffffff"),
        json(
            r#"[{"position_info":{"offset":0,"length":9},"type":"U64","value":18446744073709551615}]"#
        )
    );
}

#[test]
fn negative_integers_are_decoded() {
    assert_eq!(
        decoded("20"),
        json(r#"[{"position_info":{"offset":0,"length":1},"type":"I8","value":-1}]"#)
    );
    assert_eq!(
        decoded("3b7fffffffffffffff"),
        json(
            r#"[{"position_info":{"offset":0,"length":9},"type":"I64","value":-9223372036854775808}]"#
        )
    );
}

#[test]
fn integer_below_i64_is_refused() {
    assert_eq!(
        refused("3b8000000000000000"),
        "Can't covert CBOR int into js Value. Int { neg: true, val: 9223372036854775808 }"
    );
}

#[test]
fn strings_and_bytes_are_decoded() {
    assert_eq!(
        decoded("6161420aff"),
        json(
            r#"[
                {"position_info":{"offset":0,"length":2},"type":"String","value":"a"},
                {"position_info":{"offset":2,"length":3},"type":"Bytes","value":"0aff"}
            ]"#
        )
    );
}

#[test]
fn simple_values_are_decoded() {
    assert_eq!(
        decoded("f4f5f6f7f0"),
        json(
            r#"[
                {"position_info":{"offset":0,"length":1},"type":"Bool","value":false},
                {"position_info":{"offset":1,"length":1},"type":"Bool","value":true},
                {"position_info":{"offset":2,"length":1},"type":"Null","value":null},
                {"position_info":{"offset":3,"length":1},"type":"Undefined","value":null},
                {"position_info":{"offset":4,"length":1},"type":"Simple","value":16}
            ]"#
        )
    );
}

#[test]
fn floats_are_decoded() {
    assert_eq!(
        decoded("f93e00fa3fc00000fb3ff8000000000000"),
        json(
            r#"[
                {"position_info":{"offset":0,"length":3},"type":"F16","value":1.5},
                {"position_info":{"offset":3,"length":5},"type":"F32","value":1.5},
                {"position_info":{"offset":8,"length":9},"type":"F64","value":1.5}
            ]"#
        )
    );
}

#[test]
fn floats_that_are_not_finite_are_refused() {
    assert_eq!(refused("f97c00"), "Failed to convert float");
    assert_eq!(refused("fa7fc00000"), "Failed to convert float");
    assert_eq!(refused("fbfff0000000000000"), "Failed to convert float");
}

#[test]
fn definite_array_is_decoded() {
    assert_eq!(
        decoded("820102"),
        json(
            r#"[{
                "type":"Array",
                "items":2,
                "position_info":{"offset":0,"length":1},
                "struct_position_info":{"offset":0,"length":3},
                "values":[
                    {"position_info":{"offset":1,"length":1},"type":"U8","value":1},
                    {"position_info":{"offset":2,"length":1},"type":"U8","value":2}
                ]
            }]"#
        )
    );
}

#[test]
fn empty_array_is_decoded() {
    assert_eq!(
        decoded("80"),
        json(
            r#"[{
                "type":"Array",
                "items":0,
                "position_info":{"offset":0,"length":1},
                "struct_position_info":{"offset":0,"length":1},
                "values":[]
            }]"#
        )
    );
}

#[test]
fn indefinite_array_lists_its_break() {
    assert_eq!(
        decoded("9f01ff"),
        json(
            r#"[{
                "type":"Array",
                "items":"Indefinite",
                "position_info":{"offset":0,"length":1},
                "struct_position_info":{"offset":0,"length":3},
                "values":[
                    {"position_info":{"offset":1,"length":1},"type":"U8","value":1},
                    {"position_info":{"offset":2,"length":1},"type":"Break","value":null}
                ]
            }]"#
        )
    );
}

#[test]
fn map_is_decoded() {
    assert_eq!(
        decoded("a10102"),
        json(
            r#"[{
                "type":"Map",
                "items":1,
                "position_info":{"offset":0,"length":1},
                "struct_position_info":{"offset":0,"length":3},
                "values":[{
                    "key":{"position_info":{"offset":1,"length":1},"type":"U8","value":1},
                    "value":{"position_info":{"offset":2,"length":1},"type":"U8","value":2}
                }]
            }]"#
        )
    );
}

#[test]
fn indefinite_map_does_not_reach_over_its_break() {
    assert_eq!(
        decoded("bf0102ff"),
        json(
            r#"[{
                "type":"Map",
                "items":"Indefinite",
                "position_info":{"offset":0,"length":1},
                "struct_position_info":{"offset":0,"length":3},
                "values":[{
                    "key":{"position_info":{"offset":1,"length":1},"type":"U8","value":1},
                    "value":{"position_info":{"offset":2,"length":1},"type":"U8","value":2}
                }]
            }]"#
        )
    );
}

#[test]
fn tags_are_decoded() {
    assert_eq!(
        decoded("c24105d9010201"),
        json(
            r#"[
                {
                    "type":"Tag",
                    "position_info":{"offset":0,"length":1},
                    "struct_position_info":{"offset":0,"length":3},
                    "tag":"PosBignum",
                    "value":{"position_info":{"offset":1,"length":2},"type":"Bytes","value":"05"}
                },
                {
                    "type":"Tag",
                    "position_info":{"offset":3,"length":3},
                    "struct_position_info":{"offset":3,"length":4},
                    "tag":"Unassigned(258)",
                    "value":{"position_info":{"offset":6,"length":1},"type":"U8","value":1}
                }
            ]"#
        )
    );
}

#[test]
fn indefinite_strings_are_decoded_as_chunks() {
    assert_eq!(
        decoded("7f61616162ff5f4101ff"),
        json(
            r#"[
                {
                    "type":"IndefiniteLengthString",
                    "position_info":{"offset":0,"length":1},
                    "struct_position_info":{"offset":0,"length":6},
                    "chunks":[
                        {"position_info":{"offset":1,"length":2},"type":"String","value":"a"},
                        {"position_info":{"offset":3,"length":2},"type":"String","value":"b"}
                    ]
                },
                {
                    "type":"IndefiniteLengthBytes",
                    "position_info":{"offset":6,"length":1},
                    "struct_position_info":{"offset":6,"length":4},
                    "chunks":[
                        {"position_info":{"offset":7,"length":2},"type":"Bytes","value":"01"}
                    ]
                }
            ]"#
        )
    );
}

#[test]
fn nested_collections_are_closed_together() {
    let value = decoded("8181a10180");
    assert_eq!(
        value[0]["struct_position_info"],
        json(r#"{"offset":0,"length":5}"#)
    );
    assert_eq!(
        value[0]["values"][0]["values"][0]["values"][0]["value"]["type"],
        json(r#""Array""#)
    );
    assert_eq!(value.as_array().unwrap().len(), 1);
}

#[test]
fn items_keep_their_number_and_order() {
    let value = decoded("018102a1030405");
    let types: Vec<String> = value
        .as_array()
        .unwrap()
        .iter()
        .map(|item| item["type"].as_str().unwrap().to_string())
        .collect();
    assert_eq!(types, ["U8", "Array", "Map", "U8"]);
}

#[test]
fn input_that_ends_inside_a_collection_is_refused() {
    assert_eq!(
        refused("8201"),
        "Invalid CBOR: unexpected extra collections"
    );
    assert_eq!(refused("9f"), "Invalid CBOR: unexpected extra collections");
    assert_eq!(refused("c2"), "Invalid CBOR: unexpected extra collections");
}

#[test]
fn break_outside_of_a_collection_is_refused() {
    assert_eq!(refused("ff"), "No parent collection found");
    assert_eq!(refused("8001ff"), "No parent collection found");
}

#[test]
fn fault_in_the_input_is_reported() {
    let message = refused("1c");
    assert!(message.starts_with("Failed to decode CBOR token: "));
    assert!(message.len() > "Failed to decode CBOR token: ".len());
}

#[test]
fn token_that_is_cut_off_is_left_out() {
    assert_eq!(decoded("0119"), decoded("01"));
    assert_eq!(decoded("0142ab"), decoded("01"));
}

#[test]
fn empty_input_is_an_empty_array() {
    assert_eq!(decoded(""), json("[]"));
}

#[test]
fn full_collections_take_no_value() {
    let mut array = CborCollection::Array(
        Value::Array(vec![Value::Null]),
        Some(1),
        1,
        pos(0, 1),
        pos(0, 2),
    );
    assert!(array.is_collection_finished());
    assert_eq!(
        array.add_value(Value::Null, &pos(2, 1), false).unwrap_err().message,
        "Array is already full"
    );
    let mut map = CborCollection::Mapping(
        Value::Array(Vec::new()),
        None,
        Some(0),
        0,
        pos(0, 1),
        pos(0, 1),
    );
    assert_eq!(
        map.add_value(Value::Null, &pos(2, 1), false).unwrap_err().message,
        "Map is already full"
    );
    let mut tag = CborCollection::Tag(Some(Value::Null), Tag::Uri, pos(0, 1), pos(0, 1));
    assert_eq!(
        tag.add_value(Value::Null, &pos(2, 1), false).unwrap_err().message,
        "Tag already has a value"
    );
}

#[test]
fn collections_that_hold_no_array_take_no_value() {
    let mut array = CborCollection::Array(Value::Null, None, 0, pos(0, 1), pos(0, 1));
    assert_eq!(
        array.add_value(Value::Null, &pos(1, 1), false).unwrap_err().message,
        "Array collection is not actually array"
    );
    let mut map = CborCollection::Mapping(
        Value::Null,
        Some(Value::Null),
        None,
        0,
        pos(0, 1),
        pos(0, 1),
    );
    assert_eq!(
        map.add_value(Value::Null, &pos(1, 1), false).unwrap_err().message,
        "Map collection is not stored as array"
    );
}

#[test]
fn map_key_waits_for_its_value() {
    let mut map =
        CborCollection::Mapping(Value::Array(Vec::new()), None, None, 0, pos(3, 1), pos(3, 1));
    assert!(map.add_value(Value::Bool(true), &pos(4, 1), false).is_ok());
    assert_eq!(map.get_full_pos(), pos(3, 1));
    assert!(map.add_value(Value::Bool(false), &pos(5, 2), false).is_ok());
    assert_eq!(map.get_full_pos(), pos(3, 4));
    assert_eq!(
        to_json(&map.to_simple_value()),
        json(r#"[{"key":true,"value":false}]"#)
    );
}

#[test]
fn collections_are_started_by_tokens() {
    let array = CborCollection::new_collection(&token(Token::Array(2), 4, 1)).unwrap();
    assert_eq!(
        to_json(&array.to_value().unwrap()),
        json(
            r#"{
                "type":"Array","items":2,"position_info":{"offset":4,"length":1},
                "struct_position_info":{"offset":4,"length":1},"values":[]
            }"#
        )
    );
    let tag = CborCollection::new_collection(&token(Token::Tag(Tag::Cbor), 0, 2)).unwrap();
    assert_eq!(tag.to_value().unwrap_err().message, "Tag has no value");
    assert_eq!(
        CborCollection::new_collection(&token(Token::Null, 0, 1)).unwrap_err().message,
        "Invalid token for new collection"
    );
}

#[test]
fn tag_without_value_is_null() {
    let tag = CborCollection::new_collection(&token(Token::Tag(Tag::Mime), 0, 2)).unwrap();
    assert_eq!(to_json(&tag.to_simple_value()), serde_json::Value::Null);
    let root = CborCollection::new_array();
    assert_eq!(root.get_full_pos(), pos(0, 0));
    assert!(!root.is_collection_finished());
    assert_eq!(to_json(&root.to_simple_value()), json("[]"));
}

#[test]
fn collapsing_twice_is_collapsing_once() {
    let stack = vec![
        CborCollection::new_array(),
        CborCollection::Tag(None, Tag::DateTime, pos(0, 1), pos(0, 1)),
        CborCollection::Array(Value::Array(Vec::new()), Some(0), 0, pos(1, 1), pos(1, 1)),
    ];
    let once = collapse_collections(stack).unwrap();
    assert_eq!(once.len(), 1);
    assert!(!once[0].is_collection_finished());
    let twice = collapse_collections(once).unwrap();
    assert_eq!(twice.len(), 1);
}

#[test]
fn lone_finished_collection_cannot_be_collapsed() {
    let stack = vec![CborCollection::Array(
        Value::Array(Vec::new()),
        Some(0),
        0,
        pos(0, 1),
        pos(0, 1),
    )];
    assert_eq!(
        collapse_collections(stack).unwrap_err().message,
        "No parent collection to collapse into"
    );
}

#[test]
fn tokens_need_an_open_collection() {
    assert_eq!(
        apply_token(Vec::new(), &token(Token::Null, 0, 1)).unwrap_err().message,
        "No active collection found"
    );
    assert_eq!(
        apply_token(Vec::new(), &token(Token::Break, 0, 1)).unwrap_err().message,
        "No collection to finalize"
    );
}

#[test]
fn tokens_build_a_value_without_an_input() {
    let items = vec![
        Ok(token(Token::Array(1), 0, 1)),
        Ok(token(Token::Bytes(vec![0xab]), 1, 2)),
    ];
    let value = to_json(&value_of_tokens(items).unwrap());
    assert_eq!(value[0]["values"][0]["value"], json(r#""ab""#));
    let items = vec![
        Ok(token(Token::Null, 0, 1)),
        Err("fault".to_string()),
    ];
    assert_eq!(
        value_of_tokens(items).unwrap_err().message,
        "Failed to decode CBOR token: fault"
    );
}

#[test]
fn collection_tokens_have_no_direct_value() {
    for start in [
        Token::BeginArray,
        Token::BeginMap,
        Token::BeginString,
        Token::BeginBytes,
        Token::Array(0),
        Token::MapOf(0),
        Token::Tag(Tag::Regex),
    ] {
        assert!(is_token_collection(&start));
        assert!(!is_break_token(&start));
        assert_eq!(
            token_to_value(&start).unwrap_err().message,
            "Collection token cannot be a direct value"
        );
    }
    assert!(!is_token_collection(&Token::Break));
    assert!(is_break_token(&Token::Break));
}

#[test]
fn token_names_are_those_of_the_kinds() {
    assert_eq!(get_token_name(&Token::MapOf(3)), "Map");
    assert_eq!(get_token_name(&Token::Int(-1)), "Int");
    assert_eq!(get_token_name(&Token::BeginString), "BeginString");
    assert_eq!(get_token_name(&Token::Simple(3)), "Simple");
}

#[test]
fn tag_names_are_those_of_the_registry() {
    let names: Vec<String> = [0, 1, 2, 3, 4, 5, 21, 22, 23, 24, 32, 33, 34, 35, 36, 37]
        .iter()
        .map(|number| get_tag_name(&Tag::of_number(*number)))
        .collect();
    assert_eq!(
        names,
        [
            "DateTime",
            "Timestamp",
            "PosBignum",
            "NegBignum",
            "Decimal",
            "Bigfloat",
            "ToBase64Url",
            "ToBase64",
            "ToBase16",
            "Cbor",
            "Uri",
            "Base64Url",
            "Base64",
            "Regex",
            "Mime",
            "Unassigned(37)"
        ]
    );
}

#[test]
fn integers_fit_json_or_are_refused() {
    assert_eq!(
        to_json(&token_to_value(&Token::Int(18446744073709551615)).unwrap()),
        json("18446744073709551615")
    );
    assert_eq!(
        token_to_value(&Token::Int(18446744073709551616)).unwrap_err().message,
        "Can't covert CBOR int into js Value. Int { neg: false, val: 18446744073709551616 }"
    );
}

#[test]
fn positions_and_entries_are_objects() {
    assert_eq!(
        to_json(&cbor_pos_to_value(&pos(7, 9))),
        json(r#"{"offset":7,"length":9}"#)
    );
    assert_eq!(
        to_json(&build_map_value(Value::Null, Value::Bool(true))),
        json(r#"{"key":null,"value":true}"#)
    );
    assert_eq!(
        to_json(
            &extended_token_to_value(&token(Token::U8(5), 0, 1), &pos(0, 1)).unwrap()
        ),
        json(r#"{"position_info":{"offset":0,"length":1},"type":"U8","value":5}"#)
    );
}

#[test]
fn streams_behind_each_other_are_joined() {
    let items = || {
        vec![
            Ok(token(Token::Array(1), 0, 1)),
            Ok(token(Token::Null, 1, 1)),
        ]
    };
    let alone = to_json(&value_of_tokens(items()).unwrap());
    let mut both = items();
    both.extend(items());
    let joined = to_json(&value_of_tokens(both).unwrap());
    assert_eq!(joined[0], alone[0]);
    assert_eq!(joined[1], alone[0]);
    assert_eq!(joined.as_array().unwrap().len(), 2);
}

#[test]
fn collections_can_be_copied() {
    let collection = CborCollection::Mapping(
        Value::Array(vec![Value::Object(vec![("a".to_string(), Value::Bool(true))])]),
        Some(Value::String("key".to_string())),
        Some(3),
        1,
        pos(0, 1),
        pos(0, 9),
    );
    assert_eq!(format!("{:?}", collection.clone()), format!("{collection:?}"));
    let chunks = CborCollection::IndefiniteBytes(vec![Value::Null], pos(0, 1), pos(0, 2));
    assert_eq!(format!("{:?}", chunks.clone()), format!("{chunks:?}"));
}

#[test]
fn only_empty_collections_start_finished() {
    let starts = [
        (Token::Array(0), true),
        (Token::MapOf(0), true),
        (Token::Array(1), false),
        (Token::MapOf(2), false),
        (Token::BeginArray, false),
        (Token::BeginMap, false),
        (Token::BeginString, false),
        (Token::BeginBytes, false),
    ];
    for (start, finished) in starts {
        let collection = CborCollection::new_collection(&token(start, 0, 1)).unwrap();
        assert_eq!(collection.is_collection_finished(), finished);
    }
}
