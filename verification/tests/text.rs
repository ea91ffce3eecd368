use cquisitor::cbor::cbor_decoder::token_to_value;
use cquisitor::cbor::token::Token;
use cquisitor::plutus::execute_tx_scripts::input_to_request_format;
use cquisitor::text::decimal_text;
use cquisitor::validators::phase_2::transaction::InputRef;
use cquisitor::value::Value;

#[test]
fn decimal_texts_have_no_leading_zeros() {
    assert_eq!(decimal_text(0), "0");
    assert_eq!(decimal_text(9), "9");
    assert_eq!(decimal_text(10), "10");
    assert_eq!(decimal_text(1002003), "1002003");
    assert_eq!(
        decimal_text(u128::MAX),
        "340282366920938463463374607431768211455"
    );
}

#[test]
fn hexadecimal_texts_can_be_read_back() {
    let bytes: Vec<u8> = (0..=255).collect();
    match token_to_value(&Token::Bytes(bytes.clone())).unwrap() {
        Value::String(text) => {
            assert!(text.starts_with("000102"));
            assert!(text.ends_with("fdfeff"));
            assert_eq!(hex::decode(text).unwrap(), bytes);
        }
        _ => panic!("bytes are shown as text"),
    }
}

#[test]
fn different_inputs_have_different_texts() {
    let text = |byte: u8, index: u64| {
        input_to_request_format(&InputRef {
            transaction_id: vec![byte; 32],
            index,
        })
    };
    assert_ne!(text(1, 1), text(1, 11));
    assert_ne!(text(1, 1), text(2, 1));
    assert_eq!(text(0x0a, 0), format!("{}#0", "0a".repeat(32)));
}
