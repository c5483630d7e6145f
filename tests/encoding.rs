use backend::value::{encode_integer, encode_rows, encode_value, Value};

#[test]
fn integers_are_decimal() {
    assert_eq!(encode_integer(0), "0");
    assert_eq!(encode_integer(7), "7");
    assert_eq!(encode_integer(-1), "-1");
    assert_eq!(encode_integer(1200), "1200");
    assert_eq!(encode_integer(i64::MAX), "9223372036854775807");
    assert_eq!(encode_integer(i64::MIN), "-9223372036854775808");
}

#[test]
fn integers_read_back() {
    for i in [0i64, 1, -1, 10, -10, 99, 100, 123456789, i64::MAX, i64::MIN, i64::MIN + 1] {
        let text = encode_value(&Value::Integer(i));
        assert_eq!(text.parse::<i64>().unwrap(), i);
    }
}

#[test]
fn null_is_empty() {
    assert_eq!(encode_value(&Value::Null), "");
}

#[test]
fn text_is_verbatim() {
    assert_eq!(encode_value(&Value::Text(String::new())), "");
    assert_eq!(encode_value(&Value::Text("a, 'b' \"c\"\n\u{e9}".to_string())), "a, 'b' \"c\"\n\u{e9}");
}

#[test]
fn blob_is_lowercase_hex() {
    assert_eq!(encode_value(&Value::Blob(vec![])), "");
    assert_eq!(encode_value(&Value::Blob(vec![0xde, 0xad, 0x0b, 0xef])), "dead0bef");
    assert_eq!(encode_value(&Value::Blob(vec![0x00, 0xff])), "00ff");
}

#[test]
fn every_byte_reads_back() {
    let bytes: Vec<u8> = (0..=255u8).collect();
    let text = encode_value(&Value::Blob(bytes.clone()));
    assert_eq!(text.len(), 512);
    assert_eq!(text, text.to_lowercase());
    assert_eq!(hex::decode(&text).unwrap(), bytes);
}

#[test]
fn real_text_is_kept() {
    assert_eq!(encode_value(&Value::Real("0.1".to_string())), "0.1");
}

#[test]
fn rows_are_encoded_cell_by_cell() {
    let rows = vec![
        vec![Value::Integer(1), Value::Text("a".to_string())],
        vec![Value::Null, Value::Blob(vec![1, 2])],
    ];
    let out = encode_rows(&rows);
    assert_eq!(out, vec![vec!["1".to_string(), "a".to_string()], vec!["".to_string(), "0102".to_string()]]);
}
