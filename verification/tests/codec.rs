//! Encoding and decoding single messages.

use jsonl::{decode, encode, Json};

fn framed(v: &Json) -> Vec<u8> {
    let mut bytes = encode(v);
    bytes.push(b'\n');
    bytes
}

#[test]
fn round_trip_null() {
    assert_eq!(decode(&framed(&Json::Null)).unwrap(), Json::Null);
}

#[test]
fn round_trip_scalars() {
    let values = vec![
        Json::Bool(true),
        Json::Bool(false),
        Json::Int(0),
        Json::Int(-42),
        Json::Int(i64::MIN),
        Json::Int(i64::MAX),
        Json::BigUInt(u64::MAX),
        Json::BigUInt(i64::MAX as u64 + 1),
        Json::Str(String::new()),
        Json::Str("h\u{e9}llo \"quoted\" text".to_string()),
        Json::Str("line\nbreak\ttab\r".to_string()),
    ];
    for v in values {
        let back = decode(&framed(&v)).unwrap();
        assert_eq!(back, v);
    }
}

#[test]
fn round_trip_nested() {
    let v = Json::Obj(vec![
        ("id".to_string(), Json::Int(7)),
        ("tags".to_string(), Json::Arr(vec![Json::Str("a".to_string()), Json::Null])),
        (
            "inner".to_string(),
            Json::Obj(vec![("z".to_string(), Json::Bool(false)), ("a".to_string(), Json::Int(-1))]),
        ),
    ]);
    assert_eq!(decode(&framed(&v)).unwrap(), v);
}

#[test]
fn encode_exact_scalars() {
    assert_eq!(encode(&Json::Null), b"null");
    assert_eq!(encode(&Json::Bool(true)), b"true");
    assert_eq!(encode(&Json::Int(-3)), b"-3");
    assert_eq!(encode(&Json::BigUInt(u64::MAX)), b"18446744073709551615");
    assert_eq!(encode(&Json::Str("a\nb".to_string())), b"\"a\\nb\"");
}

#[test]
fn encode_exact_object_keeps_member_order() {
    let v = Json::Obj(vec![
        ("b".to_string(), Json::Int(1)),
        ("a".to_string(), Json::Str("x".to_string())),
    ]);
    assert_eq!(encode(&v), b"{\"b\":1,\"a\":\"x\"}");
}

#[test]
fn encode_exact_array() {
    let v = Json::Arr(vec![Json::Int(1), Json::Int(2), Json::Null]);
    assert_eq!(encode(&v), b"[1,2,null]");
}

#[test]
fn decode_malformed_is_deserialize_failure() {
    let r = decode(b"{not valid json\n");
    assert!(matches!(r, Err(jsonl::RecvError::Deserialize)));
}

#[test]
fn decode_empty_line_is_deserialize_failure() {
    let r = decode(b"\n");
    assert!(matches!(r, Err(jsonl::RecvError::Deserialize)));
}

#[test]
fn decode_nothing_is_deserialize_failure() {
    let r = decode(b"");
    assert!(matches!(r, Err(jsonl::RecvError::Deserialize)));
}

#[test]
fn decode_without_trailing_newline() {
    assert_eq!(decode(b"7").unwrap(), Json::Int(7));
    assert_eq!(decode(b"{\"a\":1}").unwrap(), Json::Obj(vec![("a".to_string(), Json::Int(1))]));
}

#[test]
fn decode_fractional_number_is_refused() {
    assert!(matches!(decode(b"1.5\n"), Err(jsonl::RecvError::Deserialize)));
    assert!(matches!(decode(b"1e3\n"), Err(jsonl::RecvError::Deserialize)));
}

#[test]
fn decode_trailing_garbage_is_refused() {
    assert!(matches!(decode(b"1 2\n"), Err(jsonl::RecvError::Deserialize)));
}

#[test]
fn decode_large_unsigned() {
    assert_eq!(decode(b"18446744073709551615\n").unwrap(), Json::BigUInt(u64::MAX));
    assert_eq!(decode(b"9223372036854775807\n").unwrap(), Json::Int(i64::MAX));
}

#[test]
fn well_formedness_is_decidable() {
    assert!(Json::Null.is_wf());
    assert!(Json::Int(-5).is_wf());
    assert!(Json::BigUInt(i64::MAX as u64 + 1).is_wf());
    assert!(!Json::BigUInt(5).is_wf());
    assert!(Json::Arr(vec![Json::Int(1), Json::Bool(false)]).is_wf());
    assert!(!Json::Arr(vec![Json::BigUInt(0)]).is_wf());

    let distinct = Json::Obj(vec![
        ("a".to_string(), Json::Int(1)),
        ("b".to_string(), Json::Int(2)),
    ]);
    assert!(distinct.is_wf());

    let duplicated = Json::Obj(vec![
        ("a".to_string(), Json::Int(1)),
        ("a".to_string(), Json::Int(2)),
    ]);
    assert!(!duplicated.is_wf());
}

#[test]
fn encoded_text_has_no_raw_control_bytes() {
    let v = Json::Obj(vec![(
        "all\u{1}controls\u{1f}".to_string(),
        Json::Str("tab\there\rnewline\nend".to_string()),
    )]);
    let text = encode(&v);
    assert!(text.iter().all(|b| *b >= 0x20));
    assert_eq!(decode(&framed(&v)).unwrap(), v);
}

#[test]
fn encoded_text_is_valid_utf8() {
    let v = Json::Arr(vec![
        Json::Str("h\u{e9}llo".to_string()),
        Json::Str("\u{3bb}\u{4e16}\u{1d11e}".to_string()),
    ]);
    let text = encode(&v);
    let back = String::from_utf8(text).unwrap();
    assert_eq!(back, "[\"h\u{e9}llo\",\"\u{3bb}\u{4e16}\u{1d11e}\"]");
}

fn nested_arrays(depth: usize) -> Json {
    let mut v = Json::Arr(vec![]);
    for _ in 1..depth {
        v = Json::Arr(vec![v]);
    }
    v
}

#[test]
fn nesting_limit_bounds_the_round_trip() {
    let at_limit = nested_arrays(127);
    assert!(at_limit.is_wf());
    assert_eq!(decode(&framed(&at_limit)).unwrap(), at_limit);

    let too_deep = nested_arrays(128);
    assert!(!too_deep.is_wf());
    let r = decode(&framed(&too_deep));
    assert!(matches!(r, Err(jsonl::RecvError::Deserialize)));
}
