use blog_api::abi::{convert_json_to_token, trim_hex_prefix, AbiToken, AbiType, JsonParam};

fn s(v: &str) -> JsonParam {
    JsonParam::String(v.to_string())
}

#[test]
fn address_from_text() {
    let t = convert_json_to_token(
        &s("0x00000000000000000000000000000000000000ff"),
        &AbiType::Address,
    )
    .unwrap();
    match t {
        AbiToken::Address(b) => {
            assert_eq!(b.len(), 20);
            assert_eq!(b[19], 0xff);
            assert!(b[..19].iter().all(|x| *x == 0));
        }
        other => panic!("unexpected {:?}", other),
    }
    let e = convert_json_to_token(&s("0x1234"), &AbiType::Address).unwrap_err();
    assert!(e.starts_with("Invalid address"));
}

#[test]
fn uint_from_text_is_hexadecimal() {
    match convert_json_to_token(&s("100"), &AbiType::Uint(256)).unwrap() {
        AbiToken::Uint(b) => {
            assert_eq!(b.len(), 32);
            assert_eq!((b[30], b[31]), (1, 0));
        }
        other => panic!("unexpected {:?}", other),
    }
    match convert_json_to_token(&s("0xff"), &AbiType::Uint(8)).unwrap() {
        AbiToken::Uint(b) => assert_eq!(b[31], 0xff),
        other => panic!("unexpected {:?}", other),
    }
    assert!(convert_json_to_token(&s("zz"), &AbiType::Uint(256))
        .unwrap_err()
        .starts_with("Invalid uint"));
}

#[test]
fn uint_from_number() {
    match convert_json_to_token(&JsonParam::Number(Some(258)), &AbiType::Uint(256)).unwrap() {
        AbiToken::Uint(b) => {
            assert_eq!(b.len(), 32);
            assert_eq!((b[30], b[31]), (1, 2));
            assert!(b[..30].iter().all(|x| *x == 0));
        }
        other => panic!("unexpected {:?}", other),
    }
    assert_eq!(
        convert_json_to_token(&JsonParam::Number(None), &AbiType::Uint(256)).unwrap_err(),
        "Invalid uint number"
    );
}

#[test]
fn string_and_bool() {
    match convert_json_to_token(&s("hello"), &AbiType::String).unwrap() {
        AbiToken::String(v) => assert_eq!(v, "hello"),
        other => panic!("unexpected {:?}", other),
    }
    match convert_json_to_token(&JsonParam::Bool(true), &AbiType::Bool).unwrap() {
        AbiToken::Bool(v) => assert!(v),
        other => panic!("unexpected {:?}", other),
    }
}

#[test]
fn bytes_from_hex() {
    match convert_json_to_token(&s("0x0a0b"), &AbiType::Bytes).unwrap() {
        AbiToken::Bytes(b) => assert_eq!(b, vec![10, 11]),
        other => panic!("unexpected {:?}", other),
    }
    match convert_json_to_token(&s("0x0x0c"), &AbiType::Bytes).unwrap() {
        AbiToken::Bytes(b) => assert_eq!(b, vec![12]),
        other => panic!("unexpected {:?}", other),
    }
    assert_eq!(
        convert_json_to_token(&s("abc"), &AbiType::Bytes).unwrap_err(),
        "Invalid bytes: Odd number of digits"
    );
}

#[test]
fn arrays_convert_element_by_element() {
    let items = JsonParam::Array(vec![JsonParam::Number(Some(1)), s("2")]);
    match convert_json_to_token(&items, &AbiType::Array(Box::new(AbiType::Uint(256)))).unwrap() {
        AbiToken::Array(ts) => assert_eq!(ts.len(), 2),
        other => panic!("unexpected {:?}", other),
    }
    let items = JsonParam::Array(vec![JsonParam::Bool(false)]);
    match convert_json_to_token(&items, &AbiType::FixedArray(Box::new(AbiType::Bool), 1)).unwrap() {
        AbiToken::FixedArray(ts) => assert_eq!(ts.len(), 1),
        other => panic!("unexpected {:?}", other),
    }
    let bad = JsonParam::Array(vec![JsonParam::Bool(true), s("x")]);
    assert_eq!(
        convert_json_to_token(&bad, &AbiType::Array(Box::new(AbiType::Bool))).unwrap_err(),
        "Unsupported type conversion"
    );
    let bad_second = JsonParam::Array(vec![s("0x01"), s("zz"), s("qq")]);
    let e = convert_json_to_token(&bad_second, &AbiType::Array(Box::new(AbiType::Bytes))).unwrap_err();
    assert!(e.starts_with("Invalid bytes: "));
    assert!(e.contains('z'));
    let empty = JsonParam::Array(vec![]);
    assert!(convert_json_to_token(&empty, &AbiType::Array(Box::new(AbiType::Address))).is_ok());
}

#[test]
fn unsupported_pairings_are_refused() {
    assert_eq!(
        convert_json_to_token(&JsonParam::Bool(true), &AbiType::String).unwrap_err(),
        "Unsupported type conversion"
    );
    assert!(convert_json_to_token(&s("1"), &AbiType::Int(256)).is_err());
    assert!(convert_json_to_token(&s("1"), &AbiType::FixedBytes(4)).is_err());
    assert!(convert_json_to_token(&JsonParam::Null, &AbiType::Tuple(vec![])).is_err());
    assert!(convert_json_to_token(&JsonParam::Object, &AbiType::Bool).is_err());
    assert!(convert_json_to_token(&JsonParam::Number(Some(1)), &AbiType::Address).is_err());
}

#[test]
fn trims_repeated_hex_prefixes() {
    assert_eq!(trim_hex_prefix("0x0xab"), "ab");
    assert_eq!(trim_hex_prefix("0xab"), "ab");
    assert_eq!(trim_hex_prefix("ab"), "ab");
    assert_eq!(trim_hex_prefix("0x"), "");
    assert_eq!(trim_hex_prefix("0"), "0");
    assert_eq!(trim_hex_prefix("x0x"), "x0x");
}
