use pagination::Error;
use pagination::decode_u64;
use pagination::encode_u64;

#[test]
fn encode_produces_url_safe_tokens() {
    // offset 10 -> digit string "10" -> unpadded URL-safe base64 "MTA"
    assert_eq!(encode_u64(10), "MTA");
    assert_eq!(encode_u64(0), "MA");
}

#[test]
fn decode_inverts_encode() {
    for o in [0u64, 1, 9, 10, 99, 100, 12345, 10_000_000_000, u64::MAX - 1, u64::MAX] {
        assert_eq!(decode_u64(&encode_u64(o)).unwrap(), o);
    }
}

#[test]
fn non_base64_token_yields_base64_decode() {
    let err = decode_u64("not base64!").unwrap_err();
    assert_eq!(err, Error::Base64Decode { s: "not base64!".to_string() });

    // padded base64 is not in this codec's alphabet configuration
    let err = decode_u64("MTA=").unwrap_err();
    assert_eq!(err, Error::Base64Decode { s: "MTA=".to_string() });
}

#[test]
fn non_utf8_bytes_yield_invalid_utf8() {
    // "_w" decodes to the single byte 0xff, which is not UTF-8
    let err = decode_u64("_w").unwrap_err();
    assert_eq!(err, Error::InvalidUtf8);
}

#[test]
fn non_numeric_text_yields_invalid_number() {
    // "YWJj" decodes to "abc"
    let err = decode_u64("YWJj").unwrap_err();
    assert_eq!(err, Error::InvalidNumber { s: "abc".to_string() });

    // "MTg0NDY3NDQwNzM3MDk1NTE2MTY" decodes to "18446744073709551616" == u64::MAX + 1
    let err = decode_u64("MTg0NDY3NDQwNzM3MDk1NTE2MTY").unwrap_err();
    assert_eq!(
        err,
        Error::InvalidNumber { s: "18446744073709551616".to_string() }
    );
}

#[test]
fn plus_prefixed_decimal_is_accepted() {
    // "KzEw" decodes to "+10", which parses as 10
    assert_eq!(decode_u64("KzEw").unwrap(), 10);
    // a lone "+" ("Kw") is not a number
    let err = decode_u64("Kw").unwrap_err();
    assert_eq!(err, Error::InvalidNumber { s: "+".to_string() });
}
