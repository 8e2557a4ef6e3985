//! The textual codecs: claims JSON emission and parsing, and the hex text of
//! token identifiers.
use athletics_api::claims::{emit_claims, parse_claims, TokenClaims};
use athletics_api::hexid::hex32_string;

#[test]
fn emit_claims_exact_text() {
    let c = TokenClaims { sub: 1, token_uuid: 0xdeadbeef, exp: 100, iat: 50, nbf: 50 };
    let s = emit_claims(&c);
    assert_eq!(
        s,
        "{\"sub\":1,\"token_uuid\":\"000000000000000000000000deadbeef\",\"exp\":100,\"iat\":50,\"nbf\":50}"
    );
}

#[test]
fn emit_claims_negative_subject() {
    let c = TokenClaims { sub: -5, token_uuid: 1, exp: 0, iat: -3, nbf: 0 };
    let s = emit_claims(&c);
    assert_eq!(
        s,
        "{\"sub\":-5,\"token_uuid\":\"00000000000000000000000000000001\",\"exp\":0,\"iat\":-3,\"nbf\":0}"
    );
}

#[test]
fn parse_inverts_emit() {
    let c = TokenClaims {
        sub: i32::MAX,
        token_uuid: u128::MAX,
        exp: i64::MAX,
        iat: i64::MIN,
        nbf: 0,
    };
    let s = emit_claims(&c);
    let back = parse_claims(&s).expect("canonical text must parse");
    assert_eq!(back, c);
}

#[test]
fn parse_inverts_emit_small_values() {
    let c = TokenClaims { sub: 0, token_uuid: 0, exp: 60, iat: 0, nbf: 0 };
    let back = parse_claims(&emit_claims(&c)).unwrap();
    assert_eq!(back, c);
}

#[test]
fn parse_rejects_reordered_keys() {
    let s = "{\"token_uuid\":\"00000000000000000000000000000001\",\"sub\":1,\"exp\":100,\"iat\":50,\"nbf\":50}";
    assert!(parse_claims(s).is_none());
}

#[test]
fn parse_rejects_trailing_text() {
    let c = TokenClaims { sub: 1, token_uuid: 2, exp: 3, iat: 4, nbf: 5 };
    let mut s = emit_claims(&c);
    s.push(' ');
    assert!(parse_claims(&s).is_none());
}

#[test]
fn parse_rejects_short_identifier() {
    let s = "{\"sub\":1,\"token_uuid\":\"deadbeef\",\"exp\":100,\"iat\":50,\"nbf\":50}";
    assert!(parse_claims(s).is_none());
}

#[test]
fn parse_rejects_uppercase_identifier() {
    let s = "{\"sub\":1,\"token_uuid\":\"000000000000000000000000DEADBEEF\",\"exp\":100,\"iat\":50,\"nbf\":50}";
    assert!(parse_claims(s).is_none());
}

#[test]
fn parse_rejects_empty_and_garbage() {
    assert!(parse_claims("").is_none());
    assert!(parse_claims("{}").is_none());
    assert!(parse_claims("not json at all").is_none());
}

#[test]
fn parse_rejects_subject_out_of_range() {
    let s = "{\"sub\":2147483648,\"token_uuid\":\"00000000000000000000000000000001\",\"exp\":1,\"iat\":1,\"nbf\":1}";
    assert!(parse_claims(s).is_none());
}

#[test]
fn hex_text_of_zero_and_max() {
    assert_eq!(hex32_string(0), "00000000000000000000000000000000");
    assert_eq!(
        hex32_string(340282366920938463463374607431768211455),
        "ffffffffffffffffffffffffffffffff"
    );
    assert_eq!(hex32_string(0x123abc), "00000000000000000000000000123abc");
}
