use std::collections::HashSet;

use auth_core::token::{
    check_claims, claims_from_payload, create_jwt, create_jwt_at, expiry_after,
    generate_refresh_token, verify_access_token, verify_access_token_at, Claims, DecodeFailure,
    IssueError, MissingSecret, RawClaims, TokenError, TokenIssuer, DEFAULT_LEEWAY_SECS,
};

const SECRET: &[u8] = b"test-signing-secret";

fn claims(sub: i32, username: &str, exp: usize) -> Claims {
    Claims { sub, username: username.to_string(), exp }
}

fn raw(sub: Option<i64>, username: Option<&str>, exp: Option<u64>) -> RawClaims {
    RawClaims { sub, username: username.map(|name| name.to_string()), exp }
}

fn sign_payload(payload: &serde_json::Map<String, serde_json::Value>, secret: &[u8]) -> String {
    jsonwebtoken::encode(
        &jsonwebtoken::Header::default(),
        payload,
        &jsonwebtoken::EncodingKey::from_secret(secret),
    )
    .unwrap()
}

#[test]
fn issued_token_verifies_with_the_same_claims() {
    let issuer = TokenIssuer::new(SECRET, 5);
    let token = create_jwt_at(42, "alice", 900, &issuer, 1_700_000_000).unwrap();
    let verified = verify_access_token_at(&token, &issuer, 1_700_000_000).unwrap();
    assert_eq!(verified, claims(42, "alice", 1_700_000_900));
    assert!(verified.exp > 1_700_000_000 && verified.exp <= 1_700_000_000 + 900);
}

#[test]
fn issued_token_has_three_parts_and_the_hs256_header() {
    let issuer = TokenIssuer::new(SECRET, 5);
    let token = create_jwt_at(42, "alice", 900, &issuer, 1_700_000_000).unwrap();
    assert_eq!(token.split('.').count(), 3);
    let header = jsonwebtoken::decode_header(&token).unwrap();
    assert_eq!(header.alg, jsonwebtoken::Algorithm::HS256);
    assert_ne!(token, "alice");
}

#[test]
fn issued_token_is_read_by_the_signing_crate_as_the_same_payload() {
    let issuer = TokenIssuer::new(SECRET, 5);
    let token = create_jwt_at(-7, "bob", 60, &issuer, 1_000).unwrap();
    let mut rules = jsonwebtoken::Validation::new(jsonwebtoken::Algorithm::HS256);
    rules.validate_exp = false;
    let data = jsonwebtoken::decode::<serde_json::Value>(
        &token,
        &jsonwebtoken::DecodingKey::from_secret(SECRET),
        &rules,
    )
    .unwrap();
    assert_eq!(data.claims.get("sub").and_then(|v| v.as_i64()), Some(-7));
    assert_eq!(data.claims.get("username").and_then(|v| v.as_str()), Some("bob"));
    assert_eq!(data.claims.get("exp").and_then(|v| v.as_u64()), Some(1_060));
    assert_eq!(data.claims.as_object().unwrap().len(), 3);
}

#[test]
fn issuance_is_a_function_of_claims_and_secret() {
    let issuer = TokenIssuer::new(SECRET, 5);
    let first = create_jwt_at(42, "alice", 900, &issuer, 1_700_000_000).unwrap();
    let second = create_jwt_at(42, "alice", 900, &issuer, 1_700_000_000).unwrap();
    assert_eq!(first, second);
    let later = create_jwt_at(42, "alice", 900, &issuer, 1_700_000_001).unwrap();
    assert_ne!(first, later);
    let other_user = create_jwt_at(43, "alice", 900, &issuer, 1_700_000_000).unwrap();
    assert_ne!(first, other_user);
}

#[test]
fn token_verifies_until_expiry_plus_leeway_and_not_after() {
    let issuer = TokenIssuer::new(SECRET, 5);
    let token = create_jwt_at(1, "alice", 100, &issuer, 1_000).unwrap();
    // exp is 1100; expired when exp <= now - 5, that is from now = 1105.
    assert!(verify_access_token_at(&token, &issuer, 1_000).is_ok());
    assert!(verify_access_token_at(&token, &issuer, 1_100).is_ok());
    assert!(verify_access_token_at(&token, &issuer, 1_104).is_ok());
    assert_eq!(verify_access_token_at(&token, &issuer, 1_105), Err(TokenError::Expired));
    assert_eq!(verify_access_token_at(&token, &issuer, 2_000), Err(TokenError::Expired));
}

#[test]
fn without_leeway_a_token_expires_at_its_expiry() {
    let issuer = TokenIssuer::new(SECRET, 0);
    let token = create_jwt_at(1, "alice", 100, &issuer, 1_000).unwrap();
    assert!(verify_access_token_at(&token, &issuer, 1_099).is_ok());
    assert_eq!(verify_access_token_at(&token, &issuer, 1_100), Err(TokenError::Expired));
}

#[test]
fn token_with_expiry_in_the_past_is_expired() {
    let issuer = TokenIssuer::new(SECRET, DEFAULT_LEEWAY_SECS);
    let token = create_jwt_at(1, "alice", 60, &issuer, 1_000).unwrap();
    assert_eq!(verify_access_token(&token, &issuer), Err(TokenError::Expired));
}

#[test]
fn token_signed_with_another_key_has_an_invalid_signature() {
    let issuer = TokenIssuer::new(SECRET, 5);
    let other = TokenIssuer::new(b"another-secret", 5);
    let token = create_jwt_at(1, "alice", 900, &other, 1_700_000_000).unwrap();
    assert_eq!(
        verify_access_token_at(&token, &issuer, 1_700_000_000),
        Err(TokenError::SignatureInvalid)
    );
    assert!(verify_access_token_at(&token, &other, 1_700_000_000).is_ok());
}

#[test]
fn tampered_payload_has_an_invalid_signature() {
    let issuer = TokenIssuer::new(SECRET, 5);
    let token = create_jwt_at(1, "alice", 900, &issuer, 1_700_000_000).unwrap();
    let forged = create_jwt_at(2, "alice", 900, &issuer, 1_700_000_000).unwrap();
    let parts: Vec<&str> = token.split('.').collect();
    let forged_parts: Vec<&str> = forged.split('.').collect();
    let mixed = format!("{}.{}.{}", parts[0], forged_parts[1], parts[2]);
    assert_eq!(
        verify_access_token_at(&mixed, &issuer, 1_700_000_000),
        Err(TokenError::SignatureInvalid)
    );
}

#[test]
fn text_that_is_no_token_is_malformed() {
    let issuer = TokenIssuer::new(SECRET, 5);
    for text in ["", "garbage", "a.b", "a.b.c", "....", "Bearer x"] {
        assert_eq!(verify_access_token_at(text, &issuer, 0), Err(TokenError::Malformed));
        assert_eq!(verify_access_token(text, &issuer), Err(TokenError::Malformed));
    }
}

#[test]
fn signed_payload_without_all_claims_is_malformed() {
    let issuer = TokenIssuer::new(SECRET, 5);
    let mut payload = serde_json::Map::new();
    payload.insert("sub".to_string(), serde_json::Value::from(1));
    payload.insert("exp".to_string(), serde_json::Value::from(2_000_000_000u64));
    let token = sign_payload(&payload, SECRET);
    assert_eq!(verify_access_token_at(&token, &issuer, 0), Err(TokenError::Malformed));

    let mut payload = serde_json::Map::new();
    payload.insert("sub".to_string(), serde_json::Value::from("1"));
    payload.insert("username".to_string(), serde_json::Value::from("alice"));
    payload.insert("exp".to_string(), serde_json::Value::from(2_000_000_000u64));
    let token = sign_payload(&payload, SECRET);
    assert_eq!(verify_access_token_at(&token, &issuer, 0), Err(TokenError::Malformed));

    let mut payload = serde_json::Map::new();
    payload.insert("sub".to_string(), serde_json::Value::from(1));
    payload.insert("username".to_string(), serde_json::Value::from("alice"));
    let token = sign_payload(&payload, SECRET);
    assert_eq!(verify_access_token_at(&token, &issuer, 0), Err(TokenError::Malformed));

    let mut payload = serde_json::Map::new();
    payload.insert("sub".to_string(), serde_json::Value::from(5_000_000_000i64));
    payload.insert("username".to_string(), serde_json::Value::from("alice"));
    payload.insert("exp".to_string(), serde_json::Value::from(2_000_000_000u64));
    let token = sign_payload(&payload, SECRET);
    assert_eq!(verify_access_token_at(&token, &issuer, 0), Err(TokenError::Malformed));
}

#[test]
fn signed_payload_with_extra_members_is_accepted() {
    let issuer = TokenIssuer::new(SECRET, 5);
    let mut payload = serde_json::Map::new();
    payload.insert("sub".to_string(), serde_json::Value::from(9));
    payload.insert("username".to_string(), serde_json::Value::from("carol"));
    payload.insert("exp".to_string(), serde_json::Value::from(2_000u64));
    payload.insert("role".to_string(), serde_json::Value::from("admin"));
    let token = sign_payload(&payload, SECRET);
    assert_eq!(verify_access_token_at(&token, &issuer, 1_000), Ok(claims(9, "carol", 2_000)));
}

#[test]
fn token_of_another_algorithm_is_malformed() {
    let issuer = TokenIssuer::new(SECRET, 5);
    let mut payload = serde_json::Map::new();
    payload.insert("sub".to_string(), serde_json::Value::from(9));
    payload.insert("username".to_string(), serde_json::Value::from("carol"));
    payload.insert("exp".to_string(), serde_json::Value::from(2_000u64));
    let token = jsonwebtoken::encode(
        &jsonwebtoken::Header::new(jsonwebtoken::Algorithm::HS512),
        &payload,
        &jsonwebtoken::EncodingKey::from_secret(SECRET),
    )
    .unwrap();
    assert_eq!(verify_access_token_at(&token, &issuer, 1_000), Err(TokenError::Malformed));
}

#[test]
fn zero_lifetime_is_refused() {
    let issuer = TokenIssuer::new(SECRET, 5);
    assert_eq!(create_jwt_at(1, "alice", 0, &issuer, 1_000), Err(IssueError::InvalidLifetime));
    assert_eq!(create_jwt(1, "alice", 0, &issuer), Err(IssueError::InvalidLifetime));
}

#[test]
fn expiry_that_the_claims_cannot_hold_is_refused() {
    let issuer = TokenIssuer::new(SECRET, 5);
    assert_eq!(create_jwt_at(1, "alice", 10, &issuer, -100), Err(IssueError::InvalidLifetime));
    assert_eq!(
        create_jwt_at(1, "alice", u64::MAX, &issuer, i64::MAX),
        Err(IssueError::InvalidLifetime)
    );
}

#[test]
fn expiry_after_adds_the_lifetime() {
    assert_eq!(expiry_after(1_000, 900), Some(1_900));
    assert_eq!(expiry_after(-5, 10), Some(5));
    assert_eq!(expiry_after(-10, 10), Some(0));
    assert_eq!(expiry_after(-11, 10), None);
    assert_eq!(expiry_after(1_000, 0), None);
    assert_eq!(expiry_after(0, 1), Some(1));
}

#[test]
fn token_issued_now_verifies_now() {
    let issuer = TokenIssuer::new(SECRET, 5);
    let before = chrono::Utc::now().timestamp();
    let token = create_jwt(7, "dave", 900, &issuer).unwrap();
    let after = chrono::Utc::now().timestamp();
    let verified = verify_access_token(&token, &issuer).unwrap();
    assert_eq!(verified.sub, 7);
    assert_eq!(verified.username, "dave");
    assert!(verified.exp as i64 >= before + 900);
    assert!(verified.exp as i64 <= after + 900);
}

#[test]
fn check_claims_follows_the_rule() {
    assert_eq!(
        check_claims(Err(DecodeFailure::BadSignature), 0, 0),
        Err(TokenError::SignatureInvalid)
    );
    assert_eq!(check_claims(Err(DecodeFailure::Unreadable), 0, 0), Err(TokenError::Malformed));
    assert_eq!(
        check_claims(Ok(raw(Some(7), Some("alice"), Some(100))), 99, 0),
        Ok(claims(7, "alice", 100))
    );
    assert_eq!(
        check_claims(Ok(raw(Some(7), Some("alice"), Some(100))), 100, 0),
        Err(TokenError::Expired)
    );
    assert_eq!(
        check_claims(Ok(raw(Some(7), Some("alice"), Some(100))), 104, 5),
        Ok(claims(7, "alice", 100))
    );
    assert_eq!(
        check_claims(Ok(raw(Some(7), Some("alice"), Some(100))), 105, 5),
        Err(TokenError::Expired)
    );
    assert_eq!(
        check_claims(Ok(raw(None, Some("alice"), Some(100))), 0, 5),
        Err(TokenError::Malformed)
    );
    assert_eq!(
        check_claims(Ok(raw(Some(7), Some("alice"), Some(0))), i64::MIN, u64::MAX),
        Ok(claims(7, "alice", 0))
    );
    assert_eq!(
        check_claims(Ok(raw(Some(7), Some("alice"), Some(0))), i64::MAX, 0),
        Err(TokenError::Expired)
    );
}

#[test]
fn claims_from_payload_wants_all_three_in_range() {
    assert_eq!(
        claims_from_payload(raw(Some(7), Some("alice"), Some(100))),
        Some(claims(7, "alice", 100))
    );
    assert_eq!(
        claims_from_payload(raw(Some(i32::MIN as i64), Some(""), Some(0))),
        Some(claims(i32::MIN, "", 0))
    );
    assert_eq!(
        claims_from_payload(raw(Some(i32::MAX as i64), Some("x"), Some(1))),
        Some(claims(i32::MAX, "x", 1))
    );
    assert_eq!(claims_from_payload(raw(Some(i32::MAX as i64 + 1), Some("x"), Some(1))), None);
    assert_eq!(claims_from_payload(raw(Some(i32::MIN as i64 - 1), Some("x"), Some(1))), None);
    assert_eq!(claims_from_payload(raw(None, Some("x"), Some(1))), None);
    assert_eq!(claims_from_payload(raw(Some(1), None, Some(1))), None);
    assert_eq!(claims_from_payload(raw(Some(1), Some("x"), None)), None);
}

#[test]
fn the_secret_is_mandatory() {
    assert!(matches!(TokenIssuer::from_config(None), Err(MissingSecret)));
    let issuer = TokenIssuer::from_config(Some("test-signing-secret")).ok().unwrap();
    let same = TokenIssuer::new(SECRET, DEFAULT_LEEWAY_SECS);
    let token = create_jwt_at(1, "alice", 900, &issuer, 1_000).unwrap();
    assert_eq!(verify_access_token_at(&token, &same, 1_000), Ok(claims(1, "alice", 1_900)));
    // The default leeway is five seconds.
    assert!(verify_access_token_at(&token, &issuer, 1_904).is_ok());
    assert_eq!(verify_access_token_at(&token, &issuer, 1_905), Err(TokenError::Expired));
}

#[test]
fn refresh_token_is_two_random_uuids() {
    let token = generate_refresh_token();
    assert_eq!(token.len(), 72);
    for half in [&token[..36], &token[36..]] {
        for (i, c) in half.chars().enumerate() {
            if i == 8 || i == 13 || i == 18 || i == 23 {
                assert_eq!(c, '-');
            } else {
                assert!(c.is_ascii_digit() || ('a'..='f').contains(&c));
            }
        }
        assert_eq!(half.as_bytes()[14], b'4');
        assert!(matches!(half.as_bytes()[19], b'8' | b'9' | b'a' | b'b'));
        assert_eq!(uuid::Uuid::parse_str(half).unwrap().get_version_num(), 4);
    }
    assert_ne!(&token[..36], &token[36..]);
}

#[test]
fn keys_that_differ_in_trailing_zero_bytes_are_one_hmac_key() {
    let issuer = TokenIssuer::new(b"k", 5);
    let padded = TokenIssuer::new(b"k\0", 5);
    let token = create_jwt_at(1, "alice", 900, &padded, 1_000).unwrap();
    assert_eq!(verify_access_token_at(&token, &issuer, 1_000), Ok(claims(1, "alice", 1_900)));
}

#[test]
fn refresh_tokens_do_not_collide_in_a_large_sample() {
    let mut seen = HashSet::new();
    for _ in 0..1_000_000 {
        assert!(seen.insert(generate_refresh_token()));
    }
    assert_eq!(seen.len(), 1_000_000);
}

#[test]
fn an_empty_secret_and_unusual_names_round_trip() {
    let issuer = TokenIssuer::new(b"", 0);
    for name in ["", "a\"b\\c", "名前 with spaces\n", "\u{0}\u{1f}\u{7f}"] {
        let token = create_jwt_at(i32::MIN, name, 1, &issuer, 0).unwrap();
        assert_eq!(verify_access_token_at(&token, &issuer, 0), Ok(claims(i32::MIN, name, 1)));
    }
    let wide = create_jwt_at(i32::MAX, "z", u64::MAX, &issuer, i64::MIN + 1).unwrap();
    assert_eq!(
        verify_access_token_at(&wide, &issuer, 0),
        Ok(claims(i32::MAX, "z", 9_223_372_036_854_775_808))
    );
    assert_eq!(
        create_jwt_at(i32::MAX, "z", u64::MAX, &issuer, i64::MIN),
        Ok(create_jwt_at(i32::MAX, "z", 1, &issuer, i64::MAX - 1).unwrap())
    );
    let far = create_jwt_at(i32::MAX, "z", u64::MAX, &issuer, 0).unwrap();
    assert_eq!(
        verify_access_token_at(&far, &issuer, i64::MAX),
        Ok(claims(i32::MAX, "z", u64::MAX as usize))
    );
}

#[test]
fn the_clock_reads_a_second_after_the_epoch() {
    let issuer = TokenIssuer::new(SECRET, 5);
    // A lifetime of one second gives a token at every reading of the clock.
    let token = create_jwt(1, "alice", 1, &issuer).unwrap();
    let exp = verify_access_token(&token, &issuer).unwrap().exp;
    assert!(exp >= 1 && (exp as u64) <= 0x8000_0000_0000);
    // A token whose expiry no reading can reach is never expired.
    let lasting = create_jwt_at(1, "alice", 1, &issuer, 0x8000_0000_0005).unwrap();
    assert_eq!(verify_access_token(&lasting, &issuer).unwrap().sub, 1);
}
