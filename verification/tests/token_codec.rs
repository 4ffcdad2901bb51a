use rst04_jwt::auth::codec::{sign, verify, TokenFault};
use rst04_jwt::auth::{Claims, Timestamp};

fn claims(username: &str, iat: i64, exp: i64) -> Claims {
    Claims { username: username.to_string(), iat, exp }
}

#[test]
fn sign_then_verify_gives_the_claims_back() {
    let now = Timestamp::now().seconds();
    let token = sign(&claims("alice", now, now + 60), "access-secret").unwrap();
    assert_eq!(verify(&token, "access-secret"), Ok(claims("alice", now, now + 60)));
}

#[test]
fn sign_writes_a_compact_hs256_token() {
    let token = sign(&claims("alice", 1_700_000_000, 1_700_000_060), "secret").unwrap();
    let parts: Vec<&str> = token.split('.').collect();
    assert_eq!(parts.len(), 3);
    assert_eq!(parts[0], "eyJ0eXAiOiJKV1QiLCJhbGciOiJIUzI1NiJ9");
    assert_eq!(
        parts[1],
        "eyJ1c2VybmFtZSI6ImFsaWNlIiwiaWF0IjoxNzAwMDAwMDAwLCJleHAiOjE3MDAwMDAwNjB9"
    );
}

#[test]
fn sign_is_deterministic() {
    let first = sign(&claims("alice", 10, 20), "secret").unwrap();
    let second = sign(&claims("alice", 10, 20), "secret").unwrap();
    assert_eq!(first, second);
    let other = sign(&claims("alice", 11, 20), "secret").unwrap();
    assert_ne!(first, other);
}

#[test]
fn sign_keeps_names_that_need_escaping() {
    let now = Timestamp::now().seconds();
    let name = "a\"b\\c\u{1}\u{e9}";
    let token = sign(&claims(name, now, now + 60), "secret").unwrap();
    assert_eq!(verify(&token, "secret"), Ok(claims(name, now, now + 60)));
}

#[test]
fn verify_refuses_a_token_of_another_secret() {
    let now = Timestamp::now().seconds();
    let token = sign(&claims("alice", now, now + 60), "refresh-secret").unwrap();
    assert_eq!(
        verify(&token, "access-secret"),
        Err(TokenFault::Invalid("InvalidSignature".to_string()))
    );
}

#[test]
fn verify_refuses_what_is_no_token() {
    assert_eq!(verify("not-a-token", "secret"), Err(TokenFault::Invalid("InvalidToken".to_string())));
    assert!(matches!(verify("a.b.c", "secret"), Err(TokenFault::Invalid(_))));
    assert!(matches!(verify("", "secret"), Err(TokenFault::Invalid(_))));
}

#[test]
fn verify_reports_a_token_that_expired_long_ago() {
    let now = Timestamp::now().seconds();
    let token = sign(&claims("alice", now - 1000, now - 900), "secret").unwrap();
    assert_eq!(verify(&token, "secret"), Err(TokenFault::Expired));
}

#[test]
fn verify_gives_the_claims_within_the_leeway() {
    let now = Timestamp::now().seconds();
    let token = sign(&claims("alice", now - 100, now - 10), "secret").unwrap();
    assert_eq!(verify(&token, "secret"), Ok(claims("alice", now - 100, now - 10)));
}

#[test]
fn verify_refuses_a_negative_expiry() {
    let token = sign(&claims("alice", -10, -5), "secret").unwrap();
    assert_eq!(
        verify(&token, "secret"),
        Err(TokenFault::Invalid("Missing required claim: exp".to_string()))
    );
}

#[test]
fn verify_refuses_a_payload_that_lacks_a_claim() {
    let now = Timestamp::now().seconds();
    let mut payload = serde_json::Map::new();
    payload.insert("username".to_string(), serde_json::Value::from("alice"));
    payload.insert("exp".to_string(), serde_json::Value::from(now + 60));
    let token = jsonwebtoken::encode(
        &jsonwebtoken::Header::default(),
        &payload,
        &jsonwebtoken::EncodingKey::from_secret("secret".as_bytes()),
    )
    .unwrap();
    assert_eq!(
        verify(&token, "secret"),
        Err(TokenFault::Invalid(
            "the payload lacks one of the claims username, iat and exp".to_string()
        ))
    );
}

#[test]
fn verify_refuses_a_claim_of_the_wrong_type() {
    let now = Timestamp::now().seconds();
    let mut payload = serde_json::Map::new();
    payload.insert("username".to_string(), serde_json::Value::from(7));
    payload.insert("iat".to_string(), serde_json::Value::from(now));
    payload.insert("exp".to_string(), serde_json::Value::from(now + 60));
    let token = jsonwebtoken::encode(
        &jsonwebtoken::Header::default(),
        &payload,
        &jsonwebtoken::EncodingKey::from_secret("secret".as_bytes()),
    )
    .unwrap();
    assert!(matches!(verify(&token, "secret"), Err(TokenFault::Invalid(_))));
}

#[test]
fn verify_refuses_a_token_with_an_audience() {
    let now = Timestamp::now().seconds();
    let mut payload = serde_json::Map::new();
    payload.insert("username".to_string(), serde_json::Value::from("alice"));
    payload.insert("iat".to_string(), serde_json::Value::from(now));
    payload.insert("exp".to_string(), serde_json::Value::from(now + 60));
    payload.insert("aud".to_string(), serde_json::Value::from("someone"));
    let token = jsonwebtoken::encode(
        &jsonwebtoken::Header::default(),
        &payload,
        &jsonwebtoken::EncodingKey::from_secret("secret".as_bytes()),
    )
    .unwrap();
    assert_eq!(
        verify(&token, "secret"),
        Err(TokenFault::Invalid("InvalidAudience".to_string()))
    );
}

#[test]
fn timestamp_holds_what_the_clock_can_show() {
    assert_eq!(Timestamp::new(0).map(|t| t.seconds()), Some(0));
    assert_eq!(Timestamp::new(1_700_000_000).map(|t| t.seconds()), Some(1_700_000_000));
    assert_eq!(Timestamp::new(185_542_587_187_199).map(|t| t.seconds()), Some(185_542_587_187_199));
    assert_eq!(Timestamp::new(185_542_587_187_200), None);
    assert_eq!(Timestamp::new(-1), None);
    let now = Timestamp::now().seconds();
    assert!(now > 1_600_000_000);
}

#[test]
fn sign_and_verify_take_any_secret_and_any_live_expiry() {
    for secret in ["", "k", "a secret with spaces", "\u{e9}\u{1f511}"] {
        let token = sign(&claims("alice", i64::MIN, i64::MAX), secret).unwrap();
        assert_eq!(verify(&token, secret), Ok(claims("alice", i64::MIN, i64::MAX)));
    }
    let token = sign(&claims("", 0, i64::MAX), "secret").unwrap();
    assert_eq!(verify(&token, "secret"), Ok(claims("", 0, i64::MAX)));
}

#[test]
fn verify_reports_an_expiry_of_zero_as_expired() {
    let token = sign(&claims("alice", 0, 0), "secret").unwrap();
    assert_eq!(verify(&token, "secret"), Err(TokenFault::Expired));
}

#[test]
fn a_signed_token_is_not_empty_and_holds_no_white_space() {
    for name in ["alice", "", "a b\tc\n", "\u{3000}\u{e9}"] {
        let token = sign(&claims(name, 1, 2), "secret with spaces").unwrap();
        assert!(!token.is_empty());
        assert!(!token.chars().any(|c| c.is_whitespace()));
        assert_eq!(
            rst04_jwt::auth::jwt::bearer_token(&format!("Bearer {}", token)),
            Some(token)
        );
    }
}
