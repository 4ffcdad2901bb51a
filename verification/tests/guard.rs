use rst04_jwt::auth::codec::{sign, TokenFault};
use rst04_jwt::auth::jwt::bearer_token;
use rst04_jwt::text::space;
use rst04_jwt::auth::{Claims, JwtAuth, Timestamp};
use rst04_jwt::errors::{AppError, ErrorDetails};
use rst04_jwt::AppState;

fn state() -> AppState {
    AppState::new("access-secret".to_string(), "refresh-secret".to_string())
}

fn token(secret: &str, iat: i64, exp: i64) -> String {
    sign(&Claims { username: "alice".to_string(), iat, exp }, secret).unwrap()
}

fn unauthorized(result: Result<JwtAuth, AppError>) -> (String, Option<ErrorDetails>) {
    match result {
        Err(AppError::Unauthorized(body)) => {
            assert_eq!(body.code, 401);
            (body.message, body.details)
        }
        other => panic!("expected Unauthorized, got {:?}", other),
    }
}

#[test]
fn bearer_token_reads_the_second_of_two_segments() {
    assert_eq!(bearer_token("Bearer abc.def.ghi"), Some("abc.def.ghi".to_string()));
    assert_eq!(bearer_token("  Bearer \t abc  "), Some("abc".to_string()));
    assert_eq!(bearer_token("x y"), Some("y".to_string()));
    assert_eq!(bearer_token("Bearer\u{3000}t\u{e9}st"), Some("t\u{e9}st".to_string()));
}

#[test]
fn bearer_token_refuses_other_shapes() {
    assert_eq!(bearer_token(""), None);
    assert_eq!(bearer_token("Bearer"), None);
    assert_eq!(bearer_token("Bearer a b"), None);
    assert_eq!(bearer_token("   "), None);
    assert_eq!(bearer_token("Bearer "), None);
}

#[test]
fn space_is_unicode_white_space() {
    let mut code: u32 = 0;
    while code <= 0x3100 {
        if let Some(c) = char::from_u32(code) {
            assert_eq!(space(c), c.is_whitespace(), "U+{:04X}", code);
        }
        code += 1;
    }
    assert!(!space('\u{feff}'));
    assert!(!space('\u{10ffff}'));
}

#[test]
fn guard_accepts_a_live_access_token() {
    let now = Timestamp::now();
    let header = format!("Bearer {}", token("access-secret", now.seconds(), now.seconds() + 60));
    assert_eq!(JwtAuth::from_header(Some(&header), Some(&state()), now), Ok(JwtAuth));
    assert_eq!(JwtAuth::from_request(Some(&header), Some(&state())), Ok(JwtAuth));
}

#[test]
fn guard_rejects_a_token_signed_with_the_refresh_secret() {
    let now = Timestamp::now();
    let header = format!("Bearer {}", token("refresh-secret", now.seconds(), now.seconds() + 60));
    let (message, details) = unauthorized(JwtAuth::from_header(Some(&header), Some(&state()), now));
    assert_eq!(message, "Access token validation failed.");
    assert_eq!(details, Some(ErrorDetails::Text("InvalidSignature".to_string())));
}

#[test]
fn guard_rejects_a_token_at_the_second_of_its_expiry() {
    let now = Timestamp::now();
    let header = format!("Bearer {}", token("access-secret", now.seconds() - 60, now.seconds()));
    let (message, details) = unauthorized(JwtAuth::from_header(Some(&header), Some(&state()), now));
    assert_eq!(
        message,
        "Sorry, the access token expired token. Please obtain a new access token using the refresh token."
    );
    assert_eq!(details, None);
}

#[test]
fn guard_accepts_a_token_one_second_before_its_expiry() {
    let now = Timestamp::now();
    let header = format!("Bearer {}", token("access-secret", now.seconds() - 59, now.seconds() + 1));
    assert_eq!(JwtAuth::from_header(Some(&header), Some(&state()), now), Ok(JwtAuth));
}

#[test]
fn guard_rejects_a_token_whose_signature_has_expired() {
    let now = Timestamp::now();
    let header =
        format!("Bearer {}", token("access-secret", now.seconds() - 1000, now.seconds() - 900));
    let (message, details) = unauthorized(JwtAuth::from_header(Some(&header), Some(&state()), now));
    assert_eq!(
        message,
        "Access token signature has expired. Please regenerate a new signature for the access token."
    );
    assert_eq!(details, None);
}

#[test]
fn guard_rejects_a_missing_or_malformed_header() {
    let now = Timestamp::now();
    let good = token("access-secret", now.seconds(), now.seconds() + 60);
    for header in [None, Some(""), Some("Bearer"), Some(good.as_str())] {
        let (message, details) = unauthorized(JwtAuth::from_header(header, Some(&state()), now));
        assert_eq!(message, "Unauthorized: missing or invalid authorization token.");
        assert_eq!(details, None);
    }
    let three = format!("Bearer {} more", good);
    let (message, _) = unauthorized(JwtAuth::from_header(Some(&three), Some(&state()), now));
    assert_eq!(message, "Unauthorized: missing or invalid authorization token.");
}

#[test]
fn guard_rejects_what_is_no_token() {
    let now = Timestamp::now();
    let (message, details) =
        unauthorized(JwtAuth::from_header(Some("Bearer nonsense"), Some(&state()), now));
    assert_eq!(message, "Access token validation failed.");
    assert_eq!(details, Some(ErrorDetails::Text("InvalidToken".to_string())));
}

#[test]
fn judge_goes_by_the_verification_and_the_clock() {
    let now = Timestamp::new(1_000).unwrap();
    let live = Claims { username: "alice".to_string(), iat: 900, exp: 1_001 };
    assert_eq!(JwtAuth::judge(Ok(live), now), Ok(JwtAuth));
    let due = Claims { username: "alice".to_string(), iat: 900, exp: 1_000 };
    let (message, _) = unauthorized(JwtAuth::judge(Ok(due), now));
    assert_eq!(
        message,
        "Sorry, the access token expired token. Please obtain a new access token using the refresh token."
    );
    let (message, _) = unauthorized(JwtAuth::judge(Err(TokenFault::Expired), now));
    assert_eq!(
        message,
        "Access token signature has expired. Please regenerate a new signature for the access token."
    );
    let (message, details) =
        unauthorized(JwtAuth::judge(Err(TokenFault::Invalid("why".to_string())), now));
    assert_eq!(message, "Access token validation failed.");
    assert_eq!(details, Some(ErrorDetails::Text("why".to_string())));
}

#[test]
fn guard_reports_secrets_that_are_not_at_hand() {
    let now = Timestamp::now();
    let header = format!("Bearer {}", token("access-secret", now.seconds(), now.seconds() + 60));
    match JwtAuth::from_header(Some(&header), None, now) {
        Err(AppError::InternalServerError(body)) => {
            assert_eq!(body.code, 500);
            assert_eq!(body.message, "failed to get app_state.");
            assert_eq!(body.details, None);
        }
        other => panic!("expected an internal error, got {:?}", other),
    }
    let (message, _) = unauthorized(JwtAuth::from_header(None, None, now));
    assert_eq!(message, "Unauthorized: missing or invalid authorization token.");
}
