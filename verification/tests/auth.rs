use jsonwebtoken::{encode, get_current_timestamp, Algorithm, EncodingKey, Header};
use serde_json::Value;
use task_manager_api::middleware::{bearer_token, strip_prefix, AuthenticatedUser};
use task_manager_api::errors::ApiError;

const SECRET: &[u8] = b"a secret for the tests";

fn claims(user_id: Value, expires: u64) -> Value {
    let mut claims = serde_json::Map::new();
    claims.insert("user_id".to_string(), user_id);
    claims.insert("exp".to_string(), Value::from(expires));
    Value::Object(claims)
}

fn sign(claims: &Value, algorithm: Algorithm, secret: &[u8]) -> String {
    encode(&Header::new(algorithm), claims, &EncodingKey::from_secret(secret)).unwrap()
}

fn token_for(user_id: i64) -> String {
    sign(&claims(Value::from(user_id), get_current_timestamp() + 3600), Algorithm::HS256, SECRET)
}

fn header_with(token: &str) -> Vec<u8> {
    format!("Bearer {}", token).into_bytes()
}

fn verify_header(header: &[u8]) -> Result<AuthenticatedUser, ApiError> {
    AuthenticatedUser::from_authorization_header(Some(header), SECRET)
}

#[test]
fn prefix_is_stripped() {
    assert_eq!(strip_prefix("Bearer abc", "Bearer "), Some("abc"));
    assert_eq!(strip_prefix("Bearer ", "Bearer "), Some(""));
    assert_eq!(strip_prefix("abc", ""), Some("abc"));
    assert_eq!(strip_prefix("", ""), Some(""));
    assert_eq!(strip_prefix("héllo wörld", "héllo "), Some("wörld"));
}

#[test]
fn text_without_the_prefix_is_refused() {
    assert_eq!(strip_prefix("Bearer", "Bearer "), None);
    assert_eq!(strip_prefix("", "Bearer "), None);
    assert_eq!(strip_prefix("bearer abc", "Bearer "), None);
    assert_eq!(strip_prefix(" Bearer abc", "Bearer "), None);
    assert_eq!(strip_prefix("Bearex abc", "Bearer "), None);
}

#[test]
fn token_follows_the_scheme() {
    assert_eq!(bearer_token(b"Bearer abc.def.ghi"), Some("abc.def.ghi"));
    assert_eq!(bearer_token(b"Bearer "), Some(""));
    assert_eq!(bearer_token(b"Bearer  two spaces"), Some(" two spaces"));
    assert_eq!(bearer_token("Bearer t\u{f6}ken".as_bytes()), Some("t\u{f6}ken"));
}

#[test]
fn header_without_the_scheme_has_no_token() {
    assert_eq!(bearer_token(b""), None);
    assert_eq!(bearer_token(b"Bearer"), None);
    assert_eq!(bearer_token(b"bearer abc"), None);
    assert_eq!(bearer_token(b"Basic dXNlcjpwYXNz"), None);
    assert_eq!(bearer_token(b"abc"), None);
}

#[test]
fn header_that_is_not_utf8_has_no_token() {
    assert_eq!(bearer_token(b"Bearer \xff\xfe"), None);
    assert_eq!(bearer_token(b"\xc3"), None);
    assert_eq!(bearer_token(b"Bearer abc\x80"), None);
}

#[test]
fn claim_within_range_names_the_user() {
    assert_eq!(AuthenticatedUser::from_claim(Some(7)), Ok(AuthenticatedUser { user_id: 7 }));
    assert_eq!(AuthenticatedUser::from_claim(Some(0)), Ok(AuthenticatedUser { user_id: 0 }));
    assert_eq!(AuthenticatedUser::from_claim(Some(-3)), Ok(AuthenticatedUser { user_id: -3 }));
    assert_eq!(
        AuthenticatedUser::from_claim(Some(2147483647)),
        Ok(AuthenticatedUser { user_id: i32::MAX })
    );
    assert_eq!(
        AuthenticatedUser::from_claim(Some(-2147483648)),
        Ok(AuthenticatedUser { user_id: i32::MIN })
    );
}

#[test]
fn claim_out_of_range_or_missing_is_unauthorized() {
    assert_eq!(AuthenticatedUser::from_claim(None), Err(ApiError::Unauthorized));
    assert_eq!(AuthenticatedUser::from_claim(Some(2147483648)), Err(ApiError::Unauthorized));
    assert_eq!(AuthenticatedUser::from_claim(Some(-2147483649)), Err(ApiError::Unauthorized));
    assert_eq!(AuthenticatedUser::from_claim(Some(i64::MAX)), Err(ApiError::Unauthorized));
    assert_eq!(AuthenticatedUser::from_claim(Some(i64::MIN)), Err(ApiError::Unauthorized));
}

#[test]
fn valid_token_admits_its_user() {
    assert_eq!(verify_header(&header_with(&token_for(42))), Ok(AuthenticatedUser { user_id: 42 }));
    assert_eq!(verify_header(&header_with(&token_for(1))), Ok(AuthenticatedUser { user_id: 1 }));
    assert_eq!(
        verify_header(&header_with(&token_for(2147483647))),
        Ok(AuthenticatedUser { user_id: i32::MAX })
    );
}

#[test]
fn missing_header_is_unauthorized() {
    assert_eq!(
        AuthenticatedUser::from_authorization_header(None, SECRET),
        Err(ApiError::Unauthorized)
    );
}

#[test]
fn malformed_header_is_unauthorized() {
    let token = token_for(42);
    assert_eq!(verify_header(token.as_bytes()), Err(ApiError::Unauthorized));
    assert_eq!(verify_header(format!("bearer {}", token).as_bytes()), Err(ApiError::Unauthorized));
    assert_eq!(verify_header(format!("Basic {}", token).as_bytes()), Err(ApiError::Unauthorized));
    assert_eq!(verify_header(format!("Bearer{}", token).as_bytes()), Err(ApiError::Unauthorized));
    assert_eq!(verify_header(b"Bearer "), Err(ApiError::Unauthorized));
    assert_eq!(verify_header(b"Bearer not-a-token"), Err(ApiError::Unauthorized));
    assert_eq!(verify_header(b"Bearer \xff\xff"), Err(ApiError::Unauthorized));
}

#[test]
fn tampered_token_is_unauthorized() {
    let token = token_for(42);
    let parts: Vec<&str> = token.split('.').collect();
    assert_eq!(parts.len(), 3);
    let other = token_for(43);
    let other_parts: Vec<&str> = other.split('.').collect();
    let forged = format!("{}.{}.{}", parts[0], other_parts[1], parts[2]);
    assert_eq!(verify_header(&header_with(&forged)), Err(ApiError::Unauthorized));
    assert_eq!(verify_header(&header_with(&other)), Ok(AuthenticatedUser { user_id: 43 }));
}

#[test]
fn token_signed_with_another_secret_is_unauthorized() {
    let token = sign(
        &claims(Value::from(42), get_current_timestamp() + 3600),
        Algorithm::HS256,
        b"another secret",
    );
    assert_eq!(verify_header(&header_with(&token)), Err(ApiError::Unauthorized));
    assert_eq!(
        AuthenticatedUser::from_authorization_header(
            Some(&header_with(&token)),
            b"another secret"
        ),
        Ok(AuthenticatedUser { user_id: 42 })
    );
}

#[test]
fn token_of_another_algorithm_is_unauthorized() {
    let token =
        sign(&claims(Value::from(42), get_current_timestamp() + 3600), Algorithm::HS512, SECRET);
    assert_eq!(verify_header(&header_with(&token)), Err(ApiError::Unauthorized));
}

#[test]
fn expired_token_is_unauthorized() {
    let token = sign(&claims(Value::from(42), 1_000_000), Algorithm::HS256, SECRET);
    assert_eq!(verify_header(&header_with(&token)), Err(ApiError::Unauthorized));
}

#[test]
fn token_without_a_usable_user_id_is_unauthorized() {
    let expires = get_current_timestamp() + 3600;
    let mut without = serde_json::Map::new();
    without.insert("exp".to_string(), Value::from(expires));
    let cases = vec![
        Value::Object(without),
        claims(Value::from("42"), expires),
        claims(Value::from(42.5), expires),
        claims(Value::Null, expires),
        claims(Value::from(2147483648u64), expires),
        claims(Value::from(-2147483649i64), expires),
        claims(Value::from(u64::MAX), expires),
    ];
    for case in cases {
        let token = sign(&case, Algorithm::HS256, SECRET);
        assert_eq!(verify_header(&header_with(&token)), Err(ApiError::Unauthorized), "{}", case);
    }
}

#[test]
fn token_of_fewer_than_three_parts_is_unauthorized() {
    let token = token_for(42);
    let parts: Vec<&str> = token.split('.').collect();
    let cases = vec![
        String::new(),
        "abc".to_string(),
        "abc.def".to_string(),
        parts[0].to_string(),
        format!("{}.{}", parts[0], parts[1]),
        format!("{}{}.{}", parts[0], parts[1], parts[2]),
        format!("{}{}{}", parts[0], parts[1], parts[2]),
    ];
    for case in cases {
        assert_eq!(verify_header(&header_with(&case)), Err(ApiError::Unauthorized), "{}", case);
    }
    assert_eq!(verify_header(&header_with(&token)), Ok(AuthenticatedUser { user_id: 42 }));
}

#[test]
fn the_user_is_the_one_that_the_claim_names() {
    for user_id in [0i64, 1, 7, 1000, -12, 2147483647, -2147483648] {
        let mut members = serde_json::Map::new();
        members.insert("sub".to_string(), Value::from("someone"));
        members.insert("user_id".to_string(), Value::from(user_id));
        members.insert("exp".to_string(), Value::from(get_current_timestamp() + 3600));
        members.insert("other".to_string(), Value::from(99));
        let token = sign(&Value::Object(members), Algorithm::HS256, SECRET);
        assert_eq!(
            verify_header(&header_with(&token)),
            Ok(AuthenticatedUser { user_id: user_id as i32 })
        );
    }
}
