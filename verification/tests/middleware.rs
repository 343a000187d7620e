use backend_rust::errors::{ApiError, AuthError};
use backend_rust::middleware::{
    authentication_error, parse_bearer_token, permission_decision, strip_prefix, AuthBot,
    VerifiedService,
};
use uuid::Uuid;

fn auth_message(e: ApiError) -> String {
    match e {
        ApiError::AuthenticationError(m) => m,
        _ => panic!("expected an authentication error"),
    }
}

#[test]
fn service_key_is_checked() {
    assert!(VerifiedService::check(Some("secret"), "secret").is_ok());
    assert_eq!(
        auth_message(VerifiedService::check(None, "secret").err().unwrap()),
        "Missing auth header"
    );
    assert_eq!(
        auth_message(VerifiedService::check(Some("wrong"), "secret").err().unwrap()),
        "Invalid auth header"
    );
}

#[test]
fn bearer_tokens() {
    let id = Uuid::new_v4();
    let header = format!("Bearer {}", id);
    assert_eq!(parse_bearer_token(Some(&header)).ok(), Some(id.as_u128()));
    assert_eq!(
        auth_message(parse_bearer_token(None).err().unwrap()),
        "Missing auth header"
    );
    let no_scheme = id.to_string();
    assert_eq!(
        auth_message(parse_bearer_token(Some(&no_scheme)).err().unwrap()),
        "Invalid auth header"
    );
    assert_eq!(
        auth_message(parse_bearer_token(Some("Bearer not-a-uuid")).err().unwrap()),
        "Invalid auth header"
    );
    assert_eq!(
        auth_message(parse_bearer_token(Some("bearer x")).err().unwrap()),
        "Invalid auth header"
    );
}

#[test]
fn prefixes() {
    assert_eq!(strip_prefix("Bearer abc", "Bearer "), Some("abc"));
    assert_eq!(strip_prefix("Bear", "Bearer "), None);
    assert_eq!(strip_prefix("abc", ""), Some("abc"));
}

#[test]
fn bot_ids() {
    assert_eq!(AuthBot::parse_bot_id(Some("42")).ok(), Some(42));
    assert_eq!(
        auth_message(AuthBot::parse_bot_id(Some("abc")).err().unwrap()),
        "Missing bot id"
    );
    assert_eq!(
        auth_message(AuthBot::parse_bot_id(None).err().unwrap()),
        "Missing bot id"
    );
    assert_eq!(AuthBot::from_lookup(42, true).ok().map(|b| b.bot_id), Some(42));
    assert_eq!(
        auth_message(AuthBot::from_lookup(42, false).err().unwrap()),
        "Invalid bot id"
    );
}

#[test]
fn permissions() {
    assert!(permission_decision(Ok(true)).is_ok());
    match permission_decision(Ok(false)) {
        Err(ApiError::AuthorizationError(m)) => assert_eq!(m, "Missing permission"),
        _ => panic!("expected a refusal"),
    }
    assert_eq!(
        auth_message(permission_decision(Err(AuthError::TokenRevoked)).err().unwrap()),
        "token revoked"
    );
    assert_eq!(
        auth_message(authentication_error(AuthError::InvalidToken)),
        "invalid token"
    );
}
