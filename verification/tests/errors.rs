use backend_rust::errors::{
    classify_database_error, error_response, join_field_messages, map_auth_error_code, ApiError,
    AuthError, AutosalesPlatformError, ErrorCode, FieldValidationErrors, RepositoryError,
    SqlxFailure, TotpEncryptorError,
};

fn message_of(e: &ApiError) -> (&'static str, String) {
    match e {
        ApiError::ValidationError(_) => ("validation", String::new()),
        ApiError::AuthenticationError(m) => ("authentication", m.clone()),
        ApiError::AuthorizationError(m) => ("authorization", m.clone()),
        ApiError::NotFound(m) => ("not_found", m.clone()),
        ApiError::BadRequest(m) => ("bad_request", m.clone()),
        ApiError::Conflict(m) => ("conflict", m.clone()),
        ApiError::InternalServerError(m) => ("internal", m.clone()),
    }
}

#[test]
fn repository_errors_become_api_errors() {
    let cases = vec![
        (RepositoryError::NotFound("x".into()), ("not_found", "Not found")),
        (
            RepositoryError::ForeignKeyViolation("x".into()),
            ("bad_request", "Foreign key violation"),
        ),
        (
            RepositoryError::UniqueViolation("x".into()),
            ("bad_request", "Unique violation"),
        ),
        (
            RepositoryError::Validation("x".into()),
            ("bad_request", "Validation error"),
        ),
        (
            RepositoryError::OptimisticLockViolation,
            ("internal", "Optimistic lock violation"),
        ),
        (
            RepositoryError::QueryFailed("db down".into()),
            ("internal", "db down"),
        ),
    ];
    for (err, (kind, msg)) in cases {
        let api = ApiError::from_repository_error(err);
        let (k, m) = message_of(&api);
        assert_eq!(k, kind);
        assert_eq!(m, msg);
    }
}

#[test]
fn auth_errors_become_api_errors() {
    let cases = vec![
        (AuthError::MissingToken, ("authentication", "Missing token")),
        (AuthError::InvalidToken, ("authentication", "Invalid token")),
        (AuthError::TokenRevoked, ("authentication", "Token revoked")),
        (
            AuthError::InvalidCredentials,
            ("authentication", "Invalid credentials"),
        ),
        (AuthError::Invalid2FACode, ("authentication", "Invalid 2FA code")),
        (
            AuthError::InternalServerError("boom".into()),
            ("internal", "boom"),
        ),
    ];
    for (err, (kind, msg)) in cases {
        let (k, m) = message_of(&ApiError::from_auth_error(err));
        assert_eq!(k, kind);
        assert_eq!(m, msg);
    }
}

#[test]
fn repository_errors_become_auth_errors() {
    assert!(matches!(
        AuthError::from_repository_error(RepositoryError::NotFound("user".into())),
        AuthError::InvalidCredentials
    ));
    match AuthError::from_repository_error(RepositoryError::UniqueViolation("login".into())) {
        AuthError::InternalServerError(m) => assert_eq!(m, "unique violation: login"),
        _ => panic!("expected an internal error"),
    }
    match AuthError::from_repository_error(RepositoryError::OptimisticLockViolation) {
        AuthError::InternalServerError(m) => assert_eq!(m, "optimistic lock violation"),
        _ => panic!("expected an internal error"),
    }
}

#[test]
fn error_texts() {
    assert_eq!(RepositoryError::QueryFailed("q".into()).message(), "query failed: q");
    assert_eq!(RepositoryError::Validation("v".into()).message(), "validation error: v");
    assert_eq!(AuthError::Invalid2FACode.message(), "invalid 2FA code");
    assert_eq!(TotpEncryptorError::MissingSecret.message(), "missing secret");
    assert_eq!(
        TotpEncryptorError::DecodeError("bad".into()).message(),
        "Decode error: bad"
    );
    let (k, m) = message_of(&ApiError::from_totp_error(TotpEncryptorError::DecodeError(
        "bad".into(),
    )));
    assert_eq!((k, m.as_str()), ("internal", "Decode error: bad"));
}

#[test]
fn autosales_errors_become_api_errors() {
    let (k, m) = message_of(&ApiError::from_autosales_error(
        AutosalesPlatformError::NoSuitableRequisites,
    ));
    assert_eq!((k, m.as_str()), ("conflict", "No suitable requisites"));
    let (k, m) = message_of(&ApiError::from_autosales_error(
        AutosalesPlatformError::IncreaseAmountBy10,
    ));
    assert_eq!((k, m.as_str()), ("conflict", "Increase amount by 10"));
    let (k, m) = message_of(&ApiError::from_autosales_error(
        AutosalesPlatformError::Unknown("weird".into()),
    ));
    assert_eq!((k, m.as_str()), ("internal", "weird"));
}

#[test]
fn auth_error_codes_by_message() {
    assert_eq!(map_auth_error_code("Missing auth header"), ErrorCode::MissingAuthHeader);
    assert_eq!(map_auth_error_code("Missing token"), ErrorCode::MissingAuthHeader);
    assert_eq!(map_auth_error_code("Invalid auth header"), ErrorCode::InvalidAuthHeader);
    assert_eq!(map_auth_error_code("Invalid credentials"), ErrorCode::InvalidCredentials);
    assert_eq!(map_auth_error_code("Invalid 2FA code"), ErrorCode::InvalidCredentials);
    assert_eq!(map_auth_error_code("Token revoked"), ErrorCode::Unauthorized);
}

#[test]
fn responses_by_error_kind() {
    let r = error_response(&ApiError::AuthenticationError("Invalid token".into()));
    assert_eq!((r.status, r.code, r.message.as_str()), (401, ErrorCode::Unauthorized, "Invalid token"));
    assert!(r.fields.is_none());

    let r = error_response(&ApiError::AuthorizationError("Missing permission".into()));
    assert_eq!((r.status, r.code), (403, ErrorCode::Forbidden));

    let r = error_response(&ApiError::NotFound("Not found".into()));
    assert_eq!((r.status, r.code, r.message.as_str()), (404, ErrorCode::NotFound, "Not found"));

    let r = error_response(&ApiError::BadRequest("bad".into()));
    assert_eq!((r.status, r.code), (400, ErrorCode::BadRequest));

    let r = error_response(&ApiError::Conflict("taken".into()));
    assert_eq!((r.status, r.code, r.message.as_str()), (409, ErrorCode::Conflict, "taken"));

    let r = error_response(&ApiError::InternalServerError("secret detail".into()));
    assert_eq!(
        (r.status, r.code, r.message.as_str()),
        (500, ErrorCode::Internal, "Internal server error")
    );
}

#[test]
fn validation_response_lists_field_messages() {
    let err = ApiError::ValidationError(vec![
        FieldValidationErrors {
            field: "login".into(),
            messages: vec![Some("too short".into()), None],
        },
        FieldValidationErrors {
            field: "email".into(),
            messages: vec![None],
        },
    ]);
    let r = error_response(&err);
    assert_eq!(r.status, 400);
    assert_eq!(r.code, ErrorCode::ValidationFailed);
    assert_eq!(r.message, "Validation error");
    assert_eq!(
        r.fields,
        Some(vec![
            ("login".to_string(), "too short, Invalid value".to_string()),
            ("email".to_string(), "Invalid value".to_string()),
        ])
    );
}

#[test]
fn joined_messages_skip_separator_after_empty_text() {
    assert_eq!(join_field_messages(&vec![]), "");
    assert_eq!(
        join_field_messages(&vec![Some(String::new()), Some("b".into())]),
        "b"
    );
    assert_eq!(
        join_field_messages(&vec![Some("a".into()), Some("b".into()), None]),
        "a, b, Invalid value"
    );
}

#[test]
fn database_errors_by_code() {
    assert!(matches!(
        classify_database_error("orders", "23503", "fk"),
        RepositoryError::ForeignKeyViolation(m) if m == "orders: fk"
    ));
    assert!(matches!(
        classify_database_error("orders", "23505", "dup"),
        RepositoryError::UniqueViolation(m) if m == "orders: dup"
    ));
    assert!(matches!(
        classify_database_error("orders", "22001", "long"),
        RepositoryError::Validation(m) if m == "orders: value too long"
    ));
    assert!(matches!(
        classify_database_error("orders", "40001", "serialization"),
        RepositoryError::QueryFailed(m) if m == "orders: serialization"
    ));
}

#[test]
fn sqlx_failures_become_repository_errors() {
    let text = sqlx::Error::RowNotFound.to_string();
    match RepositoryError::from_sqlx_error("ctx", SqlxFailure::RowNotFound { text: text.clone() }) {
        RepositoryError::NotFound(m) => assert_eq!(m, text),
        _ => panic!("expected not found"),
    }
    let db = |code: Option<&str>| SqlxFailure::Database {
        code: code.map(|c| c.to_string()),
        message: "duplicate key".to_string(),
        text: "error returned from database: duplicate key".to_string(),
    };
    assert!(matches!(
        RepositoryError::from_sqlx_error("bots", db(Some("23505"))),
        RepositoryError::UniqueViolation(m) if m == "bots: duplicate key"
    ));
    assert!(matches!(
        RepositoryError::from_sqlx_error("bots", db(Some("23503"))),
        RepositoryError::ForeignKeyViolation(m) if m == "bots: duplicate key"
    ));
    assert!(matches!(
        RepositoryError::from_sqlx_error("bots", db(Some("22001"))),
        RepositoryError::Validation(m) if m == "bots: value too long"
    ));
    assert!(matches!(
        RepositoryError::from_sqlx_error("bots", db(Some("42P01"))),
        RepositoryError::QueryFailed(m) if m == "bots: duplicate key"
    ));
    assert!(matches!(
        RepositoryError::from_sqlx_error("bots", db(None)),
        RepositoryError::QueryFailed(m) if m == "error returned from database: duplicate key"
    ));
    let other = sqlx::Error::PoolTimedOut.to_string();
    assert!(matches!(
        RepositoryError::from_sqlx_error("bots", SqlxFailure::Other { text: other.clone() }),
        RepositoryError::QueryFailed(m) if m == other
    ));
}
