//! Error types of the backend and how one kind of error becomes another,
//! down to the status, code and message of the HTTP answer.
use vstd::prelude::*;
use vstd::string::*;

use crate::text::{str_eq, string_of};

verus! {

broadcast use vstd::string::group_string_axioms;

/// The validation failures of one field of a request body.
#[derive(Debug)]
pub struct FieldValidationErrors {
    pub field: String,
    /// One entry per failed rule; `None` where the rule gave no message.
    pub messages: Vec<Option<String>>,
}

/// Errors answered by the HTTP API.
#[derive(Debug)]
pub enum ApiError {
    ValidationError(Vec<FieldValidationErrors>),
    AuthenticationError(String),
    AuthorizationError(String),
    NotFound(String),
    BadRequest(String),
    Conflict(String),
    InternalServerError(String),
}

/// Errors of authentication.
#[derive(Debug)]
pub enum AuthError {
    MissingToken,
    InvalidToken,
    TokenRevoked,
    InvalidCredentials,
    Invalid2FACode,
    InternalServerError(String),
}

/// Errors of the data repositories.
#[derive(Debug)]
pub enum RepositoryError {
    NotFound(String),
    ForeignKeyViolation(String),
    UniqueViolation(String),
    Validation(String),
    OptimisticLockViolation,
    QueryFailed(String),
}

/// Errors of the two-factor secret encryptor.
#[derive(Debug)]
pub enum TotpEncryptorError {
    MissingSecret,
    DecodeError(String),
}

/// Errors of the Autosales payment platform.
#[derive(Debug)]
pub enum AutosalesPlatformError {
    NoSuitableRequisites,
    IncreaseAmountBy10,
    Unknown(String),
}

/// Machine-readable codes of error answers.
#[derive(Clone, Copy, Debug, PartialEq, Eq, Structural)]
pub enum ErrorCode {
    ValidationFailed,
    MissingAuthHeader,
    InvalidAuthHeader,
    InvalidCredentials,
    Unauthorized,
    Forbidden,
    NotFound,
    BadRequest,
    Internal,
    Conflict,
}

/// What an error answer is made of: HTTP status, code, message, and for a
/// validation failure the joined messages of each field.
#[derive(Debug)]
pub struct ErrorResponse {
    pub status: u16,
    pub code: ErrorCode,
    pub message: String,
    pub fields: Option<Vec<(String, String)>>,
}

/// The text `Display` writes for a repository error.
pub open spec fn repository_error_text(e: RepositoryError) -> Seq<char> {
    match e {
        RepositoryError::NotFound(s) => "not found: "@ + s@,
        RepositoryError::ForeignKeyViolation(s) => "foreign key violation: "@ + s@,
        RepositoryError::UniqueViolation(s) => "unique violation: "@ + s@,
        RepositoryError::Validation(s) => "validation error: "@ + s@,
        RepositoryError::OptimisticLockViolation => "optimistic lock violation"@,
        RepositoryError::QueryFailed(s) => "query failed: "@ + s@,
    }
}

/// The text `Display` writes for an authentication error.
pub open spec fn auth_error_text(e: AuthError) -> Seq<char> {
    match e {
        AuthError::MissingToken => "missing token"@,
        AuthError::InvalidToken => "invalid token"@,
        AuthError::TokenRevoked => "token revoked"@,
        AuthError::InvalidCredentials => "invalid credentials"@,
        AuthError::Invalid2FACode => "invalid 2FA code"@,
        AuthError::InternalServerError(s) => s@,
    }
}

/// The text `Display` writes for an encryptor error.
pub open spec fn totp_error_text(e: TotpEncryptorError) -> Seq<char> {
    match e {
        TotpEncryptorError::MissingSecret => "missing secret"@,
        TotpEncryptorError::DecodeError(s) => "Decode error: "@ + s@,
    }
}

/// `prefix` followed by `s`.
fn prefixed(prefix: &str, s: &String) -> (r: String)
    ensures
        r@ == prefix@ + s@,
{
    let mut r = string_of(prefix);
    r.append(s.as_str());
    r
}

impl RepositoryError {
    /// The text of this error, as its `Display` writes it.
    pub fn message(&self) -> (r: String)
        ensures
            r@ == repository_error_text(*self),
    {
        proof {
            reveal_strlit("not found: ");
            reveal_strlit("foreign key violation: ");
            reveal_strlit("unique violation: ");
            reveal_strlit("validation error: ");
            reveal_strlit("optimistic lock violation");
            reveal_strlit("query failed: ");
        }
        match self {
            RepositoryError::NotFound(s) => prefixed("not found: ", s),
            RepositoryError::ForeignKeyViolation(s) => prefixed("foreign key violation: ", s),
            RepositoryError::UniqueViolation(s) => prefixed("unique violation: ", s),
            RepositoryError::Validation(s) => prefixed("validation error: ", s),
            RepositoryError::OptimisticLockViolation => string_of("optimistic lock violation"),
            RepositoryError::QueryFailed(s) => prefixed("query failed: ", s),
        }
    }
}

impl AuthError {
    /// The text of this error, as its `Display` writes it.
    pub fn message(&self) -> (r: String)
        ensures
            r@ == auth_error_text(*self),
    {
        match self {
            AuthError::MissingToken => string_of("missing token"),
            AuthError::InvalidToken => string_of("invalid token"),
            AuthError::TokenRevoked => string_of("token revoked"),
            AuthError::InvalidCredentials => string_of("invalid credentials"),
            AuthError::Invalid2FACode => string_of("invalid 2FA code"),
            AuthError::InternalServerError(s) => s.clone(),
        }
    }

    /// The authentication error a repository error becomes: a missing record
    /// means the credentials were wrong, anything else is an internal error
    /// that carries the repository error's text.
    pub fn from_repository_error(err: RepositoryError) -> (r: AuthError)
        ensures
            err is NotFound ==> r is InvalidCredentials,
            !(err is NotFound) ==> (r matches AuthError::InternalServerError(m)
                && m@ == repository_error_text(err)),
    {
        match err {
            RepositoryError::NotFound(_) => AuthError::InvalidCredentials,
            _ => AuthError::InternalServerError(err.message()),
        }
    }
}

impl TotpEncryptorError {
    /// The text of this error, as its `Display` writes it.
    pub fn message(&self) -> (r: String)
        ensures
            r@ == totp_error_text(*self),
    {
        proof {
            reveal_strlit("Decode error: ");
        }
        match self {
            TotpEncryptorError::MissingSecret => string_of("missing secret"),
            TotpEncryptorError::DecodeError(s) => prefixed("Decode error: ", s),
        }
    }
}

impl ApiError {
    /// The API error a repository error becomes.
    pub fn from_repository_error(err: RepositoryError) -> (r: ApiError)
        ensures
            err is NotFound ==> (r matches ApiError::NotFound(m) && m@ == "Not found"@),
            err is ForeignKeyViolation ==> (r matches ApiError::BadRequest(m)
                && m@ == "Foreign key violation"@),
            err is UniqueViolation ==> (r matches ApiError::BadRequest(m) && m@
                == "Unique violation"@),
            err is Validation ==> (r matches ApiError::BadRequest(m) && m@ == "Validation error"@),
            err is OptimisticLockViolation ==> (r matches ApiError::InternalServerError(m) && m@
                == "Optimistic lock violation"@),
            err matches RepositoryError::QueryFailed(s) ==> (r matches ApiError::InternalServerError(
                m,
            ) && m@ == s@),
    {
        match err {
            RepositoryError::NotFound(_) => ApiError::NotFound(string_of("Not found")),
            RepositoryError::ForeignKeyViolation(_) => ApiError::BadRequest(
                string_of("Foreign key violation"),
            ),
            RepositoryError::UniqueViolation(_) => ApiError::BadRequest(
                string_of("Unique violation"),
            ),
            RepositoryError::Validation(_) => ApiError::BadRequest(string_of("Validation error")),
            RepositoryError::OptimisticLockViolation => ApiError::InternalServerError(
                string_of("Optimistic lock violation"),
            ),
            RepositoryError::QueryFailed(s) => ApiError::InternalServerError(s),
        }
    }

    /// The API error an authentication error becomes.
    pub fn from_auth_error(err: AuthError) -> (r: ApiError)
        ensures
            err is InvalidToken ==> (r matches ApiError::AuthenticationError(m) && m@
                == "Invalid token"@),
            err is TokenRevoked ==> (r matches ApiError::AuthenticationError(m) && m@
                == "Token revoked"@),
            err is InvalidCredentials ==> (r matches ApiError::AuthenticationError(m) && m@
                == "Invalid credentials"@),
            err is Invalid2FACode ==> (r matches ApiError::AuthenticationError(m) && m@
                == "Invalid 2FA code"@),
            err is MissingToken ==> (r matches ApiError::AuthenticationError(m) && m@
                == "Missing token"@),
            err matches AuthError::InternalServerError(s) ==> (r matches ApiError::InternalServerError(
                m,
            ) && m@ == s@),
    {
        match err {
            AuthError::InvalidToken => ApiError::AuthenticationError(string_of("Invalid token")),
            AuthError::TokenRevoked => ApiError::AuthenticationError(string_of("Token revoked")),
            AuthError::InvalidCredentials => ApiError::AuthenticationError(
                string_of("Invalid credentials"),
            ),
            AuthError::Invalid2FACode => ApiError::AuthenticationError(
                string_of("Invalid 2FA code"),
            ),
            AuthError::MissingToken => ApiError::AuthenticationError(string_of("Missing token")),
            AuthError::InternalServerError(msg) => ApiError::InternalServerError(msg),
        }
    }

    /// The API error an error of the Autosales platform becomes.
    pub fn from_autosales_error(err: AutosalesPlatformError) -> (r: ApiError)
        ensures
            err is NoSuitableRequisites ==> (r matches ApiError::Conflict(m) && m@
                == "No suitable requisites"@),
            err is IncreaseAmountBy10 ==> (r matches ApiError::Conflict(m) && m@
                == "Increase amount by 10"@),
            err matches AutosalesPlatformError::Unknown(s) ==> (r matches ApiError::InternalServerError(
                m,
            ) && m@ == s@),
    {
        match err {
            AutosalesPlatformError::NoSuitableRequisites => ApiError::Conflict(
                string_of("No suitable requisites"),
            ),
            AutosalesPlatformError::IncreaseAmountBy10 => ApiError::Conflict(
                string_of("Increase amount by 10"),
            ),
            AutosalesPlatformError::Unknown(s) => ApiError::InternalServerError(s),
        }
    }

    /// The API error an encryptor error becomes: an internal error with its text.
    pub fn from_totp_error(err: TotpEncryptorError) -> (r: ApiError)
        ensures
            r matches ApiError::InternalServerError(m) && m@ == totp_error_text(err),
    {
        ApiError::InternalServerError(err.message())
    }
}

/// The code of an authentication failure, chosen by its message.
pub open spec fn auth_error_code(message: Seq<char>) -> ErrorCode {
    if message == "Missing auth header"@ || message == "Missing token"@ {
        ErrorCode::MissingAuthHeader
    } else if message == "Invalid auth header"@ {
        ErrorCode::InvalidAuthHeader
    } else if message == "Invalid credentials"@ || message == "Invalid 2FA code"@ {
        ErrorCode::InvalidCredentials
    } else {
        ErrorCode::Unauthorized
    }
}

/// The code of an authentication failure, chosen by its message.
pub fn map_auth_error_code(message: &str) -> (r: ErrorCode)
    ensures
        r == auth_error_code(message@),
{
    if str_eq(message, "Missing auth header") || str_eq(message, "Missing token") {
        ErrorCode::MissingAuthHeader
    } else if str_eq(message, "Invalid auth header") {
        ErrorCode::InvalidAuthHeader
    } else if str_eq(message, "Invalid credentials") || str_eq(message, "Invalid 2FA code") {
        ErrorCode::InvalidCredentials
    } else {
        ErrorCode::Unauthorized
    }
}

/// The messages of one field joined with `", "`, a missing message read as
/// `"Invalid value"`; a separator is written only after a non-empty text.
pub open spec fn joined_messages(messages: Seq<Option<String>>) -> Seq<char>
    decreases messages.len(),
{
    if messages.len() == 0 {
        Seq::empty()
    } else {
        let acc = joined_messages(messages.drop_last());
        let sep = if acc.len() > 0 { ", "@ } else { Seq::<char>::empty() };
        let msg = match messages.last() {
            Some(m) => m@,
            None => "Invalid value"@,
        };
        acc + sep + msg
    }
}

/// Joins the messages of one field as the error answer lists them.
pub fn join_field_messages(messages: &Vec<Option<String>>) -> (r: String)
    ensures
        r@ == joined_messages(messages@),
{
    let mut acc = String::new();
    let mut i: usize = 0;
    while i < messages.len()
        invariant
            i <= messages@.len(),
            acc@ == joined_messages(messages@.take(i as int)),
        decreases messages.len() - i,
    {
        proof {
            assert(messages@.take(i + 1).drop_last() =~= messages@.take(i as int));
            reveal_strlit(", ");
            reveal_strlit("Invalid value");
        }
        if acc.as_str().unicode_len() > 0 {
            acc.append(", ");
        }
        match &messages[i] {
            Some(m) => acc.append(m.as_str()),
            None => acc.append("Invalid value"),
        }
        i = i + 1;
    }
    proof {
        assert(messages@.take(messages@.len() as int) =~= messages@);
    }
    acc
}

/// The HTTP status of an API error.
pub open spec fn error_status(e: ApiError) -> u16 {
    match e {
        ApiError::ValidationError(_) => 400,
        ApiError::AuthenticationError(_) => 401,
        ApiError::AuthorizationError(_) => 403,
        ApiError::NotFound(_) => 404,
        ApiError::BadRequest(_) => 400,
        ApiError::Conflict(_) => 409,
        ApiError::InternalServerError(_) => 500,
    }
}

/// The code of an API error.
pub open spec fn error_code(e: ApiError) -> ErrorCode {
    match e {
        ApiError::ValidationError(_) => ErrorCode::ValidationFailed,
        ApiError::AuthenticationError(m) => auth_error_code(m@),
        ApiError::AuthorizationError(_) => ErrorCode::Forbidden,
        ApiError::NotFound(_) => ErrorCode::NotFound,
        ApiError::BadRequest(_) => ErrorCode::BadRequest,
        ApiError::Conflict(_) => ErrorCode::Conflict,
        ApiError::InternalServerError(_) => ErrorCode::Internal,
    }
}

/// The message an API error is answered with: internal details are never shown.
pub open spec fn error_message(e: ApiError) -> Seq<char> {
    match e {
        ApiError::ValidationError(_) => "Validation error"@,
        ApiError::AuthenticationError(m) => m@,
        ApiError::AuthorizationError(m) => m@,
        ApiError::NotFound(m) => m@,
        ApiError::BadRequest(m) => m@,
        ApiError::Conflict(m) => m@,
        ApiError::InternalServerError(_) => "Internal server error"@,
    }
}

/// What an API error is answered with.
pub fn error_response(err: &ApiError) -> (r: ErrorResponse)
    ensures
        r.status == error_status(*err),
        r.code == error_code(*err),
        r.message@ == error_message(*err),
        match *err {
            ApiError::ValidationError(fields) => r.fields matches Some(out) && out@.len()
                == fields@.len() && forall|k: int|
                0 <= k < fields@.len() ==> (#[trigger] out@[k]).0@ == fields@[k].field@
                    && out@[k].1@ == joined_messages(fields@[k].messages@),
            _ => r.fields is None,
        },
{
    match err {
        ApiError::ValidationError(fields) => {
            let mut out: Vec<(String, String)> = Vec::new();
            let mut i: usize = 0;
            while i < fields.len()
                invariant
                    i <= fields@.len(),
                    out@.len() == i,
                    forall|k: int|
                        0 <= k < i ==> (#[trigger] out@[k]).0@ == fields@[k].field@ && out@[k].1@
                            == joined_messages(fields@[k].messages@),
                decreases fields.len() - i,
            {
                let f = &fields[i];
                out.push((f.field.clone(), join_field_messages(&f.messages)));
                i = i + 1;
            }
            ErrorResponse {
                status: 400,
                code: ErrorCode::ValidationFailed,
                message: string_of("Validation error"),
                fields: Some(out),
            }
        },
        ApiError::AuthenticationError(msg) => ErrorResponse {
            status: 401,
            code: map_auth_error_code(msg.as_str()),
            message: msg.clone(),
            fields: None,
        },
        ApiError::AuthorizationError(msg) => ErrorResponse {
            status: 403,
            code: ErrorCode::Forbidden,
            message: msg.clone(),
            fields: None,
        },
        ApiError::NotFound(msg) => ErrorResponse {
            status: 404,
            code: ErrorCode::NotFound,
            message: msg.clone(),
            fields: None,
        },
        ApiError::BadRequest(msg) => ErrorResponse {
            status: 400,
            code: ErrorCode::BadRequest,
            message: msg.clone(),
            fields: None,
        },
        ApiError::Conflict(msg) => ErrorResponse {
            status: 409,
            code: ErrorCode::Conflict,
            message: msg.clone(),
            fields: None,
        },
        ApiError::InternalServerError(_) => ErrorResponse {
            status: 500,
            code: ErrorCode::Internal,
            message: string_of("Internal server error"),
            fields: None,
        },
    }
}

/// What the repositories read of a failed `sqlx` call, as plain values.
#[derive(Debug)]
pub enum SqlxFailure {
    /// A query that had to return a row returned none (`Error::RowNotFound`),
    /// with the error's text.
    RowNotFound { text: String },
    /// The database refused the statement (`Error::Database`): its SQLSTATE
    /// code, when it gave one, its message, and the error's text.
    Database { code: Option<String>, message: String, text: String },
    /// Any other failure, with the error's text.
    Other { text: String },
}

/// The kinds of database errors the repositories tell apart.
#[derive(Debug)]
pub enum DatabaseErrorKind {
    ForeignKeyViolation,
    UniqueViolation,
    ValueTooLong,
    Other,
}

/// The kind of a database error by its SQLSTATE code.
pub open spec fn database_error_kind(code: Seq<char>) -> DatabaseErrorKind {
    if code == "23503"@ {
        DatabaseErrorKind::ForeignKeyViolation
    } else if code == "23505"@ {
        DatabaseErrorKind::UniqueViolation
    } else if code == "22001"@ {
        DatabaseErrorKind::ValueTooLong
    } else {
        DatabaseErrorKind::Other
    }
}

/// The text a repository error of a database error carries: the context,
/// then the database's message (or, for a too-long value, that it is too long).
pub open spec fn database_error_text(context: Seq<char>, code: Seq<char>, message: Seq<char>) -> Seq<
    char,
> {
    if database_error_kind(code) is ValueTooLong {
        context + ": value too long"@
    } else {
        context + ": "@ + message
    }
}

/// The repository error of a database error with a SQLSTATE code.
pub fn classify_database_error(context: &str, code: &str, message: &str) -> (r: RepositoryError)
    ensures
        match database_error_kind(code@) {
            DatabaseErrorKind::ForeignKeyViolation => r matches RepositoryError::ForeignKeyViolation(m)
                && m@ == database_error_text(context@, code@, message@),
            DatabaseErrorKind::UniqueViolation => r matches RepositoryError::UniqueViolation(m) && m@
                == database_error_text(context@, code@, message@),
            DatabaseErrorKind::ValueTooLong => r matches RepositoryError::Validation(m) && m@
                == database_error_text(context@, code@, message@),
            DatabaseErrorKind::Other => r matches RepositoryError::QueryFailed(m) && m@
                == database_error_text(context@, code@, message@),
        },
{
    proof {
        reveal_strlit("23503");
        reveal_strlit("23505");
        reveal_strlit("22001");
        assert("22001"@[1] != "23503"@[1]);
        assert("22001"@[1] != "23505"@[1]);
    }
    let mut text = string_of(context);
    if str_eq(code, "22001") {
        text.append(": value too long");
        return RepositoryError::Validation(text);
    }
    text.append(": ");
    text.append(message);
    if str_eq(code, "23503") {
        RepositoryError::ForeignKeyViolation(text)
    } else if str_eq(code, "23505") {
        RepositoryError::UniqueViolation(text)
    } else {
        RepositoryError::QueryFailed(text)
    }
}

/// The repository error a failed `sqlx` call becomes.
pub open spec fn sqlx_failure_error(r: RepositoryError, context: Seq<char>, err: SqlxFailure) -> bool {
    match err {
        SqlxFailure::RowNotFound { text } => r matches RepositoryError::NotFound(m) && m@ == text@,
        SqlxFailure::Database { code: Some(c), message, text } => match database_error_kind(c@) {
            DatabaseErrorKind::ForeignKeyViolation => r matches RepositoryError::ForeignKeyViolation(
                m,
            ) && m@ == database_error_text(context, c@, message@),
            DatabaseErrorKind::UniqueViolation => r matches RepositoryError::UniqueViolation(m)
                && m@ == database_error_text(context, c@, message@),
            DatabaseErrorKind::ValueTooLong => r matches RepositoryError::Validation(m) && m@
                == database_error_text(context, c@, message@),
            DatabaseErrorKind::Other => r matches RepositoryError::QueryFailed(m) && m@
                == database_error_text(context, c@, message@),
        },
        SqlxFailure::Database { code: None, message, text } => r matches RepositoryError::QueryFailed(
            m,
        ) && m@ == text@,
        SqlxFailure::Other { text } => r matches RepositoryError::QueryFailed(m) && m@ == text@,
    }
}

impl RepositoryError {
    /// The repository error of a failed `sqlx` call: a missing row is not
    /// found; a database error with a SQLSTATE code is classified by it (see
    /// `classify_database_error`); any other error is a failed query with the
    /// error's text.
    pub fn from_sqlx_error(context: &str, err: SqlxFailure) -> (r: RepositoryError)
        ensures
            sqlx_failure_error(r, context@, err),
    {
        match err {
            SqlxFailure::RowNotFound { text } => RepositoryError::NotFound(text),
            SqlxFailure::Database { code: Some(c), message, text: _ } => classify_database_error(
                context,
                c.as_str(),
                message.as_str(),
            ),
            SqlxFailure::Database { code: None, message: _, text } => RepositoryError::QueryFailed(
                text,
            ),
            SqlxFailure::Other { text } => RepositoryError::QueryFailed(text),
        }
    }
}

} // verus!
