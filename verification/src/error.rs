//! Application and API errors, and how an API error is answered.
use vstd::prelude::*;

use crate::domain::DomainError;
use crate::text::{contains, str_contains};

verus! {

/// `sqlx::Error`, carried through opaquely.
#[verifier::external_type_specification]
#[verifier::external_body]
pub struct ExSqlxError(sqlx::Error);

/// Errors of the application layer.
#[derive(Debug)]
pub enum AppError {
    BadRequest(&'static str),
    UnsupportedCurrency,
    Unauthorized(&'static str),
    Forbidden(&'static str),
    NotFound(&'static str),
    Conflict(&'static str),
    AccountClosed,
    Internal(&'static str),
    Db(sqlx::Error),
}

/// Result of an application operation.
pub type AppResult<T> = Result<T, AppError>;

/// The application error that a domain error becomes.
pub open spec fn app_error_of_domain(e: DomainError) -> AppError {
    match e {
        DomainError::BadRequest(m) => AppError::BadRequest(m),
        DomainError::Internal(m) => AppError::Internal(m),
    }
}

impl From<DomainError> for AppError {
    fn from(value: DomainError) -> (r: Self)
        ensures
            r == app_error_of_domain(value),
    {
        match value {
            DomainError::BadRequest(m) => AppError::BadRequest(m),
            DomainError::Internal(m) => AppError::Internal(m),
        }
    }
}

impl vstd::std_specs::convert::FromSpecImpl<DomainError> for AppError {
    open spec fn obeys_from_spec() -> bool {
        true
    }

    open spec fn from_spec(v: DomainError) -> AppError {
        app_error_of_domain(v)
    }
}

impl From<sqlx::Error> for AppError {
    fn from(value: sqlx::Error) -> (r: Self)
        ensures
            r == AppError::Db(value),
    {
        AppError::Db(value)
    }
}

impl vstd::std_specs::convert::FromSpecImpl<sqlx::Error> for AppError {
    open spec fn obeys_from_spec() -> bool {
        true
    }

    open spec fn from_spec(v: sqlx::Error) -> AppError {
        AppError::Db(v)
    }
}

/// Errors of the HTTP layer.
#[derive(Debug)]
pub enum ApiError {
    BadRequest(&'static str),
    UnsupportedCurrency,
    Unauthorized(&'static str),
    Forbidden(&'static str),
    NotFound(&'static str),
    Conflict(&'static str),
    AccountClosed,
    Internal(&'static str),
    Db(sqlx::Error),
}

/// Result of an HTTP handler.
pub type ApiResult<T> = Result<T, ApiError>;

/// The API error that an application error becomes: the variant of the same name.
pub open spec fn api_error_of_app(e: AppError) -> ApiError {
    match e {
        AppError::BadRequest(m) => ApiError::BadRequest(m),
        AppError::UnsupportedCurrency => ApiError::UnsupportedCurrency,
        AppError::Unauthorized(m) => ApiError::Unauthorized(m),
        AppError::Forbidden(m) => ApiError::Forbidden(m),
        AppError::NotFound(m) => ApiError::NotFound(m),
        AppError::Conflict(m) => ApiError::Conflict(m),
        AppError::AccountClosed => ApiError::AccountClosed,
        AppError::Internal(m) => ApiError::Internal(m),
        AppError::Db(e) => ApiError::Db(e),
    }
}

/// The API error that a domain error becomes.
pub open spec fn api_error_of_domain(e: DomainError) -> ApiError {
    match e {
        DomainError::BadRequest(m) => ApiError::BadRequest(m),
        DomainError::Internal(m) => ApiError::Internal(m),
    }
}

impl From<AppError> for ApiError {
    fn from(value: AppError) -> (r: Self)
        ensures
            r == api_error_of_app(value),
    {
        match value {
            AppError::BadRequest(m) => ApiError::BadRequest(m),
            AppError::UnsupportedCurrency => ApiError::UnsupportedCurrency,
            AppError::Unauthorized(m) => ApiError::Unauthorized(m),
            AppError::Forbidden(m) => ApiError::Forbidden(m),
            AppError::NotFound(m) => ApiError::NotFound(m),
            AppError::Conflict(m) => ApiError::Conflict(m),
            AppError::AccountClosed => ApiError::AccountClosed,
            AppError::Internal(m) => ApiError::Internal(m),
            AppError::Db(e) => ApiError::Db(e),
        }
    }
}

impl vstd::std_specs::convert::FromSpecImpl<AppError> for ApiError {
    open spec fn obeys_from_spec() -> bool {
        true
    }

    open spec fn from_spec(v: AppError) -> ApiError {
        api_error_of_app(v)
    }
}

impl From<DomainError> for ApiError {
    fn from(value: DomainError) -> (r: Self)
        ensures
            r == api_error_of_domain(value),
    {
        match value {
            DomainError::BadRequest(m) => ApiError::BadRequest(m),
            DomainError::Internal(m) => ApiError::Internal(m),
        }
    }
}

impl vstd::std_specs::convert::FromSpecImpl<DomainError> for ApiError {
    open spec fn obeys_from_spec() -> bool {
        true
    }

    open spec fn from_spec(v: DomainError) -> ApiError {
        api_error_of_domain(v)
    }
}

impl From<sqlx::Error> for ApiError {
    fn from(value: sqlx::Error) -> (r: Self)
        ensures
            r == ApiError::Db(value),
    {
        ApiError::Db(value)
    }
}

impl vstd::std_specs::convert::FromSpecImpl<sqlx::Error> for ApiError {
    open spec fn obeys_from_spec() -> bool {
        true
    }

    open spec fn from_spec(v: sqlx::Error) -> ApiError {
        ApiError::Db(v)
    }
}

/// The text that `Display` writes for a `sqlx::Error` (a function of the error value).
pub uninterp spec fn sqlx_error_display(e: sqlx::Error) -> Seq<char>;

/// `Display` of `sqlx::Error` (its `to_string`): the contract names the text.
#[verifier::external_body]
pub(crate) fn sqlx_error_text(e: &sqlx::Error) -> (r: String)
    ensures
        r@ == sqlx_error_display(*e),
{
    e.to_string()
}

/// What an HTTP error answer consists of: status code, message and machine-readable code.
pub struct ErrorResponseParts {
    pub status: u16,
    pub message: String,
    pub code: Option<String>,
}

/// The status, message text and code (if any) of the answer to an error; a database error
/// is answered with its `Display` text.
pub open spec fn error_answer(e: ApiError) -> (u16, Seq<char>, Option<Seq<char>>) {
    match e {
        ApiError::BadRequest(m) => (400, m@, None),
        ApiError::UnsupportedCurrency => (400, "unsupported currency"@, Some("UNSUPPORTED_CURRENCY"@)),
        ApiError::Unauthorized(m) => (401, m@, None),
        ApiError::Forbidden(m) => (403, m@, None),
        ApiError::NotFound(m) => (404, m@, None),
        ApiError::Conflict(m) => (409, m@, None),
        ApiError::AccountClosed => (409, "account is closed"@, Some("ACCOUNT_CLOSED"@)),
        ApiError::Internal(m) => (500, m@, None),
        ApiError::Db(d) => (500, sqlx_error_display(d), None),
    }
}

impl ApiError {
    /// The HTTP answer to this error.
    pub fn response_parts(self) -> (r: ErrorResponseParts)
        ensures
            r.status == error_answer(self).0,
            r.message@ == error_answer(self).1,
            match error_answer(self).2 {
                Some(c) => r.code matches Some(rc) && rc@ == c,
                None => r.code is None,
            },
    {
        match self {
            ApiError::BadRequest(m) => ErrorResponseParts { status: 400, message: m.to_owned(), code: None },
            ApiError::UnsupportedCurrency => ErrorResponseParts {
                status: 400,
                message: "unsupported currency".to_owned(),
                code: Some("UNSUPPORTED_CURRENCY".to_owned()),
            },
            ApiError::Unauthorized(m) => ErrorResponseParts { status: 401, message: m.to_owned(), code: None },
            ApiError::Forbidden(m) => ErrorResponseParts { status: 403, message: m.to_owned(), code: None },
            ApiError::NotFound(m) => ErrorResponseParts { status: 404, message: m.to_owned(), code: None },
            ApiError::Conflict(m) => ErrorResponseParts { status: 409, message: m.to_owned(), code: None },
            ApiError::AccountClosed => ErrorResponseParts {
                status: 409,
                message: "account is closed".to_owned(),
                code: Some("ACCOUNT_CLOSED".to_owned()),
            },
            ApiError::Internal(m) => ErrorResponseParts { status: 500, message: m.to_owned(), code: None },
            ApiError::Db(e) => ErrorResponseParts { status: 500, message: sqlx_error_text(&e), code: None },
        }
    }
}

/// The database's own message of a `sqlx::Error::Database` error (`DatabaseError::message`),
/// `None` for every other kind of error.
pub uninterp spec fn sqlx_database_message(e: sqlx::Error) -> Option<Seq<char>>;

/// `sqlx::Error::Database(db).message()`, `None` for every other kind of error: the contract
/// names the result.
#[verifier::external_body]
pub(crate) fn sqlx_error_database_message(e: &sqlx::Error) -> (r: Option<String>)
    ensures
        match sqlx_database_message(*e) {
            Some(m) => r matches Some(x) && x@ == m,
            None => r is None,
        },
{
    match e {
        sqlx::Error::Database(db) => Some(db.message().to_owned()),
        _ => None,
    }
}

/// What `str::to_lowercase` gives for a text (full Unicode lower-casing).
pub uninterp spec fn unicode_lowercase(s: Seq<char>) -> Seq<char>;

/// `str::to_lowercase`: the contract names the result.
#[verifier::external_body]
pub(crate) fn str_to_lowercase(s: &str) -> (r: String)
    ensures
        r@ == unicode_lowercase(s@),
{
    s.to_lowercase()
}

/// Does a database message report a violated unique constraint? It does when its
/// lower-cased text mentions `unique`.
pub fn is_unique_violation(message: &str) -> (r: bool)
    ensures
        r == contains(unicode_lowercase(message@), "unique"@),
{
    let lower = str_to_lowercase(message);
    str_contains(lower.as_str(), "unique")
}

/// Does a failed insert report a duplicate key? Only a database error can, by a message that
/// mentions `unique` (`db_message` is the database's message, `None` for another error).
pub fn insert_error_is_duplicate(db_message: Option<&str>) -> (r: bool)
    ensures
        r == match db_message {
            Some(m) => contains(unicode_lowercase(m@), "unique"@),
            None => false,
        },
{
    match db_message {
        Some(m) => is_unique_violation(m),
        None => false,
    }
}

/// The error reports a violated unique constraint: it is a database error whose message,
/// lower-cased, mentions `unique`.
pub open spec fn reports_duplicate(e: sqlx::Error) -> bool {
    match sqlx_database_message(e) {
        Some(m) => contains(unicode_lowercase(m), "unique"@),
        None => false,
    }
}

/// The error that a failed insert of a ledger transaction becomes: a database error that
/// reports a unique-constraint violation (the idempotency key) is a conflict, any other
/// error is kept as a database error.
pub fn classify_ledger_insert_error(e: sqlx::Error) -> (r: AppError)
    ensures
        r == if reports_duplicate(e) {
            AppError::Conflict("duplicate idempotency key")
        } else {
            AppError::Db(e)
        },
{
    let message = sqlx_error_database_message(&e);
    let duplicate = match &message {
        Some(m) => insert_error_is_duplicate(Some(m.as_str())),
        None => insert_error_is_duplicate(None),
    };
    if duplicate {
        AppError::Conflict("duplicate idempotency key")
    } else {
        AppError::Db(e)
    }
}

} // verus!
