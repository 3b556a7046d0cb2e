//! The errors that requests are answered with.

use vstd::prelude::*;

use crate::types::{
    text_pairs, PaymentRequired, PaymentRequiredView, X402_VERSION, X402_VERSION_HEADER,
};

verus! {

pub const STATUS_OK: u16 = 200;

pub const STATUS_CREATED: u16 = 201;

pub const STATUS_ACCEPTED: u16 = 202;

pub const STATUS_BAD_REQUEST: u16 = 400;

pub const STATUS_PAYMENT_REQUIRED: u16 = 402;

pub const STATUS_NOT_FOUND: u16 = 404;

pub const STATUS_PRECONDITION_FAILED: u16 = 412;

pub const STATUS_INTERNAL_SERVER_ERROR: u16 = 500;

pub const STATUS_BAD_GATEWAY: u16 = 502;

pub const STATUS_SERVICE_UNAVAILABLE: u16 = 503;

/// Why a request was refused.
#[derive(Debug)]
pub enum ApiError {
    /// The server lacks a setting that the request needs.
    Config { message: String },
    /// The request does not hold what it must.
    Validation { message: String },
    /// What the request names does not exist.
    NotFound { message: String },
    /// Something else has to be done first.
    Precondition { message: String },
    /// A server that this one relies on failed.
    Upstream { status: u16, message: String },
    /// The database failed, or held what it must not.
    Database { status: u16, message: String },
    /// The call has to be paid for.
    Payment { required: PaymentRequired },
}

pub type ApiResult<T> = Result<T, ApiError>;

/// The contents of an `ApiError`.
pub enum ApiErrorView {
    Config { message: Seq<char> },
    Validation { message: Seq<char> },
    NotFound { message: Seq<char> },
    Precondition { message: Seq<char> },
    Upstream { status: u16, message: Seq<char> },
    Database { status: u16, message: Seq<char> },
    Payment { required: PaymentRequiredView },
}

impl View for ApiError {
    type V = ApiErrorView;

    open spec fn view(&self) -> ApiErrorView {
        match self {
            ApiError::Config { message } => ApiErrorView::Config { message: message@ },
            ApiError::Validation { message } => ApiErrorView::Validation { message: message@ },
            ApiError::NotFound { message } => ApiErrorView::NotFound { message: message@ },
            ApiError::Precondition { message } => ApiErrorView::Precondition { message: message@ },
            ApiError::Upstream { status, message } => ApiErrorView::Upstream {
                status: *status,
                message: message@,
            },
            ApiError::Database { status, message } => ApiErrorView::Database {
                status: *status,
                message: message@,
            },
            ApiError::Payment { required } => ApiErrorView::Payment { required: required@ },
        }
    }
}

/// The contents of a result: its value, or the contents of its error.
pub open spec fn outcome<T>(r: ApiResult<T>) -> Result<T, ApiErrorView> {
    match r {
        Ok(value) => Ok(value),
        Err(error) => Err(error@),
    }
}

/// The contents of a result whose value is taken by its view.
pub open spec fn outcome_view<T: View>(r: ApiResult<T>) -> Result<T::V, ApiErrorView> {
    match r {
        Ok(value) => Ok(value@),
        Err(error) => Err(error@),
    }
}

pub open spec fn config_error(message: Seq<char>) -> ApiErrorView {
    ApiErrorView::Config { message }
}

pub open spec fn validation_error(message: Seq<char>) -> ApiErrorView {
    ApiErrorView::Validation { message }
}

pub open spec fn not_found_error(message: Seq<char>) -> ApiErrorView {
    ApiErrorView::NotFound { message }
}

pub open spec fn precondition_error(message: Seq<char>) -> ApiErrorView {
    ApiErrorView::Precondition { message }
}

pub open spec fn upstream_error(status: u16, message: Seq<char>) -> ApiErrorView {
    ApiErrorView::Upstream { status, message }
}

pub open spec fn database_error(status: u16, message: Seq<char>) -> ApiErrorView {
    ApiErrorView::Database { status, message }
}

/// What the database failed with, by its message.
pub open spec fn database_failure(message: Seq<char>) -> ApiErrorView {
    database_error(STATUS_INTERNAL_SERVER_ERROR, message)
}

/// What comes of work that needs a database: nothing where none is configured.
pub open spec fn database_presence(configured: bool) -> Result<(), ApiErrorView> {
    if configured {
        Ok(())
    } else {
        Err(config_error("Postgres not configured; set DATABASE_URL"@))
    }
}

impl ApiErrorView {
    /// The HTTP status that goes with the error.
    pub open spec fn status(self) -> u16 {
        match self {
            ApiErrorView::Config { .. } => STATUS_SERVICE_UNAVAILABLE,
            ApiErrorView::Validation { .. } => STATUS_BAD_REQUEST,
            ApiErrorView::NotFound { .. } => STATUS_NOT_FOUND,
            ApiErrorView::Precondition { .. } => STATUS_PRECONDITION_FAILED,
            ApiErrorView::Upstream { status, .. } => status,
            ApiErrorView::Database { status, .. } => status,
            ApiErrorView::Payment { .. } => STATUS_PAYMENT_REQUIRED,
        }
    }

    /// What is said of the error.
    pub open spec fn message(self) -> Seq<char> {
        match self {
            ApiErrorView::Config { message } => message,
            ApiErrorView::Validation { message } => message,
            ApiErrorView::NotFound { message } => message,
            ApiErrorView::Precondition { message } => message,
            ApiErrorView::Upstream { message, .. } => message,
            ApiErrorView::Database { message, .. } => message,
            ApiErrorView::Payment { required } => required.message,
        }
    }

    /// The headers that go with the error: a demand for payment names the version of the protocol
    /// to pay by.
    pub open spec fn headers(self) -> Seq<(Seq<char>, Seq<char>)> {
        match self {
            ApiErrorView::Payment { .. } => seq![(X402_VERSION_HEADER@, X402_VERSION@)],
            _ => Seq::empty(),
        }
    }
}

impl ApiError {
    pub fn config(message: &str) -> (r: ApiError)
        ensures
            r@ == config_error(message@),
    {
        ApiError::Config { message: message.to_owned() }
    }

    pub fn validation(message: &str) -> (r: ApiError)
        ensures
            r@ == validation_error(message@),
    {
        ApiError::Validation { message: message.to_owned() }
    }

    pub fn not_found(message: &str) -> (r: ApiError)
        ensures
            r@ == not_found_error(message@),
    {
        ApiError::NotFound { message: message.to_owned() }
    }

    pub fn precondition(message: &str) -> (r: ApiError)
        ensures
            r@ == precondition_error(message@),
    {
        ApiError::Precondition { message: message.to_owned() }
    }

    pub fn upstream(status: u16, message: &str) -> (r: ApiError)
        ensures
            r@ == upstream_error(status, message@),
    {
        ApiError::Upstream { status, message: message.to_owned() }
    }

    pub fn database(status: u16, message: &str) -> (r: ApiError)
        ensures
            r@ == database_error(status, message@),
    {
        ApiError::Database { status, message: message.to_owned() }
    }

    /// The HTTP status that goes with the error.
    pub fn status(&self) -> (r: u16)
        ensures
            r == self@.status(),
    {
        match self {
            ApiError::Config { .. } => STATUS_SERVICE_UNAVAILABLE,
            ApiError::Validation { .. } => STATUS_BAD_REQUEST,
            ApiError::NotFound { .. } => STATUS_NOT_FOUND,
            ApiError::Precondition { .. } => STATUS_PRECONDITION_FAILED,
            ApiError::Upstream { status, .. } => *status,
            ApiError::Database { status, .. } => *status,
            ApiError::Payment { .. } => STATUS_PAYMENT_REQUIRED,
        }
    }

    /// What is said of the error.
    pub fn message(&self) -> (r: &str)
        ensures
            r@ == self@.message(),
    {
        match self {
            ApiError::Config { message } => message.as_str(),
            ApiError::Validation { message } => message.as_str(),
            ApiError::NotFound { message } => message.as_str(),
            ApiError::Precondition { message } => message.as_str(),
            ApiError::Upstream { message, .. } => message.as_str(),
            ApiError::Database { message, .. } => message.as_str(),
            ApiError::Payment { required } => required.message.as_str(),
        }
    }

    /// The headers that go with the error.
    pub fn headers(&self) -> (r: Vec<(String, String)>)
        ensures
            text_pairs(r@) == self@.headers(),
    {
        let mut headers: Vec<(String, String)> = Vec::new();
        if let ApiError::Payment { .. } = self {
            headers.push((X402_VERSION_HEADER.to_owned(), X402_VERSION.to_owned()));
        }
        assert(text_pairs(headers@) =~= self@.headers());
        headers
    }
}

/// Refuses work that needs a database where none is configured.
pub fn require_database(configured: bool) -> (r: ApiResult<()>)
    ensures
        outcome(r) == database_presence(configured),
{
    if configured {
        Ok(())
    } else {
        Err(ApiError::config("Postgres not configured; set DATABASE_URL"))
    }
}

/// What the database answered, or its failure by the message.
pub fn database_answer<T>(answer: Result<T, String>) -> (r: ApiResult<T>)
    ensures
        outcome(r) == match answer {
            Ok(value) => Ok(value),
            Err(message) => Err(database_failure(message@)),
        },
{
    match answer {
        Ok(value) => Ok(value),
        Err(message) => Err(ApiError::database(STATUS_INTERNAL_SERVER_ERROR, message.as_str())),
    }
}

} // verus!
