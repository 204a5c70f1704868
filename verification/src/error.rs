//! The error kinds of the server and their JSON-RPC codes.

use vstd::prelude::*;
use vstd::string::*;
use crate::json::{Json, JsonView};

verus! {

/// What can go wrong between a request and its answer. Each kind that wraps
/// a failure of a collaborator carries that failure's message.
#[derive(Debug)]
pub enum AppError {
    ApiError(String),
    ConfigError(String),
    NotFound,
    ValidationError(String),
    Internal(String),
    Io(String),
    Network(String),
    Serialization(String),
    Toml(String),
    Yaml(String),
}

/// What an `AppError` stands for in contracts: its texts are sequences of
/// characters, its JSON documents their values.
pub enum AppErrorView {
    ApiError(Seq<char>),
    ConfigError(Seq<char>),
    NotFound,
    ValidationError(Seq<char>),
    Internal(Seq<char>),
    Io(Seq<char>),
    Network(Seq<char>),
    Serialization(Seq<char>),
    Toml(Seq<char>),
    Yaml(Seq<char>),
}

impl View for AppError {
    type V = AppErrorView;

    open spec fn view(&self) -> AppErrorView {
        match *self {
            AppError::ApiError(m) => AppErrorView::ApiError(m@),
            AppError::ConfigError(m) => AppErrorView::ConfigError(m@),
            AppError::NotFound => AppErrorView::NotFound,
            AppError::ValidationError(m) => AppErrorView::ValidationError(m@),
            AppError::Internal(m) => AppErrorView::Internal(m@),
            AppError::Io(m) => AppErrorView::Io(m@),
            AppError::Network(m) => AppErrorView::Network(m@),
            AppError::Serialization(m) => AppErrorView::Serialization(m@),
            AppError::Toml(m) => AppErrorView::Toml(m@),
            AppError::Yaml(m) => AppErrorView::Yaml(m@),
        }
    }
}

pub const METHOD_NOT_FOUND: i64 = -32601;

pub const INVALID_PARAMS: i64 = -32602;

pub const INTERNAL_ERROR: i64 = -32603;

pub const RESOURCE_NOT_FOUND: i64 = -32004;

pub const UPSTREAM_FAILURE: i64 = -32005;

/// The JSON-RPC error object `{"code": code, "message": message}`.
pub open spec fn error_object(code: i64, message: Seq<char>) -> JsonView {
    JsonView::empty_object().with("code"@, JsonView::integer(code)).with(
        "message"@,
        JsonView::Str(message),
    )
}

/// Builds the JSON-RPC error object of a code and a message.
pub fn make_error_object(code: i64, message: &str) -> (r: Json)
    ensures
        r@ == error_object(code, message@),
{
    Json::object().with("code", Json::integer(code)).with("message", Json::string(message))
}

impl AppErrorView {
    /// The JSON-RPC code of each kind.
    pub open spec fn code(self) -> i64 {
        match self {
            AppErrorView::ValidationError(_) => INVALID_PARAMS,
            AppErrorView::NotFound => RESOURCE_NOT_FOUND,
            AppErrorView::ApiError(_) | AppErrorView::Network(_) => UPSTREAM_FAILURE,
            AppErrorView::ConfigError(_)
            | AppErrorView::Internal(_)
            | AppErrorView::Io(_)
            | AppErrorView::Serialization(_)
            | AppErrorView::Toml(_)
            | AppErrorView::Yaml(_) => INTERNAL_ERROR,
        }
    }

    /// The text shown for each kind: a fixed heading, then the carried
    /// message.
    pub open spec fn message(self) -> Seq<char> {
        match self {
            AppErrorView::ApiError(m) => "API Error: "@ + m,
            AppErrorView::ConfigError(m) => "Configuration Error: "@ + m,
            AppErrorView::NotFound => "Resource Not Found"@,
            AppErrorView::ValidationError(m) => "Validation Error: "@ + m,
            AppErrorView::Internal(m) => "Internal Error: "@ + m,
            AppErrorView::Io(m) => "IO Error: "@ + m,
            AppErrorView::Network(m) => "Network Error: "@ + m,
            AppErrorView::Serialization(m) => "Serialization Error: "@ + m,
            AppErrorView::Toml(m) => "TOML Error: "@ + m,
            AppErrorView::Yaml(m) => "YAML Error: "@ + m,
        }
    }
}

/// `heading` followed by `message`.
fn headed(heading: &str, message: &String) -> (r: String)
    ensures
        r@ == heading@ + message@,
{
    let mut text = String::from_str(heading);
    text.append(message.as_str());
    text
}

impl AppError {
    /// The JSON-RPC code that a client sees for this error.
    pub fn code(&self) -> (r: i64)
        ensures
            r == self@.code(),
    {
        match self {
            AppError::ValidationError(_) => INVALID_PARAMS,
            AppError::NotFound => RESOURCE_NOT_FOUND,
            AppError::ApiError(_) | AppError::Network(_) => UPSTREAM_FAILURE,
            AppError::ConfigError(_)
            | AppError::Internal(_)
            | AppError::Io(_)
            | AppError::Serialization(_)
            | AppError::Toml(_)
            | AppError::Yaml(_) => INTERNAL_ERROR,
        }
    }

    /// The text shown for this error.
    pub fn to_string(&self) -> (r: String)
        ensures
            r@ == self@.message(),
    {
        match self {
            AppError::ApiError(m) => headed("API Error: ", m),
            AppError::ConfigError(m) => headed("Configuration Error: ", m),
            AppError::NotFound => String::from_str("Resource Not Found"),
            AppError::ValidationError(m) => headed("Validation Error: ", m),
            AppError::Internal(m) => headed("Internal Error: ", m),
            AppError::Io(m) => headed("IO Error: ", m),
            AppError::Network(m) => headed("Network Error: ", m),
            AppError::Serialization(m) => headed("Serialization Error: ", m),
            AppError::Toml(m) => headed("TOML Error: ", m),
            AppError::Yaml(m) => headed("YAML Error: ", m),
        }
    }

    /// The JSON-RPC error object of this error: its code and its text.
    pub fn to_json_rpc_error(&self) -> (r: Json)
        ensures
            r@ == error_object(self@.code(), self@.message()),
    {
        let message = self.to_string();
        make_error_object(self.code(), message.as_str())
    }
}

impl From<String> for AppError {
    fn from(s: String) -> (r: AppError)
        ensures
            r@ == AppErrorView::Internal(s@),
    {
        AppError::Internal(s)
    }
}

impl vstd::std_specs::convert::FromSpecImpl<String> for AppError {
    open spec fn obeys_from_spec() -> bool {
        true
    }

    open spec fn from_spec(s: String) -> AppError {
        AppError::Internal(s)
    }
}

impl<'a> From<&'a str> for AppError {
    fn from(s: &'a str) -> (r: AppError)
        ensures
            r@ == AppErrorView::Internal(s@),
    {
        AppError::Internal(String::from_str(s))
    }
}

impl<'a> vstd::std_specs::convert::FromSpecImpl<&'a str> for AppError {
    /// A spec function cannot make the `String` that `from` allocates, so
    /// what `from` returns is stated on `from` itself, over views.
    open spec fn obeys_from_spec() -> bool {
        false
    }

    open spec fn from_spec(s: &'a str) -> AppError {
        AppError::Internal(choose|t: String| t@ == s@)
    }
}

/// Every code that an error maps to is one of the five that clients branch
/// on, and the kind decides which.
pub proof fn lemma_error_codes(e: AppErrorView)
    ensures
        e is NotFound <==> e.code() == -32004,
        (e is ApiError || e is Network) <==> e.code() == -32005,
        e is ValidationError <==> e.code() == -32602,
        (e is ConfigError || e is Internal || e is Io || e is Serialization || e is Toml
            || e is Yaml) <==> e.code() == -32603,
{
}

} // verus!
