//! The typed failures of the gateway.

use vstd::prelude::*;
use vstd::std_specs::convert::FromSpecImpl;
use vstd::string::StringExecFns;

verus! {

/// The kind of a failure, without its message.
#[derive(Debug, Clone, Copy, PartialEq, Eq, Structural)]
pub enum ErrorKind {
    Validation,
    Api,
    Parse,
    Config,
    Network,
}

/// A failure of the gateway: its kind and a message for the operator.
#[derive(Debug, Clone)]
pub enum ReasonerError {
    /// The client's request is malformed.
    ValidationError(String),
    /// The upstream answered outside the success range, or left out an expected field.
    ApiError(String),
    /// A body or a header could not be decoded.
    ParseError(String),
    /// The configuration could not be loaded.
    ConfigError(String),
    /// The transport failed or timed out.
    NetworkError(String),
}

/// The words that open the rendering of an error of the given kind.
pub open spec fn kind_prefix(kind: ErrorKind) -> Seq<char> {
    match kind {
        ErrorKind::Validation => "Validation error: "@,
        ErrorKind::Api => "API error: "@,
        ErrorKind::Parse => "Parse error: "@,
        ErrorKind::Config => "Config error: "@,
        ErrorKind::Network => "Network error: "@,
    }
}

/// The kind under which a transport failure is reported: a timeout or a failed
/// connect is a network failure, anything else is laid on the upstream.
pub open spec fn transport_kind(is_timeout: bool, is_connect: bool) -> ErrorKind {
    if is_timeout || is_connect {
        ErrorKind::Network
    } else {
        ErrorKind::Api
    }
}

/// The status that the HTTP layer answers with for a failure of the given kind.
pub open spec fn status_of_kind(kind: ErrorKind) -> u16 {
    match kind {
        ErrorKind::Validation => 400u16,
        ErrorKind::Config => 500u16,
        ErrorKind::Api | ErrorKind::Parse | ErrorKind::Network => 502u16,
    }
}

impl ReasonerError {
    pub open spec fn kind(&self) -> ErrorKind {
        match self {
            ReasonerError::ValidationError(_) => ErrorKind::Validation,
            ReasonerError::ApiError(_) => ErrorKind::Api,
            ReasonerError::ParseError(_) => ErrorKind::Parse,
            ReasonerError::ConfigError(_) => ErrorKind::Config,
            ReasonerError::NetworkError(_) => ErrorKind::Network,
        }
    }

    pub open spec fn message(&self) -> Seq<char> {
        match self {
            ReasonerError::ValidationError(m) => m@,
            ReasonerError::ApiError(m) => m@,
            ReasonerError::ParseError(m) => m@,
            ReasonerError::ConfigError(m) => m@,
            ReasonerError::NetworkError(m) => m@,
        }
    }

    /// An error of the given kind with the given message.
    pub fn of_kind(kind: ErrorKind, message: String) -> (e: ReasonerError)
        ensures
            e.kind() == kind,
            e.message() == message@,
    {
        match kind {
            ErrorKind::Validation => ReasonerError::ValidationError(message),
            ErrorKind::Api => ReasonerError::ApiError(message),
            ErrorKind::Parse => ReasonerError::ParseError(message),
            ErrorKind::Config => ReasonerError::ConfigError(message),
            ErrorKind::Network => ReasonerError::NetworkError(message),
        }
    }

    /// The kind of this error.
    pub fn error_kind(&self) -> (k: ErrorKind)
        ensures
            k == self.kind(),
    {
        match self {
            ReasonerError::ValidationError(_) => ErrorKind::Validation,
            ReasonerError::ApiError(_) => ErrorKind::Api,
            ReasonerError::ParseError(_) => ErrorKind::Parse,
            ReasonerError::ConfigError(_) => ErrorKind::Config,
            ReasonerError::NetworkError(_) => ErrorKind::Network,
        }
    }

    /// The rendering of this error: the words of its kind, then its message.
    pub fn to_string(&self) -> (s: String)
        ensures
            s@ == kind_prefix(self.kind()) + self.message(),
    {
        match self {
            ReasonerError::ValidationError(m) => String::from_str("Validation error: ").concat(
                m.as_str(),
            ),
            ReasonerError::ApiError(m) => String::from_str("API error: ").concat(m.as_str()),
            ReasonerError::ParseError(m) => String::from_str("Parse error: ").concat(m.as_str()),
            ReasonerError::ConfigError(m) => String::from_str("Config error: ").concat(m.as_str()),
            ReasonerError::NetworkError(m) => String::from_str("Network error: ").concat(
                m.as_str(),
            ),
        }
    }

    /// The error that caused this one: there never is one.
    pub fn source(&self) -> (cause: Option<&ReasonerError>)
        ensures
            cause is None,
    {
        None
    }

    /// The error for a failed transport, from what the transport says of it.
    pub fn from_transport(is_timeout: bool, is_connect: bool, text: String) -> (e: ReasonerError)
        ensures
            e.kind() == transport_kind(is_timeout, is_connect),
            e.message() == text@,
    {
        if is_timeout || is_connect {
            ReasonerError::NetworkError(text)
        } else {
            ReasonerError::ApiError(text)
        }
    }

    /// The HTTP status that answers a request that failed with this error.
    pub fn status_code(&self) -> (code: u16)
        ensures
            code == status_of_kind(self.kind()),
    {
        match self {
            ReasonerError::ValidationError(_) => 400,
            ReasonerError::ConfigError(_) => 500,
            ReasonerError::ApiError(_) => 502,
            ReasonerError::ParseError(_) => 502,
            ReasonerError::NetworkError(_) => 502,
        }
    }
}

impl From<String> for ReasonerError {
    fn from(msg: String) -> (e: Self) {
        ReasonerError::ValidationError(msg)
    }
}

impl FromSpecImpl<String> for ReasonerError {
    open spec fn obeys_from_spec() -> bool {
        true
    }

    open spec fn from_spec(msg: String) -> Self {
        ReasonerError::ValidationError(msg)
    }
}

/// The error of the HTTP transport, opaque to the library.
#[verifier::external_type_specification]
#[verifier::external_body]
pub struct ExTransportError(reqwest::Error);

/// The error of the JSON decoder, opaque to the library.
#[verifier::external_type_specification]
#[verifier::external_body]
pub struct ExJsonError(serde_json::Error);

/// `reqwest::Error::is_timeout`: whether the transport lays the failure on a
/// timeout. Nothing is claimed of the answer.
#[verifier::external_body]
fn transport_is_timeout(err: &reqwest::Error) -> (b: bool) {
    err.is_timeout()
}

/// `reqwest::Error::is_connect`: whether the transport lays the failure on
/// the connect. Nothing is claimed of the answer.
#[verifier::external_body]
fn transport_is_connect(err: &reqwest::Error) -> (b: bool) {
    err.is_connect()
}

/// The `Display` text of a `reqwest::Error`. Nothing is claimed of the text.
#[verifier::external_body]
fn transport_error_text(err: &reqwest::Error) -> (text: String) {
    err.to_string()
}

/// The `Display` text of a `serde_json::Error`. Nothing is claimed of the text.
#[verifier::external_body]
fn json_error_text(err: &serde_json::Error) -> (text: String) {
    err.to_string()
}

/// A failure of the transport is a network error where the transport lays
/// it on a timeout or on the connect, and an error of the upstream
/// otherwise; [`ReasonerError::from_transport`] decides.
impl From<reqwest::Error> for ReasonerError {
    fn from(err: reqwest::Error) -> (e: Self)
        ensures
            e.kind() == ErrorKind::Network || e.kind() == ErrorKind::Api,
    {
        let is_timeout = transport_is_timeout(&err);
        let is_connect = transport_is_connect(&err);
        ReasonerError::from_transport(is_timeout, is_connect, transport_error_text(&err))
    }
}

impl FromSpecImpl<reqwest::Error> for ReasonerError {
    open spec fn obeys_from_spec() -> bool {
        false
    }

    open spec fn from_spec(err: reqwest::Error) -> Self {
        arbitrary()
    }
}

/// A failure of the JSON decoder is a parse error.
impl From<serde_json::Error> for ReasonerError {
    fn from(err: serde_json::Error) -> (e: Self)
        ensures
            e.kind() == ErrorKind::Parse,
    {
        ReasonerError::ParseError(json_error_text(&err))
    }
}

impl FromSpecImpl<serde_json::Error> for ReasonerError {
    open spec fn obeys_from_spec() -> bool {
        false
    }

    open spec fn from_spec(err: serde_json::Error) -> Self {
        arbitrary()
    }
}

/// A bare message is a validation error. The result is stated on `from`
/// itself: no value of the model stands for a text that is not yet owned.
impl<'a> From<&'a str> for ReasonerError {
    fn from(msg: &'a str) -> (e: Self)
        ensures
            e.kind() == ErrorKind::Validation,
            e.message() == msg@,
    {
        ReasonerError::ValidationError(String::from_str(msg))
    }
}

impl<'a> FromSpecImpl<&'a str> for ReasonerError {
    open spec fn obeys_from_spec() -> bool {
        false
    }

    open spec fn from_spec(msg: &'a str) -> Self {
        arbitrary()
    }
}

} // verus!
