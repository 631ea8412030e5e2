//! Error taxonomy of the gateway and the classifications other
//! components rely on: which failures are transient (retryable by the
//! upload orchestrator) and which HTTP status and operator message each
//! category maps to.

use vstd::prelude::*;

verus! {

/// An error surfaced by one of the gateway's core operations.
///
/// `Request` carries the transport classification that the upload retry
/// policy depends on: `timeout` or `connect` mark the failure as caused
/// by a request timeout or a connection failure, the only transient
/// kinds. Every other variant is terminal wherever it occurs.
#[derive(Debug, Clone, PartialEq, Eq)]
pub enum ApiError {
    /// Missing or unreadable process configuration (the upstream credential).
    Env(String),
    /// Transport-level failure talking to the upstream service.
    Request { timeout: bool, connect: bool, message: String },
    /// The upstream service rejected a call (non-2xx status), or a rule of
    /// the gateway itself was violated; carries the diagnostic text.
    Api(String),
    /// A request URL could not be parsed or assembled.
    UrlParse(String),
    /// A response or metadata body could not be encoded or decoded.
    Json(String),
}

impl ApiError {
    /// A failure is transient exactly when it is a transport failure
    /// caused by a timeout or a connection failure.
    pub open spec fn spec_retryable(&self) -> bool {
        match self {
            ApiError::Request { timeout, connect, message: _ } => *timeout || *connect,
            _ => false,
        }
    }

    /// Decides whether the upload orchestrator may retry after this error.
    pub fn is_retryable(&self) -> (r: bool)
        ensures
            r == self.spec_retryable(),
    {
        match self {
            ApiError::Request { timeout, connect, message: _ } => *timeout || *connect,
            _ => false,
        }
    }

    /// The HTTP status code this error is reported under.
    pub open spec fn spec_status(&self) -> u16 {
        match self {
            ApiError::Env(_) => 500,
            ApiError::Request { .. } => 502,
            ApiError::Api(_) => 502,
            ApiError::UrlParse(_) => 500,
            ApiError::Json(_) => 500,
        }
    }

    /// The generic category message shown for this error, alongside the
    /// original diagnostic text.
    pub open spec fn spec_category_message(&self) -> Seq<char> {
        match self {
            ApiError::Env(_) => "Server configuration error"@,
            ApiError::Request { .. } => "Error communicating with external service"@,
            ApiError::Api(_) => "External API error"@,
            ApiError::UrlParse(_) => "URL parsing error"@,
            ApiError::Json(_) => "JSON parsing error"@,
        }
    }

    /// The diagnostic text carried by this error.
    pub open spec fn spec_detail(&self) -> Seq<char> {
        match self {
            ApiError::Env(s) => s@,
            ApiError::Request { timeout: _, connect: _, message } => message@,
            ApiError::Api(s) => s@,
            ApiError::UrlParse(s) => s@,
            ApiError::Json(s) => s@,
        }
    }

    /// Maps the error to the HTTP status code and generic category
    /// message it is reported under; the original diagnostic text is
    /// never part of the category message.
    pub fn response_parts(&self) -> (r: (u16, String))
        ensures
            r.0 == self.spec_status(),
            r.1@ == self.spec_category_message(),
    {
        match self {
            ApiError::Env(_) => (500, "Server configuration error".to_owned()),
            ApiError::Request { .. } => (502, "Error communicating with external service".to_owned()),
            ApiError::Api(_) => (502, "External API error".to_owned()),
            ApiError::UrlParse(_) => (500, "URL parsing error".to_owned()),
            ApiError::Json(_) => (500, "JSON parsing error".to_owned()),
        }
    }

    /// Hands out the diagnostic text, for logging and response bodies.
    pub fn detail(&self) -> (r: String)
        ensures
            r@ == self.spec_detail(),
    {
        match self {
            ApiError::Env(s) => s.clone(),
            ApiError::Request { timeout: _, connect: _, message } => message.clone(),
            ApiError::Api(s) => s.clone(),
            ApiError::UrlParse(s) => s.clone(),
            ApiError::Json(s) => s.clone(),
        }
    }
}

impl From<String> for ApiError {
    /// A bare message is a general API failure.
    fn from(message: String) -> (r: Self) {
        ApiError::Api(message)
    }
}

impl vstd::std_specs::convert::FromSpecImpl<String> for ApiError {
    open spec fn obeys_from_spec() -> bool {
        true
    }

    open spec fn from_spec(message: String) -> Self {
        ApiError::Api(message)
    }
}

} // verus!
