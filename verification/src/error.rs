//! The error taxonomy of the tool.
//!
//! `ApiError` covers everything that can go wrong while talking to the
//! registry; `DredgeError` is the top-level error of the program. Payloads
//! are plain strings, so every variant can be stated about and compared
//! in contracts.

use vstd::prelude::*;

verus! {

/// An error related to the communication with the registry API.
#[derive(Debug)]
pub enum ApiError {
    /// A URL could not be built from the registry base and a path.
    UrlParseError,
    /// The HTTP request failed at the transport level, or a response body
    /// could not be decoded against the expected schema.
    HttpError(String),
    /// A response header held bytes that do not read as visible ASCII text.
    ResponseHeaderParseError,
    /// The version header carried a value other than the supported one.
    UnsupportedVersion(String),
    /// The response does not fit the Distribution API specification.
    UnexpectedResponse(String),
    /// HTTP authorization failed.
    AuthorizationFailed,
    /// The resource was not found.
    NotFound,
    /// Writing rendered output failed.
    IOError(String),
    /// Rendering a result for display failed.
    SerializerError(String),
    /// The method is not allowed on this endpoint.
    MethodNotAllowed,
}

/// The common error type for the whole application.
#[derive(Debug)]
pub enum DredgeError {
    /// An error communicating with the registry API.
    ApiError(ApiError),
    /// The registry URL could not be determined from the given argument.
    RegistryUrlError(String),
    /// An input/output error outside the API exchange.
    IOError(String),
    /// Installing the logger failed.
    LoggerError(String),
}

impl From<ApiError> for DredgeError {
    fn from(other: ApiError) -> Self {
        DredgeError::ApiError(other)
    }
}

impl vstd::std_specs::convert::FromSpecImpl<ApiError> for DredgeError {
    open spec fn obeys_from_spec() -> bool {
        true
    }

    open spec fn from_spec(other: ApiError) -> Self {
        DredgeError::ApiError(other)
    }
}

} // verus!
