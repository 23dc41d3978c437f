//! Error model shared by configuration, acquisition, and inference code.

use vstd::prelude::*;

verus! {

/// Error raised by the service core.
///
/// The variants form the stable error taxonomy: `Unauthorized` and
/// `InvalidRequest` describe a caller mistake, `UnsupportedMediaType` and
/// `BadMultipart` a malformed upload, `Backend` an inference-engine failure,
/// and `Internal` a configuration or acquisition failure.
#[derive(Debug, PartialEq, Eq)]
pub enum AppError {
    Unauthorized(String),
    InvalidRequest { message: String, param: Option<String>, code: Option<String> },
    UnsupportedMediaType(String),
    BadMultipart(String),
    Backend(String),
    Internal(String),
}

impl AppError {
    /// The human-readable message carried by the error.
    pub open spec fn spec_message(&self) -> Seq<char> {
        match self {
            AppError::Unauthorized(m) => m@,
            AppError::InvalidRequest { message, .. } => message@,
            AppError::UnsupportedMediaType(m) => m@,
            AppError::BadMultipart(m) => m@,
            AppError::Backend(m) => m@,
            AppError::Internal(m) => m@,
        }
    }

    /// Creates a `401 Unauthorized` error.
    pub fn unauthorized(message: String) -> (r: Self)
        ensures
            r == AppError::Unauthorized(message),
    {
        AppError::Unauthorized(message)
    }

    /// Creates an invalid-request error with an optional offending parameter
    /// name and machine-readable code.
    pub fn invalid_request(message: String, param: Option<String>, code: Option<String>) -> (r:
        Self)
        ensures
            (r == AppError::InvalidRequest { message, param, code }),
    {
        AppError::InvalidRequest { message, param, code }
    }

    /// Creates an unsupported-media-type error.
    pub fn unsupported_media_type(message: String) -> (r: Self)
        ensures
            r == AppError::UnsupportedMediaType(message),
    {
        AppError::UnsupportedMediaType(message)
    }

    /// Creates a multipart parsing/shape validation error.
    pub fn bad_multipart(message: String) -> (r: Self)
        ensures
            r == AppError::BadMultipart(message),
    {
        AppError::BadMultipart(message)
    }

    /// Creates an internal inference/backend error.
    pub fn backend(message: String) -> (r: Self)
        ensures
            r == AppError::Backend(message),
    {
        AppError::Backend(message)
    }

    /// Creates a generic internal server error.
    pub fn internal(message: String) -> (r: Self)
        ensures
            r == AppError::Internal(message),
    {
        AppError::Internal(message)
    }

    /// Returns the error's message, the text a display implementation
    /// would show.
    pub fn to_string(&self) -> (r: String)
        ensures
            r@ == self.spec_message(),
    {
        match self {
            AppError::Unauthorized(m) => m.clone(),
            AppError::InvalidRequest { message, .. } => message.clone(),
            AppError::UnsupportedMediaType(m) => m.clone(),
            AppError::BadMultipart(m) => m.clone(),
            AppError::Backend(m) => m.clone(),
            AppError::Internal(m) => m.clone(),
        }
    }
}

} // verus!
