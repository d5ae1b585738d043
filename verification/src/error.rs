//! The errors of the service, by kind, each with its message.

use vstd::prelude::*;

verus! {

/// An error of the service: its kind, which decides the HTTP answer, and its message.
#[derive(Debug, Clone, PartialEq, Eq)]
pub enum AppError {
    /// The ClickUp API refused or failed a call.
    ClickUpApi(String),
    /// The configuration is missing or invalid.
    ConfigError(String),
    /// An HTTP call failed.
    HttpError(String),
    /// Something the service itself could not do.
    InternalError(String),
    /// A service needed for the answer is not available.
    ServiceUnavailable(String),
    /// No client folder or list was found.
    StructureNotFound(String),
    /// The request is invalid.
    ValidationError(String),
    /// Vertex AI, or a media file for it, failed.
    VertexError(String),
}

/// The message of an error.
pub open spec fn error_message(e: AppError) -> Seq<char> {
    match e {
        AppError::ClickUpApi(m) => m@,
        AppError::ConfigError(m) => m@,
        AppError::HttpError(m) => m@,
        AppError::InternalError(m) => m@,
        AppError::ServiceUnavailable(m) => m@,
        AppError::StructureNotFound(m) => m@,
        AppError::ValidationError(m) => m@,
        AppError::VertexError(m) => m@,
    }
}

impl AppError {
    /// The message of the error.
    pub fn message(&self) -> (r: &String)
        ensures
            r@ == error_message(*self),
    {
        match self {
            AppError::ClickUpApi(m) => m,
            AppError::ConfigError(m) => m,
            AppError::HttpError(m) => m,
            AppError::InternalError(m) => m,
            AppError::ServiceUnavailable(m) => m,
            AppError::StructureNotFound(m) => m,
            AppError::ValidationError(m) => m,
            AppError::VertexError(m) => m,
        }
    }
}

} // verus!
