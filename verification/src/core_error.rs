//! Core error types: the errors of the execution pipeline, each with a code
//! for API responses and an HTTP status.

use vstd::prelude::*;
use vstd::string::*;
use crate::text::owned;

verus! {

/// Core error type.
#[derive(Debug, Clone, PartialEq, Eq)]
pub enum CoreError {
    /// Authentication required.
    AuthRequired,
    /// Access denied by policy.
    AccessDenied(String),
    /// Resource not found.
    NotFound(String),
    /// Validation error.
    Validation(String),
    /// Execution error.
    Execution(String),
    /// Internal error.
    Internal(String),
    /// The feature is designed but not yet implemented.
    NotImplemented {
        /// Feature name.
        feature: &'static str,
        /// Brief explanation.
        message: &'static str,
    },
}

/// Core module result type.
pub type CoreResult<T> = Result<T, CoreError>;

impl CoreError {
    /// The code of the error for API responses.
    pub open spec fn code_text(self) -> Seq<char> {
        match self {
            CoreError::AuthRequired => "AUTH_REQUIRED"@,
            CoreError::AccessDenied(_) => "ACCESS_DENIED"@,
            CoreError::NotFound(_) => "NOT_FOUND"@,
            CoreError::Validation(_) => "VALIDATION_ERROR"@,
            CoreError::Execution(_) => "EXECUTION_ERROR"@,
            CoreError::Internal(_) => "INTERNAL_ERROR"@,
            CoreError::NotImplemented { .. } => "NOT_IMPLEMENTED"@,
        }
    }

    /// The HTTP status of the error.
    pub open spec fn spec_status_code(self) -> u16 {
        match self {
            CoreError::AuthRequired => 401,
            CoreError::AccessDenied(_) => 403,
            CoreError::NotFound(_) => 404,
            CoreError::Validation(_) => 400,
            CoreError::Execution(_) => 500,
            CoreError::Internal(_) => 500,
            CoreError::NotImplemented { .. } => 501,
        }
    }

    /// The text of the error.
    pub open spec fn message_text(self) -> Seq<char> {
        match self {
            CoreError::AuthRequired => "Authentication required"@,
            CoreError::AccessDenied(msg) => "Access denied: "@ + msg@,
            CoreError::NotFound(msg) => "Not found: "@ + msg@,
            CoreError::Validation(msg) => "Validation error: "@ + msg@,
            CoreError::Execution(msg) => "Execution error: "@ + msg@,
            CoreError::Internal(msg) => "Internal error: "@ + msg@,
            CoreError::NotImplemented { feature, message } => "Feature '"@ + feature@
                + "' is not implemented: "@ + message@
                + ". See Design Manifesto for planned design."@,
        }
    }

    /// Create a not found error.
    pub fn not_found(resource: String) -> (r: Self)
        ensures
            r == CoreError::NotFound(resource),
    {
        CoreError::NotFound(resource)
    }

    /// Create a validation error.
    pub fn validation(msg: String) -> (r: Self)
        ensures
            r == CoreError::Validation(msg),
    {
        CoreError::Validation(msg)
    }

    /// Create an access denied error.
    pub fn access_denied(msg: String) -> (r: Self)
        ensures
            r == CoreError::AccessDenied(msg),
    {
        CoreError::AccessDenied(msg)
    }

    /// Create an execution error.
    pub fn execution(msg: String) -> (r: Self)
        ensures
            r == CoreError::Execution(msg),
    {
        CoreError::Execution(msg)
    }

    /// Create an internal error.
    pub fn internal(msg: String) -> (r: Self)
        ensures
            r == CoreError::Internal(msg),
    {
        CoreError::Internal(msg)
    }

    /// Get error code for API responses.
    pub fn code(&self) -> (r: &'static str)
        ensures
            r@ == self.code_text(),
    {
        match self {
            CoreError::AuthRequired => "AUTH_REQUIRED",
            CoreError::AccessDenied(_) => "ACCESS_DENIED",
            CoreError::NotFound(_) => "NOT_FOUND",
            CoreError::Validation(_) => "VALIDATION_ERROR",
            CoreError::Execution(_) => "EXECUTION_ERROR",
            CoreError::Internal(_) => "INTERNAL_ERROR",
            CoreError::NotImplemented { .. } => "NOT_IMPLEMENTED",
        }
    }

    /// Get HTTP status code.
    pub fn status_code(&self) -> (r: u16)
        ensures
            r == self.spec_status_code(),
    {
        match self {
            CoreError::AuthRequired => 401,
            CoreError::AccessDenied(_) => 403,
            CoreError::NotFound(_) => 404,
            CoreError::Validation(_) => 400,
            CoreError::Execution(_) => 500,
            CoreError::Internal(_) => 500,
            CoreError::NotImplemented { .. } => 501,
        }
    }

    /// Create a NotImplemented error for a designed feature.
    pub fn not_implemented(feature: &'static str, message: &'static str) -> (r: Self)
        ensures
            r == (CoreError::NotImplemented { feature, message }),
    {
        CoreError::NotImplemented { feature, message }
    }

    /// The validation error that reports a JSON error with the text given.
    pub fn from_json_error(text: String) -> (r: Self)
        ensures
            r == CoreError::Validation(text),
    {
        CoreError::Validation(text)
    }

    /// The text of the error.
    pub fn to_string(&self) -> (r: String)
        ensures
            r@ == self.message_text(),
    {
        match self {
            CoreError::AuthRequired => owned("Authentication required"),
            CoreError::AccessDenied(msg) => {
                let mut out = owned("Access denied: ");
                out.append(msg.as_str());
                out
            },
            CoreError::NotFound(msg) => {
                let mut out = owned("Not found: ");
                out.append(msg.as_str());
                out
            },
            CoreError::Validation(msg) => {
                let mut out = owned("Validation error: ");
                out.append(msg.as_str());
                out
            },
            CoreError::Execution(msg) => {
                let mut out = owned("Execution error: ");
                out.append(msg.as_str());
                out
            },
            CoreError::Internal(msg) => {
                let mut out = owned("Internal error: ");
                out.append(msg.as_str());
                out
            },
            CoreError::NotImplemented { feature, message } => {
                let mut out = owned("Feature '");
                out.append(feature);
                out.append("' is not implemented: ");
                out.append(message);
                out.append(". See Design Manifesto for planned design.");
                out
            },
        }
    }
}

} // verus!
