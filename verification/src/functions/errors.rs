//! Function errors.

use vstd::prelude::*;
use vstd::string::*;
use crate::text::{decimal, owned, push_decimal};

verus! {

/// Function errors.
#[derive(Debug, Clone, PartialEq, Eq)]
pub enum FunctionError {
    NotFound(String),
    AlreadyExists(String),
    CompilationError(String),
    Timeout(u64),
    MemoryExceeded(u32),
    RuntimeError(String),
    InvalidTrigger(String),
    InvalidCron(String),
    Internal(String),
    /// A WASM module does not export a required function.
    MissingExport { export_name: &'static str },
    /// A host function is declared but not bound.
    HostFunctionNotBound { function_name: &'static str },
}

/// Result type for function operations.
pub type FunctionResult<T> = Result<T, FunctionError>;

impl FunctionError {
    /// The HTTP status of the error.
    pub open spec fn spec_status_code(self) -> u16 {
        match self {
            FunctionError::NotFound(_) => 404,
            FunctionError::AlreadyExists(_) => 409,
            FunctionError::CompilationError(_) => 400,
            FunctionError::Timeout(_) => 504,
            FunctionError::MemoryExceeded(_) => 500,
            FunctionError::RuntimeError(_) => 500,
            FunctionError::InvalidTrigger(_) => 400,
            FunctionError::InvalidCron(_) => 400,
            FunctionError::Internal(_) => 500,
            FunctionError::MissingExport { .. } => 400,
            FunctionError::HostFunctionNotBound { .. } => 501,
        }
    }

    /// The text of the error.
    pub open spec fn message_text(self) -> Seq<char> {
        match self {
            FunctionError::NotFound(s) => "Function not found: "@ + s@,
            FunctionError::AlreadyExists(s) => "Function already exists: "@ + s@,
            FunctionError::CompilationError(s) => "Compilation error: "@ + s@,
            FunctionError::Timeout(ms) => "Function timeout after "@ + decimal(ms as nat) + "ms"@,
            FunctionError::MemoryExceeded(mb) => "Memory limit exceeded: "@ + decimal(mb as nat)
                + "MB"@,
            FunctionError::RuntimeError(s) => "Runtime error: "@ + s@,
            FunctionError::InvalidTrigger(s) => "Invalid trigger: "@ + s@,
            FunctionError::InvalidCron(s) => "Invalid cron expression: "@ + s@,
            FunctionError::Internal(s) => "Internal error: "@ + s@,
            FunctionError::MissingExport { export_name } => "WASM module must export '"@
                + export_name@ + "' function. No silent success allowed."@,
            FunctionError::HostFunctionNotBound { function_name } => "Host function '"@
                + function_name@
                + "' is not implemented. WASM modules cannot call unbound host functions."@,
        }
    }

    /// Get HTTP status code.
    pub fn status_code(&self) -> (r: u16)
        ensures
            r == self.spec_status_code(),
    {
        match self {
            FunctionError::NotFound(_) => 404,
            FunctionError::AlreadyExists(_) => 409,
            FunctionError::CompilationError(_) => 400,
            FunctionError::Timeout(_) => 504,
            FunctionError::MemoryExceeded(_) => 500,
            FunctionError::RuntimeError(_) => 500,
            FunctionError::InvalidTrigger(_) => 400,
            FunctionError::InvalidCron(_) => 400,
            FunctionError::Internal(_) => 500,
            FunctionError::MissingExport { .. } => 400,
            FunctionError::HostFunctionNotBound { .. } => 501,
        }
    }

    /// The text of the error.
    pub fn to_string(&self) -> (r: String)
        ensures
            r@ == self.message_text(),
    {
        match self {
            FunctionError::NotFound(s) => {
                let mut out = owned("Function not found: ");
                out.append(s.as_str());
                out
            },
            FunctionError::AlreadyExists(s) => {
                let mut out = owned("Function already exists: ");
                out.append(s.as_str());
                out
            },
            FunctionError::CompilationError(s) => {
                let mut out = owned("Compilation error: ");
                out.append(s.as_str());
                out
            },
            FunctionError::Timeout(ms) => {
                let mut out = owned("Function timeout after ");
                push_decimal(&mut out, *ms);
                out.append("ms");
                out
            },
            FunctionError::MemoryExceeded(mb) => {
                let mut out = owned("Memory limit exceeded: ");
                push_decimal(&mut out, *mb as u64);
                out.append("MB");
                out
            },
            FunctionError::RuntimeError(s) => {
                let mut out = owned("Runtime error: ");
                out.append(s.as_str());
                out
            },
            FunctionError::InvalidTrigger(s) => {
                let mut out = owned("Invalid trigger: ");
                out.append(s.as_str());
                out
            },
            FunctionError::InvalidCron(s) => {
                let mut out = owned("Invalid cron expression: ");
                out.append(s.as_str());
                out
            },
            FunctionError::Internal(s) => {
                let mut out = owned("Internal error: ");
                out.append(s.as_str());
                out
            },
            FunctionError::MissingExport { export_name } => {
                let mut out = owned("WASM module must export '");
                out.append(export_name);
                out.append("' function. No silent success allowed.");
                out
            },
            FunctionError::HostFunctionNotBound { function_name } => {
                let mut out = owned("Host function '");
                out.append(function_name);
                out.append(
                    "' is not implemented. WASM modules cannot call unbound host functions.",
                );
                out
            },
        }
    }
}

} // verus!
