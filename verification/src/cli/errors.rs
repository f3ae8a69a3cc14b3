//! Errors of the command line and the exit codes that report them.

use vstd::prelude::*;
use crate::text::owned;

verus! {

/// The kind of an error of the command line.
#[derive(Debug, Clone, Copy, PartialEq, Eq, Structural)]
pub enum CliErrorCode {
    /// The data directory is initialized already.
    AlreadyInitialized,
    /// The data directory is not initialized.
    NotInitialized,
    /// The configuration is not valid.
    ConfigError,
    /// Reading or writing failed.
    IoError,
    /// Boot failed: the system does not serve.
    BootFailed,
    /// A fatal error while serving.
    RuntimeError,
}

impl CliErrorCode {
    /// The stable code of the kind.
    pub open spec fn code_text(self) -> Seq<char> {
        match self {
            CliErrorCode::AlreadyInitialized => "AERO_CLI_ALREADY_INITIALIZED"@,
            CliErrorCode::NotInitialized => "AERO_CLI_NOT_INITIALIZED"@,
            CliErrorCode::ConfigError => "AERO_CLI_CONFIG_ERROR"@,
            CliErrorCode::IoError => "AERO_CLI_IO_ERROR"@,
            CliErrorCode::BootFailed => "AERO_CLI_BOOT_FAILED"@,
            CliErrorCode::RuntimeError => "AERO_CLI_RUNTIME_ERROR"@,
        }
    }

    /// The exit code of the process: 2 for a directory that is initialized
    /// already, 3 for an invalid configuration, 4 for an I/O error, 5 for a
    /// failed boot, to which a directory that is not initialized belongs,
    /// and 6 for a fatal error while serving.
    pub open spec fn spec_exit_code(self) -> u8 {
        match self {
            CliErrorCode::AlreadyInitialized => 2,
            CliErrorCode::ConfigError => 3,
            CliErrorCode::IoError => 4,
            CliErrorCode::NotInitialized => 5,
            CliErrorCode::BootFailed => 5,
            CliErrorCode::RuntimeError => 6,
        }
    }

    /// The stable code of the kind.
    pub fn as_str(&self) -> (r: &'static str)
        ensures
            r@ == self.code_text(),
    {
        match self {
            CliErrorCode::AlreadyInitialized => "AERO_CLI_ALREADY_INITIALIZED",
            CliErrorCode::NotInitialized => "AERO_CLI_NOT_INITIALIZED",
            CliErrorCode::ConfigError => "AERO_CLI_CONFIG_ERROR",
            CliErrorCode::IoError => "AERO_CLI_IO_ERROR",
            CliErrorCode::BootFailed => "AERO_CLI_BOOT_FAILED",
            CliErrorCode::RuntimeError => "AERO_CLI_RUNTIME_ERROR",
        }
    }

    /// The exit code of the process.
    pub fn exit_code(&self) -> (r: u8)
        ensures
            r == self.spec_exit_code(),
    {
        match self {
            CliErrorCode::AlreadyInitialized => 2,
            CliErrorCode::ConfigError => 3,
            CliErrorCode::IoError => 4,
            CliErrorCode::NotInitialized => 5,
            CliErrorCode::BootFailed => 5,
            CliErrorCode::RuntimeError => 6,
        }
    }
}

/// An error of the command line.
#[derive(Debug, Clone, PartialEq, Eq)]
pub struct CliError {
    code: CliErrorCode,
    message: String,
}

/// Result type of the command line.
pub type CliResult<T> = Result<T, CliError>;

impl CliError {
    /// The kind of the error.
    pub closed spec fn spec_code(&self) -> CliErrorCode {
        self.code
    }

    /// The message of the error.
    pub closed spec fn spec_message(&self) -> Seq<char> {
        self.message@
    }

    /// Whether the error has the kind and the message given.
    pub open spec fn is(&self, code: CliErrorCode, message: Seq<char>) -> bool {
        self.spec_code() == code && self.spec_message() == message
    }

    /// The configuration is not valid.
    pub fn config_error(message: String) -> (r: Self)
        ensures
            r.is(CliErrorCode::ConfigError, message@),
    {
        CliError { code: CliErrorCode::ConfigError, message }
    }

    /// The data directory is initialized already.
    pub fn already_initialized() -> (r: Self)
        ensures
            r.is(CliErrorCode::AlreadyInitialized, "Data directory is already initialized"@),
    {
        CliError {
            code: CliErrorCode::AlreadyInitialized,
            message: owned("Data directory is already initialized"),
        }
    }

    /// The data directory is not initialized.
    pub fn not_initialized() -> (r: Self)
        ensures
            r.is(
                CliErrorCode::NotInitialized,
                "Data directory is not initialized. Run 'aerodb init' first."@,
            ),
    {
        CliError {
            code: CliErrorCode::NotInitialized,
            message: owned("Data directory is not initialized. Run 'aerodb init' first."),
        }
    }

    /// Reading or writing failed.
    pub fn io_error(message: String) -> (r: Self)
        ensures
            r.is(CliErrorCode::IoError, message@),
    {
        CliError { code: CliErrorCode::IoError, message }
    }

    /// Boot failed.
    pub fn boot_failed(message: String) -> (r: Self)
        ensures
            r.is(CliErrorCode::BootFailed, message@),
    {
        CliError { code: CliErrorCode::BootFailed, message }
    }

    /// A fatal error while serving.
    pub fn runtime_error(message: String) -> (r: Self)
        ensures
            r.is(CliErrorCode::RuntimeError, message@),
    {
        CliError { code: CliErrorCode::RuntimeError, message }
    }

    /// The kind of the error.
    pub fn code(&self) -> (r: &CliErrorCode)
        ensures
            *r == self.spec_code(),
    {
        &self.code
    }

    /// The stable code of the error.
    pub fn code_str(&self) -> (r: &'static str)
        ensures
            r@ == self.spec_code().code_text(),
    {
        self.code.as_str()
    }

    /// The message of the error.
    pub fn message(&self) -> (r: &str)
        ensures
            r@ == self.spec_message(),
    {
        self.message.as_str()
    }

    /// The exit code of the process.
    pub fn exit_code(&self) -> (r: u8)
        ensures
            r == self.spec_code().spec_exit_code(),
    {
        self.code.exit_code()
    }
}

} // verus!
