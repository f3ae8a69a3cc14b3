//! Migration errors.

use vstd::prelude::*;
use vstd::string::*;
use crate::text::{debug_quoted, debug_text, decimal, owned, push_decimal};

verus! {

/// Result type for migrations.
pub type MigrationResult<T> = Result<T, MigrationError>;

/// An error of a migration. Paths and causes are texts.
#[derive(Debug, Clone, PartialEq, Eq)]
#[allow(inconsistent_fields)]
pub enum MigrationError {
    FileRead { path: String, source: String },
    FileWrite { path: String, source: String },
    ParseError { path: String, message: String },
    ChecksumMismatch { migration: String, expected: String, actual: String },
    InvalidMigration { reason: String },
    DuplicateVersion { version: u64 },
    MigrationNotFound { version: u64 },
    CannotApply { version: u64, reason: String },
    CannotRollback { version: u64, reason: String },
    ExecutionFailed { version: u64, operation: String, reason: String },
    DirectoryNotFound { path: String },
    StateError { message: String },
    MigrationLocked { holder: String, since: String },
    Internal { message: String },
}

impl MigrationError {
    /// The text of the error. Paths are shown in their `Debug` form.
    pub open spec fn message_text(self) -> Seq<char> {
        match self {
            MigrationError::FileRead { path, source } => "Failed to read migration file "@
                + debug_quoted(path@) + ": "@ + source@,
            MigrationError::FileWrite { path, source } => "Failed to write migration file "@
                + debug_quoted(path@) + ": "@ + source@,
            MigrationError::ParseError { path, message } => "Failed to parse migration "@
                + debug_quoted(path@) + ": "@ + message@,
            MigrationError::ChecksumMismatch { migration, expected, actual } => "Checksum mismatch for migration '"@
                + migration@ + "': expected "@ + expected@ + ", got "@ + actual@
                + ". Migration file may have been manually modified."@,
            MigrationError::InvalidMigration { reason } => "Invalid migration: "@ + reason@,
            MigrationError::DuplicateVersion { version } => "Migration version "@ + decimal(
                version as nat,
            ) + " already exists"@,
            MigrationError::MigrationNotFound { version } => "Migration version "@ + decimal(
                version as nat,
            ) + " not found"@,
            MigrationError::CannotApply { version, reason } => "Cannot apply migration "@
                + decimal(version as nat) + ": "@ + reason@,
            MigrationError::CannotRollback { version, reason } => "Cannot rollback migration "@
                + decimal(version as nat) + ": "@ + reason@,
            MigrationError::ExecutionFailed { version, operation, reason } => "Migration "@
                + decimal(version as nat) + " failed at operation '"@ + operation@ + "': "@
                + reason@,
            MigrationError::DirectoryNotFound { path } => "Migration directory not found: "@
                + debug_quoted(path@),
            MigrationError::StateError { message } => "Migration state error: "@ + message@,
            MigrationError::MigrationLocked { holder, since } => "Migration locked by '"@
                + holder@ + "' since "@ + since@ + ". Another migration may be in progress."@,
            MigrationError::Internal { message } => "Internal migration error: "@ + message@,
        }
    }

    /// The text of the error.
    pub fn to_string(&self) -> (r: String)
        ensures
            r@ == self.message_text(),
    {
        match self {
            MigrationError::FileRead { path, source } => {
                let mut out = owned("Failed to read migration file ");
                let quoted = debug_text(path.as_str());
                out.append(quoted.as_str());
                out.append(": ");
                out.append(source.as_str());
                out
            },
            MigrationError::FileWrite { path, source } => {
                let mut out = owned("Failed to write migration file ");
                let quoted = debug_text(path.as_str());
                out.append(quoted.as_str());
                out.append(": ");
                out.append(source.as_str());
                out
            },
            MigrationError::ParseError { path, message } => {
                let mut out = owned("Failed to parse migration ");
                let quoted = debug_text(path.as_str());
                out.append(quoted.as_str());
                out.append(": ");
                out.append(message.as_str());
                out
            },
            MigrationError::ChecksumMismatch { migration, expected, actual } => {
                let mut out = owned("Checksum mismatch for migration '");
                out.append(migration.as_str());
                out.append("': expected ");
                out.append(expected.as_str());
                out.append(", got ");
                out.append(actual.as_str());
                out.append(". Migration file may have been manually modified.");
                out
            },
            MigrationError::InvalidMigration { reason } => {
                let mut out = owned("Invalid migration: ");
                out.append(reason.as_str());
                out
            },
            MigrationError::DuplicateVersion { version } => {
                let mut out = owned("Migration version ");
                push_decimal(&mut out, *version);
                out.append(" already exists");
                out
            },
            MigrationError::MigrationNotFound { version } => {
                let mut out = owned("Migration version ");
                push_decimal(&mut out, *version);
                out.append(" not found");
                out
            },
            MigrationError::CannotApply { version, reason } => {
                let mut out = owned("Cannot apply migration ");
                push_decimal(&mut out, *version);
                out.append(": ");
                out.append(reason.as_str());
                out
            },
            MigrationError::CannotRollback { version, reason } => {
                let mut out = owned("Cannot rollback migration ");
                push_decimal(&mut out, *version);
                out.append(": ");
                out.append(reason.as_str());
                out
            },
            MigrationError::ExecutionFailed { version, operation, reason } => {
                let mut out = owned("Migration ");
                push_decimal(&mut out, *version);
                out.append(" failed at operation '");
                out.append(operation.as_str());
                out.append("': ");
                out.append(reason.as_str());
                out
            },
            MigrationError::DirectoryNotFound { path } => {
                let mut out = owned("Migration directory not found: ");
                let quoted = debug_text(path.as_str());
                out.append(quoted.as_str());
                out
            },
            MigrationError::StateError { message } => {
                let mut out = owned("Migration state error: ");
                out.append(message.as_str());
                out
            },
            MigrationError::MigrationLocked { holder, since } => {
                let mut out = owned("Migration locked by '");
                out.append(holder.as_str());
                out.append("' since ");
                out.append(since.as_str());
                out.append(". Another migration may be in progress.");
                out
            },
            MigrationError::Internal { message } => {
                let mut out = owned("Internal migration error: ");
                out.append(message.as_str());
                out
            },
        }
    }

    /// The error that reports an I/O failure with the text given.
    pub fn from_io_error(text: String) -> (r: Self)
        ensures
            r == (MigrationError::Internal { message: text }),
    {
        MigrationError::Internal { message: text }
    }

    /// The error that reports a YAML failure with the text given.
    pub fn from_yaml_error(text: String) -> (r: Self)
        ensures
            r is ParseError,
            r->ParseError_path@ == Seq::<char>::empty(),
            r->ParseError_message == text,
    {
        MigrationError::ParseError { path: String::new(), message: text }
    }
}

} // verus!
