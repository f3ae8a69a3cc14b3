//! Backup error types. Every error has a stable code of the form
//! `AERO_BACKUP_<REASON>` and a severity.

use vstd::prelude::*;
use vstd::string::*;
use crate::text::owned;

verus! {

/// Backup error code.
#[derive(Debug, Clone, Copy, PartialEq, Eq, Structural)]
pub enum BackupErrorCode {
    /// Snapshot creation failed.
    AeroBackupSnapshotFailed,
    /// Archive creation failed.
    AeroBackupArchiveFailed,
    /// Backup not found.
    AeroBackupNotFound,
    /// Retention policy enforcement failed.
    AeroBackupRetentionFailed,
    /// I/O error during backup.
    AeroBackupIoError,
    /// Invalid backup configuration.
    AeroBackupInvalidConfig,
    /// Backup directory not accessible.
    AeroBackupDirNotAccessible,
}

/// Severity level for backup errors.
#[derive(Debug, Clone, Copy, PartialEq, Eq, Structural)]
pub enum Severity {
    Warning,
    Error,
    Fatal,
}

impl Severity {
    /// The severity in capitals.
    pub open spec fn name_text(self) -> Seq<char> {
        match self {
            Severity::Warning => "WARNING"@,
            Severity::Error => "ERROR"@,
            Severity::Fatal => "FATAL"@,
        }
    }

    /// The severity in capitals.
    pub fn as_str(&self) -> (r: &'static str)
        ensures
            r@ == self.name_text(),
    {
        match self {
            Severity::Warning => "WARNING",
            Severity::Error => "ERROR",
            Severity::Fatal => "FATAL",
        }
    }

    /// The severity in capitals, as an owned string.
    pub fn to_string(&self) -> (r: String)
        ensures
            r@ == self.name_text(),
    {
        owned(self.as_str())
    }
}

impl BackupErrorCode {
    /// The code's text.
    pub open spec fn code_text(self) -> Seq<char> {
        match self {
            BackupErrorCode::AeroBackupSnapshotFailed => "AERO_BACKUP_SNAPSHOT_FAILED"@,
            BackupErrorCode::AeroBackupArchiveFailed => "AERO_BACKUP_ARCHIVE_FAILED"@,
            BackupErrorCode::AeroBackupNotFound => "AERO_BACKUP_NOT_FOUND"@,
            BackupErrorCode::AeroBackupRetentionFailed => "AERO_BACKUP_RETENTION_FAILED"@,
            BackupErrorCode::AeroBackupIoError => "AERO_BACKUP_IO_ERROR"@,
            BackupErrorCode::AeroBackupInvalidConfig => "AERO_BACKUP_INVALID_CONFIG"@,
            BackupErrorCode::AeroBackupDirNotAccessible => "AERO_BACKUP_DIR_NOT_ACCESSIBLE"@,
        }
    }

    /// The code's severity: a missing backup is a warning, all else an error.
    pub open spec fn spec_severity(self) -> Severity {
        match self {
            BackupErrorCode::AeroBackupNotFound => Severity::Warning,
            _ => Severity::Error,
        }
    }

    /// Returns the string representation.
    pub fn as_str(&self) -> (r: &'static str)
        ensures
            r@ == self.code_text(),
    {
        match self {
            BackupErrorCode::AeroBackupSnapshotFailed => "AERO_BACKUP_SNAPSHOT_FAILED",
            BackupErrorCode::AeroBackupArchiveFailed => "AERO_BACKUP_ARCHIVE_FAILED",
            BackupErrorCode::AeroBackupNotFound => "AERO_BACKUP_NOT_FOUND",
            BackupErrorCode::AeroBackupRetentionFailed => "AERO_BACKUP_RETENTION_FAILED",
            BackupErrorCode::AeroBackupIoError => "AERO_BACKUP_IO_ERROR",
            BackupErrorCode::AeroBackupInvalidConfig => "AERO_BACKUP_INVALID_CONFIG",
            BackupErrorCode::AeroBackupDirNotAccessible => "AERO_BACKUP_DIR_NOT_ACCESSIBLE",
        }
    }

    /// Returns the severity level.
    pub fn severity(&self) -> (r: Severity)
        ensures
            r == self.spec_severity(),
    {
        match self {
            BackupErrorCode::AeroBackupNotFound => Severity::Warning,
            _ => Severity::Error,
        }
    }

    /// The code's text as an owned string.
    pub fn to_string(&self) -> (r: String)
        ensures
            r@ == self.code_text(),
    {
        owned(self.as_str())
    }
}

/// Backup error with context: a code, a message, and where known the path
/// concerned and the text of the underlying cause.
#[derive(Debug, Clone, PartialEq, Eq)]
pub struct BackupError {
    code: BackupErrorCode,
    message: String,
    path: Option<String>,
    source: Option<String>,
}

/// The text after the message that names the path, if there is one.
pub open spec fn path_suffix(path: Option<Seq<char>>) -> Seq<char> {
    match path {
        Some(p) => " (path: "@ + p + ")"@,
        None => Seq::<char>::empty(),
    }
}

/// The text at the end that names the cause, if there is one.
pub open spec fn source_suffix(source: Option<Seq<char>>) -> Seq<char> {
    match source {
        Some(s) => " (caused by: "@ + s + ")"@,
        None => Seq::<char>::empty(),
    }
}

impl BackupError {
    /// The error's code.
    pub closed spec fn spec_code(&self) -> BackupErrorCode {
        self.code
    }

    /// The error's message.
    pub closed spec fn spec_message(&self) -> Seq<char> {
        self.message@
    }

    /// The path concerned, if known.
    pub closed spec fn spec_path(&self) -> Option<Seq<char>> {
        match self.path {
            Some(p) => Some(p@),
            None => None,
        }
    }

    /// The text of the underlying cause, if known.
    pub closed spec fn spec_source(&self) -> Option<Seq<char>> {
        match self.source {
            Some(s) => Some(s@),
            None => None,
        }
    }

    /// The error has the given code and message and neither path nor cause.
    pub open spec fn is_plain(&self, code: BackupErrorCode, message: Seq<char>) -> bool {
        &&& self.spec_code() == code
        &&& self.spec_message() == message
        &&& self.spec_path() is None
        &&& self.spec_source() is None
    }

    /// The error rendered as one line.
    pub open spec fn display_text(&self) -> Seq<char> {
        "["@ + self.spec_code().spec_severity().name_text() + "] "@ + self.spec_code().code_text()
            + ": "@ + self.spec_message() + path_suffix(self.spec_path()) + source_suffix(
            self.spec_source(),
        )
    }

    /// Create a new backup error.
    pub fn new(code: BackupErrorCode, message: String) -> (r: Self)
        ensures
            r.is_plain(code, message@),
    {
        BackupError { code, message, path: None, source: None }
    }

    /// Create error with path context.
    pub fn with_path(self, path: String) -> (r: Self)
        ensures
            r.spec_code() == self.spec_code(),
            r.spec_message() == self.spec_message(),
            r.spec_path() == Some(path@),
            r.spec_source() == self.spec_source(),
    {
        let mut e = self;
        e.path = Some(path);
        e
    }

    /// Create error with the text of the underlying cause.
    pub fn with_source(self, source: String) -> (r: Self)
        ensures
            r.spec_code() == self.spec_code(),
            r.spec_message() == self.spec_message(),
            r.spec_path() == self.spec_path(),
            r.spec_source() == Some(source@),
    {
        let mut e = self;
        e.source = Some(source);
        e
    }

    /// Snapshot creation failed.
    pub fn snapshot_failed(message: String) -> (r: Self)
        ensures
            r.is_plain(BackupErrorCode::AeroBackupSnapshotFailed, message@),
    {
        BackupError::new(BackupErrorCode::AeroBackupSnapshotFailed, message)
    }

    /// Archive creation failed.
    pub fn archive_failed(message: String) -> (r: Self)
        ensures
            r.is_plain(BackupErrorCode::AeroBackupArchiveFailed, message@),
    {
        BackupError::new(BackupErrorCode::AeroBackupArchiveFailed, message)
    }

    /// Backup not found.
    pub fn not_found(backup_id: &str) -> (r: Self)
        ensures
            r.is_plain(BackupErrorCode::AeroBackupNotFound, "Backup not found: "@ + backup_id@),
    {
        let mut message = owned("Backup not found: ");
        message.append(backup_id);
        BackupError::new(BackupErrorCode::AeroBackupNotFound, message)
    }

    /// Retention policy failed.
    pub fn retention_failed(message: String) -> (r: Self)
        ensures
            r.is_plain(BackupErrorCode::AeroBackupRetentionFailed, message@),
    {
        BackupError::new(BackupErrorCode::AeroBackupRetentionFailed, message)
    }

    /// I/O error: `cause` is the text of the failure, `context` says what was
    /// being done.
    pub fn io_error(cause: String, context: String) -> (r: Self)
        ensures
            r.spec_code() == BackupErrorCode::AeroBackupIoError,
            r.spec_message() == context@,
            r.spec_path() is None,
            r.spec_source() == Some(cause@),
    {
        BackupError::new(BackupErrorCode::AeroBackupIoError, context).with_source(cause)
    }

    /// Invalid configuration.
    pub fn invalid_config(message: String) -> (r: Self)
        ensures
            r.is_plain(BackupErrorCode::AeroBackupInvalidConfig, message@),
    {
        BackupError::new(BackupErrorCode::AeroBackupInvalidConfig, message)
    }

    /// Directory not accessible.
    pub fn dir_not_accessible(path: String) -> (r: Self)
        ensures
            r.spec_code() == BackupErrorCode::AeroBackupDirNotAccessible,
            r.spec_message() == "Backup directory not accessible: "@ + path@,
            r.spec_path() == Some(path@),
            r.spec_source() is None,
    {
        let mut message = owned("Backup directory not accessible: ");
        message.append(path.as_str());
        BackupError::new(BackupErrorCode::AeroBackupDirNotAccessible, message).with_path(path)
    }

    /// Get the error code.
    pub fn code(&self) -> (r: BackupErrorCode)
        ensures
            r == self.spec_code(),
    {
        self.code
    }

    /// Get the message.
    pub fn message(&self) -> (r: &str)
        ensures
            r@ == self.spec_message(),
    {
        self.message.as_str()
    }

    /// Get the path if present.
    pub fn path(&self) -> (r: Option<&String>)
        ensures
            r is Some == self.spec_path() is Some,
            r is Some ==> r->0@ == self.spec_path()->0,
    {
        self.path.as_ref()
    }

    /// Get the text of the underlying cause if present.
    pub fn source(&self) -> (r: Option<&String>)
        ensures
            r is Some == self.spec_source() is Some,
            r is Some ==> r->0@ == self.spec_source()->0,
    {
        self.source.as_ref()
    }

    /// Check if error is fatal. No backup error code is.
    pub fn is_fatal(&self) -> (r: bool)
        ensures
            r == (self.spec_code().spec_severity() == Severity::Fatal),
            !r,
    {
        match self.code.severity() {
            Severity::Fatal => true,
            _ => false,
        }
    }

    /// The error as one line: severity, code and message, then the path and
    /// the cause where known.
    pub fn to_string(&self) -> (r: String)
        ensures
            r@ == self.display_text(),
    {
        let mut out = owned("[");
        out.append(self.code.severity().as_str());
        out.append("] ");
        out.append(self.code.as_str());
        out.append(": ");
        out.append(self.message.as_str());
        let ghost head = out@;
        match &self.path {
            Some(p) => {
                let ghost before = out@;
                out.append(" (path: ");
                out.append(p.as_str());
                out.append(")");
                assert(out@ =~= before + path_suffix(self.spec_path()));
            },
            None => {
                assert(out@ =~= head + path_suffix(self.spec_path()));
            },
        }
        let ghost mid = out@;
        match &self.source {
            Some(s) => {
                out.append(" (caused by: ");
                out.append(s.as_str());
                out.append(")");
                assert(out@ =~= mid + source_suffix(self.spec_source()));
            },
            None => {
                assert(out@ =~= mid + source_suffix(self.spec_source()));
            },
        }
        out
    }
}

/// Result type for backup operations.
pub type BackupResult<T> = Result<T, BackupError>;

} // verus!
