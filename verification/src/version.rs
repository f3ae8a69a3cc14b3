//! The version marker that guards upgrades, and the detection of a partial
//! initialization.
//!
//! A data directory carries a marker with the versions of the binary and of
//! the on-disk formats that wrote it, and an initialization marker that is
//! written last. On startup the versions are compared and the binary refuses
//! to start on data it cannot read, or on a directory whose initialization
//! did not complete. What is on disk is read by the caller and handed in.

use vstd::prelude::*;
use vstd::string::*;
use crate::text::{decimal, owned, push_decimal, same_text};

verus! {

/// The version of this binary.
pub const BINARY_VERSION: &'static str = "0.1.0";

/// The version of the WAL record format that this binary reads and writes.
pub const WAL_FORMAT_VERSION: u16 = 1;

/// The version of the schema file format that this binary reads and writes.
pub const SCHEMA_FORMAT_VERSION: u16 = 1;

/// Version marker file name.
pub const VERSION_FILE: &'static str = ".aerodb_version";

/// Initialization marker file name.
pub const INIT_MARKER_FILE: &'static str = ".aerodb_initialized";

/// Version-related errors.
#[derive(Debug, Clone, PartialEq, Eq)]
#[allow(inconsistent_fields)]
pub enum VersionError {
    /// WAL format version mismatch.
    WalFormatMismatch { expected: u16, found: u16, message: String },
    /// Schema format version mismatch.
    SchemaFormatMismatch { expected: u16, found: u16, message: String },
    /// Downgrade attempted (newer data with older binary).
    DowngradeDetected { data_version: String, binary_version: String },
    /// Partial initialization detected.
    PartialInitialization { message: String },
    /// IO error reading/writing version file.
    IoError(String),
}

/// Version compatibility result.
#[derive(Debug, Clone, PartialEq, Eq)]
pub enum VersionCheck {
    /// Versions are compatible, proceed.
    Compatible,
    /// First initialization, create marker.
    NewInstallation,
    /// Upgrade detected but compatible.
    UpgradeCompatible { from: String, to: String },
    /// Incompatible - refuse startup.
    Incompatible(VersionError),
}

impl VersionError {
    /// The text of the error.
    pub open spec fn message_text(self) -> Seq<char> {
        match self {
            VersionError::WalFormatMismatch { expected, found, message } => {
                "WAL format version mismatch: expected v"@ + decimal(expected as nat)
                    + ", found v"@ + decimal(found as nat) + ". "@ + message@
            },
            VersionError::SchemaFormatMismatch { expected, found, message } => {
                "Schema format version mismatch: expected v"@ + decimal(expected as nat)
                    + ", found v"@ + decimal(found as nat) + ". "@ + message@
            },
            VersionError::DowngradeDetected { data_version, binary_version } => {
                "Downgrade detected: data written by v"@ + data_version@
                    + " cannot be read by v"@ + binary_version@
                    + ". Downgrades are not supported. Use the original binary version or newer."@
            },
            VersionError::PartialInitialization { message } => {
                "Partial initialization detected: "@ + message@
                    + ". Run 'aerodb init --force' to reinitialize (WARNING: destroys existing data)."@
            },
            VersionError::IoError(msg) => "Version file error: "@ + msg@,
        }
    }

    /// The text of the error.
    pub fn to_string(&self) -> (r: String)
        ensures
            r@ == self.message_text(),
    {
        match self {
            VersionError::WalFormatMismatch { expected, found, message } => {
                let mut out = owned("WAL format version mismatch: expected v");
                push_decimal(&mut out, *expected as u64);
                out.append(", found v");
                push_decimal(&mut out, *found as u64);
                out.append(". ");
                out.append(message.as_str());
                out
            },
            VersionError::SchemaFormatMismatch { expected, found, message } => {
                let mut out = owned("Schema format version mismatch: expected v");
                push_decimal(&mut out, *expected as u64);
                out.append(", found v");
                push_decimal(&mut out, *found as u64);
                out.append(". ");
                out.append(message.as_str());
                out
            },
            VersionError::DowngradeDetected { data_version, binary_version } => {
                let mut out = owned("Downgrade detected: data written by v");
                out.append(data_version.as_str());
                out.append(" cannot be read by v");
                out.append(binary_version.as_str());
                out.append(
                    ". Downgrades are not supported. Use the original binary version or newer.",
                );
                out
            },
            VersionError::PartialInitialization { message } => {
                let mut out = owned("Partial initialization detected: ");
                out.append(message.as_str());
                out.append(
                    ". Run 'aerodb init --force' to reinitialize (WARNING: destroys existing data).",
                );
                out
            },
            VersionError::IoError(msg) => {
                let mut out = owned("Version file error: ");
                out.append(msg.as_str());
                out
            },
        }
    }
}

/// Persisted version marker.
#[derive(Debug, Clone, PartialEq, Eq)]
pub struct VersionMarker {
    /// Binary version that created this data.
    pub binary_version: String,
    /// WAL record format version.
    pub wal_format_version: u16,
    /// Schema file format version.
    pub schema_format_version: u16,
    /// Timestamp when marker was created.
    pub created_at: String,
    /// Last binary version that accessed this data.
    pub last_accessed_by: Option<String>,
}

impl VersionMarker {
    /// Create a new version marker with the current versions, created at the
    /// time given.
    pub fn new(created_at: String) -> (r: Self)
        ensures
            r.binary_version@ == BINARY_VERSION@,
            r.wal_format_version == WAL_FORMAT_VERSION,
            r.schema_format_version == SCHEMA_FORMAT_VERSION,
            r.created_at == created_at,
            r.last_accessed_by is None,
    {
        VersionMarker {
            binary_version: owned(BINARY_VERSION),
            wal_format_version: WAL_FORMAT_VERSION,
            schema_format_version: SCHEMA_FORMAT_VERSION,
            created_at,
            last_accessed_by: None,
        }
    }

    /// Records this binary as the last to have accessed the data. The caller
    /// saves the marker.
    pub fn touch(&mut self)
        ensures
            final(self).binary_version == old(self).binary_version,
            final(self).wal_format_version == old(self).wal_format_version,
            final(self).schema_format_version == old(self).schema_format_version,
            final(self).created_at == old(self).created_at,
            final(self).last_accessed_by is Some,
            final(self).last_accessed_by->0@ == BINARY_VERSION@,
    {
        self.last_accessed_by = Some(owned(BINARY_VERSION));
    }
}

/// What stands in a data directory, as far as the version check looks.
#[derive(Debug, Clone, Copy, PartialEq, Eq, Structural)]
pub struct DataDirState {
    /// The data directory exists.
    pub exists: bool,
    /// The initialization marker exists.
    pub has_init_marker: bool,
    /// The version marker file exists.
    pub has_version_file: bool,
    /// The WAL directory exists.
    pub has_wal_dir: bool,
    /// The storage directory exists.
    pub has_storage_dir: bool,
}

/// Whether the directory holds data without the initialization marker: the
/// trace of an initialization that did not complete.
pub open spec fn is_partially_initialized(state: DataDirState) -> bool {
    state.exists && (state.has_wal_dir || state.has_storage_dir || state.has_version_file)
        && !state.has_init_marker
}

/// The message of a partial initialization.
pub open spec fn partial_init_message() -> Seq<char> {
    "Data files exist but initialization marker '"@ + INIT_MARKER_FILE@
        + "' is missing. Previous initialization may have failed or files were tampered with."@
}

/// The message of a WAL format that is older than this binary's.
pub open spec fn wal_migration_message(found: u16) -> Seq<char> {
    "Data was written with WAL format v"@ + decimal(found as nat) + " but this binary requires v"@
        + decimal(WAL_FORMAT_VERSION as nat)
        + ". Run 'aerodb migrate' to upgrade the data format."@
}

/// Whether `check` is the verdict on `marker`: the binary is compatible with
/// data of its own formats, and reports an upgrade when another binary
/// version wrote them. A WAL format of another version is refused, with
/// distinct errors: a format newer than the binary's is a downgrade, a
/// format older than the binary's a mismatch that asks for migration. A
/// schema format of another version is refused as well.
pub open spec fn is_marker_verdict(marker: VersionMarker, check: VersionCheck) -> bool {
    if marker.wal_format_version > WAL_FORMAT_VERSION {
        &&& check is Incompatible
        &&& check->Incompatible_0 is DowngradeDetected
        &&& check->Incompatible_0->DowngradeDetected_data_version@ == marker.binary_version@
        &&& check->Incompatible_0->DowngradeDetected_binary_version@ == BINARY_VERSION@
    } else if marker.wal_format_version < WAL_FORMAT_VERSION {
        &&& check is Incompatible
        &&& check->Incompatible_0 is WalFormatMismatch
        &&& check->Incompatible_0->WalFormatMismatch_expected == WAL_FORMAT_VERSION
        &&& check->Incompatible_0->WalFormatMismatch_found == marker.wal_format_version
        &&& check->Incompatible_0->WalFormatMismatch_message@ == wal_migration_message(
            marker.wal_format_version,
        )
    } else if marker.schema_format_version != SCHEMA_FORMAT_VERSION {
        &&& check is Incompatible
        &&& check->Incompatible_0 is SchemaFormatMismatch
        &&& check->Incompatible_0->SchemaFormatMismatch_expected == SCHEMA_FORMAT_VERSION
        &&& check->Incompatible_0->SchemaFormatMismatch_found == marker.schema_format_version
        &&& check->Incompatible_0->SchemaFormatMismatch_message@ == if marker.schema_format_version
            > SCHEMA_FORMAT_VERSION {
            "Downgrade not supported."@
        } else {
            "Run 'aerodb migrate' to upgrade."@
        }
    } else if marker.binary_version@ != BINARY_VERSION@ {
        &&& check is UpgradeCompatible
        &&& check->from@ == marker.binary_version@
        &&& check->to@ == BINARY_VERSION@
    } else {
        check is Compatible
    }
}

/// Whether `check` is the result of the version check for what stands in the
/// directory and what reading the marker gave.
pub open spec fn is_check_result(
    state: DataDirState,
    loaded: Result<Option<VersionMarker>, VersionError>,
    check: VersionCheck,
) -> bool {
    if is_partially_initialized(state) {
        &&& check is Incompatible
        &&& check->Incompatible_0 is PartialInitialization
        &&& check->Incompatible_0->PartialInitialization_message@ == partial_init_message()
    } else {
        match loaded {
            Err(e) => check == VersionCheck::Incompatible(e),
            Ok(None) => check is NewInstallation,
            Ok(Some(marker)) => is_marker_verdict(marker, check),
        }
    }
}

/// Version checker for startup safety.
#[derive(Debug)]
pub struct VersionChecker {
    data_dir: String,
}

impl VersionChecker {
    /// The data directory.
    pub closed spec fn spec_data_dir(&self) -> Seq<char> {
        self.data_dir@
    }

    /// A checker for the data directory given.
    pub fn new(data_dir: String) -> (r: Self)
        ensures
            r.spec_data_dir() == data_dir@,
    {
        VersionChecker { data_dir }
    }

    /// The data directory.
    pub fn data_dir(&self) -> (r: &str)
        ensures
            r@ == self.spec_data_dir(),
    {
        self.data_dir.as_str()
    }

    /// Check version compatibility on startup, for what stands in the data
    /// directory and what reading the version marker gave. A directory that
    /// holds data but no initialization marker is refused before anything
    /// else is looked at.
    pub fn check(
        &self,
        state: DataDirState,
        loaded: Result<Option<VersionMarker>, VersionError>,
    ) -> (r: VersionCheck)
        ensures
            is_check_result(state, loaded, r),
    {
        match self.check_initialization_state(state) {
            Err(e) => {
                return VersionCheck::Incompatible(e);
            },
            Ok(_) => {},
        }
        let marker = match loaded {
            Ok(Some(m)) => m,
            Ok(None) => {
                return VersionCheck::NewInstallation;
            },
            Err(e) => {
                return VersionCheck::Incompatible(e);
            },
        };
        if marker.wal_format_version > WAL_FORMAT_VERSION {
            return VersionCheck::Incompatible(
                VersionError::DowngradeDetected {
                    data_version: marker.binary_version,
                    binary_version: owned(BINARY_VERSION),
                },
            );
        }
        if marker.wal_format_version < WAL_FORMAT_VERSION {
            let mut message = owned("Data was written with WAL format v");
            push_decimal(&mut message, marker.wal_format_version as u64);
            message.append(" but this binary requires v");
            push_decimal(&mut message, WAL_FORMAT_VERSION as u64);
            message.append(". Run 'aerodb migrate' to upgrade the data format.");
            return VersionCheck::Incompatible(
                VersionError::WalFormatMismatch {
                    expected: WAL_FORMAT_VERSION,
                    found: marker.wal_format_version,
                    message,
                },
            );
        }
        if marker.schema_format_version != SCHEMA_FORMAT_VERSION {
            let message = if marker.schema_format_version > SCHEMA_FORMAT_VERSION {
                owned("Downgrade not supported.")
            } else {
                owned("Run 'aerodb migrate' to upgrade.")
            };
            return VersionCheck::Incompatible(
                VersionError::SchemaFormatMismatch {
                    expected: SCHEMA_FORMAT_VERSION,
                    found: marker.schema_format_version,
                    message,
                },
            );
        }
        if !same_text(marker.binary_version.as_str(), BINARY_VERSION) {
            return VersionCheck::UpgradeCompatible {
                from: marker.binary_version,
                to: owned(BINARY_VERSION),
            };
        }
        VersionCheck::Compatible
    }

    /// Check for partial initialization state: data files without the
    /// initialization marker.
    pub fn check_initialization_state(&self, state: DataDirState) -> (r: Result<(), VersionError>)
        ensures
            !is_partially_initialized(state) ==> r is Ok,
            is_partially_initialized(state) ==> {
                &&& r is Err
                &&& r->Err_0 is PartialInitialization
                &&& r->Err_0->PartialInitialization_message@ == partial_init_message()
            },
    {
        if !state.exists {
            return Ok(());
        }
        let has_data_files = state.has_wal_dir || state.has_storage_dir || state.has_version_file;
        if has_data_files && !state.has_init_marker {
            let mut message = owned("Data files exist but initialization marker '");
            message.append(INIT_MARKER_FILE);
            message.append(
                "' is missing. Previous initialization may have failed or files were tampered with.",
            );
            return Err(VersionError::PartialInitialization { message });
        }
        Ok(())
    }

    /// The marker to save after a successful startup: the marker that was
    /// read, with this binary recorded as the last to access the data.
    /// Nothing when there is no marker.
    pub fn update_access(&self, loaded: Option<VersionMarker>) -> (r: Option<VersionMarker>)
        ensures
            loaded is None ==> r is None,
            loaded is Some ==> {
                &&& r is Some
                &&& r->0.binary_version == loaded->0.binary_version
                &&& r->0.wal_format_version == loaded->0.wal_format_version
                &&& r->0.schema_format_version == loaded->0.schema_format_version
                &&& r->0.created_at == loaded->0.created_at
                &&& r->0.last_accessed_by is Some
                &&& r->0.last_accessed_by->0@ == BINARY_VERSION@
            },
    {
        match loaded {
            Some(marker) => {
                let mut marker = marker;
                marker.touch();
                Some(marker)
            },
            None => None,
        }
    }
}

/// An initialization that was interrupted after the directories were created
/// and before the initialization marker was written is detected and refused
/// at the next start, whatever else is found.
pub proof fn lemma_interrupted_init_is_refused(
    state: DataDirState,
    loaded: Result<Option<VersionMarker>, VersionError>,
    check: VersionCheck,
)
    requires
        state.exists,
        state.has_wal_dir,
        !state.has_init_marker,
        is_check_result(state, loaded, check),
    ensures
        check is Incompatible,
        check->Incompatible_0 is PartialInitialization,
{
}

} // verus!
