//! Backups: configuration, the manifest that leads every archive, and the
//! rules of naming, ordering and retention.
//!
//! An archive is a tar file that holds the manifest as its first entry, then the
//! trees `snapshot/` and `wal/`. Reading and writing files is the caller's
//! part; what is decided about them is decided here.

use vstd::prelude::*;
use crate::text::owned;

pub mod errors;
pub mod manager;
pub mod scheduler;

verus! {

/// Backup configuration.
#[derive(Debug, Clone, PartialEq, Eq)]
pub struct BackupConfig {
    /// Enable automatic backups.
    pub enabled: bool,
    /// Backup interval in hours.
    pub interval_hours: u32,
    /// Maximum number of backups to retain.
    pub max_backups: u32,
    /// Backup directory path.
    pub backup_dir: String,
}

impl BackupConfig {
    /// Create a new backup config with defaults: disabled, daily, seven
    /// backups kept.
    pub fn new() -> (r: Self)
        ensures
            !r.enabled,
            r.interval_hours == 24,
            r.max_backups == 7,
            r.backup_dir@ == "/var/lib/aerodb/backups"@,
    {
        BackupConfig {
            enabled: false,
            interval_hours: 24,
            max_backups: 7,
            backup_dir: owned("/var/lib/aerodb/backups"),
        }
    }

    /// A copy of this configuration.
    pub fn duplicate(&self) -> (r: Self)
        ensures
            r.enabled == self.enabled,
            r.interval_hours == self.interval_hours,
            r.max_backups == self.max_backups,
            r.backup_dir@ == self.backup_dir@,
    {
        BackupConfig {
            enabled: self.enabled,
            interval_hours: self.interval_hours,
            max_backups: self.max_backups,
            backup_dir: self.backup_dir.clone(),
        }
    }
}

impl Default for BackupConfig {
    fn default() -> (r: Self)
        ensures
            !r.enabled,
            r.interval_hours == 0,
            r.max_backups == 0,
            r.backup_dir@ == Seq::<char>::empty(),
    {
        BackupConfig { enabled: false, interval_hours: 0, max_backups: 0, backup_dir: String::new() }
    }
}

/// Backup manifest containing metadata about a backup.
#[derive(Debug, Clone, PartialEq, Eq)]
pub struct BackupManifest {
    /// Backup ID.
    pub backup_id: String,
    /// Snapshot ID.
    pub snapshot_id: String,
    /// Creation timestamp in RFC 3339 form.
    pub created_at: String,
    /// Whether WAL is present.
    pub wal_present: bool,
    /// Format version.
    pub format_version: u32,
}

/// Backup status.
#[derive(Debug, Clone, PartialEq, Eq)]
pub struct BackupStatus {
    /// Last backup timestamp.
    pub last_backup: Option<String>,
    /// Next scheduled backup.
    pub next_backup: Option<String>,
    /// Number of available backups.
    pub backup_count: u32,
    /// Total backup size in bytes.
    pub total_size_bytes: u64,
}

impl Default for BackupStatus {
    fn default() -> (r: Self)
        ensures
            r.last_backup is None,
            r.next_backup is None,
            r.backup_count == 0,
            r.total_size_bytes == 0,
    {
        BackupStatus { last_backup: None, next_backup: None, backup_count: 0, total_size_bytes: 0 }
    }
}

/// Backup metadata.
#[derive(Debug, Clone, PartialEq, Eq)]
pub struct BackupMetadata {
    /// Backup ID.
    pub id: String,
    /// Creation timestamp.
    pub created_at: String,
    /// Size in bytes.
    pub size_bytes: u64,
    /// Description.
    pub description: Option<String>,
}

} // verus!
