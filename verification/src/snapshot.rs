//! Snapshots: point-in-time copies of the store and the schemas that serve
//! as the base of a backup or the seed of a replica.
//!
//! A snapshot is made under the global execution lock, in a temporary
//! directory that is renamed once everything in it is synced. The steps that
//! touch the disk are the caller's: the library says which step follows
//! which, what a failed step leads to, and what the inventory of a snapshot
//! holds.

use vstd::prelude::*;
use vstd::string::*;
use crate::text::{join_path, joined_path, owned};
use crate::wal::checksum::{compute_crc32c, crc32c};

verus! {

/// The name of the file that describes a snapshot.
pub const SNAPSHOT_FILE: &'static str = "snapshot.json";

/// A stage in the making of a snapshot. The caller carries out the command
/// of the stage and reports whether it succeeded.
#[derive(Debug, Clone, Copy, PartialEq, Eq, Structural)]
pub enum SnapshotStage {
    /// Nothing has been done yet.
    NotStarted,
    /// The global execution lock is taken: writers pause, readers go on.
    AcquiringLock,
    /// The log is synced through its highest appended LSN, which becomes the
    /// snapshot's cut.
    SyncingWal,
    /// The pages and the schema files are copied to the temporary directory.
    CopyingFiles,
    /// The file that describes the snapshot is written.
    WritingManifest,
    /// The files of the snapshot and its directory are synced.
    SyncingFiles,
    /// The temporary directory is renamed to the snapshot's directory.
    Publishing,
    /// The lock is released after a complete snapshot.
    ReleasingLock,
    /// The snapshot is complete.
    Succeeded,
    /// The temporary directory is removed after a failed step.
    RemovingTempDir,
    /// The lock is released after a failed step.
    ReleasingLockAfterFailure,
    /// The snapshot failed; the system is as it was.
    Failed,
}

/// What the caller has to do next in the making of a snapshot.
#[derive(Debug, Clone, Copy, PartialEq, Eq, Structural)]
pub enum SnapshotCommand {
    AcquireLock,
    SyncWal,
    CopyFiles,
    WriteManifest,
    SyncFiles,
    Publish,
    ReleaseLock,
    RemoveTempDir,
    ReportSuccess,
    ReportFailure,
}

/// The stage that follows `stage` when its command succeeded or failed. A
/// lock that cannot be taken fails the snapshot at once. Any later failure
/// first removes the temporary directory and then releases the lock,
/// whatever comes of the removal; a snapshot that was published is a
/// success whatever comes of releasing the lock.
pub open spec fn stage_after(stage: SnapshotStage, succeeded: bool) -> SnapshotStage {
    match stage {
        SnapshotStage::NotStarted => SnapshotStage::AcquiringLock,
        SnapshotStage::AcquiringLock => if succeeded {
            SnapshotStage::SyncingWal
        } else {
            SnapshotStage::Failed
        },
        SnapshotStage::SyncingWal => if succeeded {
            SnapshotStage::CopyingFiles
        } else {
            SnapshotStage::RemovingTempDir
        },
        SnapshotStage::CopyingFiles => if succeeded {
            SnapshotStage::WritingManifest
        } else {
            SnapshotStage::RemovingTempDir
        },
        SnapshotStage::WritingManifest => if succeeded {
            SnapshotStage::SyncingFiles
        } else {
            SnapshotStage::RemovingTempDir
        },
        SnapshotStage::SyncingFiles => if succeeded {
            SnapshotStage::Publishing
        } else {
            SnapshotStage::RemovingTempDir
        },
        SnapshotStage::Publishing => if succeeded {
            SnapshotStage::ReleasingLock
        } else {
            SnapshotStage::RemovingTempDir
        },
        SnapshotStage::ReleasingLock => SnapshotStage::Succeeded,
        SnapshotStage::Succeeded => SnapshotStage::Succeeded,
        SnapshotStage::RemovingTempDir => SnapshotStage::ReleasingLockAfterFailure,
        SnapshotStage::ReleasingLockAfterFailure => SnapshotStage::Failed,
        SnapshotStage::Failed => SnapshotStage::Failed,
    }
}

/// The command of a stage.
pub open spec fn command_of(stage: SnapshotStage) -> SnapshotCommand {
    match stage {
        SnapshotStage::NotStarted => SnapshotCommand::AcquireLock,
        SnapshotStage::AcquiringLock => SnapshotCommand::AcquireLock,
        SnapshotStage::SyncingWal => SnapshotCommand::SyncWal,
        SnapshotStage::CopyingFiles => SnapshotCommand::CopyFiles,
        SnapshotStage::WritingManifest => SnapshotCommand::WriteManifest,
        SnapshotStage::SyncingFiles => SnapshotCommand::SyncFiles,
        SnapshotStage::Publishing => SnapshotCommand::Publish,
        SnapshotStage::ReleasingLock => SnapshotCommand::ReleaseLock,
        SnapshotStage::Succeeded => SnapshotCommand::ReportSuccess,
        SnapshotStage::RemovingTempDir => SnapshotCommand::RemoveTempDir,
        SnapshotStage::ReleasingLockAfterFailure => SnapshotCommand::ReleaseLock,
        SnapshotStage::Failed => SnapshotCommand::ReportFailure,
    }
}

/// The stage that follows `stage`.
pub fn next_stage(stage: SnapshotStage, succeeded: bool) -> (r: SnapshotStage)
    ensures
        r == stage_after(stage, succeeded),
{
    match stage {
        SnapshotStage::NotStarted => SnapshotStage::AcquiringLock,
        SnapshotStage::AcquiringLock => if succeeded {
            SnapshotStage::SyncingWal
        } else {
            SnapshotStage::Failed
        },
        SnapshotStage::SyncingWal => if succeeded {
            SnapshotStage::CopyingFiles
        } else {
            SnapshotStage::RemovingTempDir
        },
        SnapshotStage::CopyingFiles => if succeeded {
            SnapshotStage::WritingManifest
        } else {
            SnapshotStage::RemovingTempDir
        },
        SnapshotStage::WritingManifest => if succeeded {
            SnapshotStage::SyncingFiles
        } else {
            SnapshotStage::RemovingTempDir
        },
        SnapshotStage::SyncingFiles => if succeeded {
            SnapshotStage::Publishing
        } else {
            SnapshotStage::RemovingTempDir
        },
        SnapshotStage::Publishing => if succeeded {
            SnapshotStage::ReleasingLock
        } else {
            SnapshotStage::RemovingTempDir
        },
        SnapshotStage::ReleasingLock => SnapshotStage::Succeeded,
        SnapshotStage::Succeeded => SnapshotStage::Succeeded,
        SnapshotStage::RemovingTempDir => SnapshotStage::ReleasingLockAfterFailure,
        SnapshotStage::ReleasingLockAfterFailure => SnapshotStage::Failed,
        SnapshotStage::Failed => SnapshotStage::Failed,
    }
}

/// The command of a stage.
pub fn command(stage: SnapshotStage) -> (r: SnapshotCommand)
    ensures
        r == command_of(stage),
{
    match stage {
        SnapshotStage::NotStarted => SnapshotCommand::AcquireLock,
        SnapshotStage::AcquiringLock => SnapshotCommand::AcquireLock,
        SnapshotStage::SyncingWal => SnapshotCommand::SyncWal,
        SnapshotStage::CopyingFiles => SnapshotCommand::CopyFiles,
        SnapshotStage::WritingManifest => SnapshotCommand::WriteManifest,
        SnapshotStage::SyncingFiles => SnapshotCommand::SyncFiles,
        SnapshotStage::Publishing => SnapshotCommand::Publish,
        SnapshotStage::ReleasingLock => SnapshotCommand::ReleaseLock,
        SnapshotStage::Succeeded => SnapshotCommand::ReportSuccess,
        SnapshotStage::RemovingTempDir => SnapshotCommand::RemoveTempDir,
        SnapshotStage::ReleasingLockAfterFailure => SnapshotCommand::ReleaseLock,
        SnapshotStage::Failed => SnapshotCommand::ReportFailure,
    }
}

/// Whether the run holds the lock in a stage: from the sync of the log until
/// the lock's release.
pub open spec fn holds_lock(stage: SnapshotStage) -> bool {
    stage == SnapshotStage::SyncingWal || stage == SnapshotStage::CopyingFiles || stage
        == SnapshotStage::WritingManifest || stage == SnapshotStage::SyncingFiles || stage
        == SnapshotStage::Publishing || stage == SnapshotStage::ReleasingLock || stage
        == SnapshotStage::RemovingTempDir || stage == SnapshotStage::ReleasingLockAfterFailure
}

/// Whether a stage ends a run.
pub open spec fn is_final(stage: SnapshotStage) -> bool {
    stage == SnapshotStage::Succeeded || stage == SnapshotStage::Failed
}

/// The stage reached from `NotStarted` after the outcomes given, the first
/// of which starts the run and is not looked at.
pub open spec fn stage_reached(outcomes: Seq<bool>) -> SnapshotStage
    decreases outcomes.len(),
{
    if outcomes.len() == 0 {
        SnapshotStage::NotStarted
    } else {
        stage_after(stage_reached(outcomes.drop_last()), outcomes.last())
    }
}

/// How far a stage is along the way of a snapshot that goes well.
pub open spec fn stage_rank(stage: SnapshotStage) -> nat {
    match stage {
        SnapshotStage::NotStarted => 0,
        SnapshotStage::AcquiringLock => 1,
        SnapshotStage::SyncingWal => 2,
        SnapshotStage::CopyingFiles => 3,
        SnapshotStage::WritingManifest => 4,
        SnapshotStage::SyncingFiles => 5,
        SnapshotStage::Publishing => 6,
        SnapshotStage::ReleasingLock => 7,
        SnapshotStage::Succeeded => 8,
        SnapshotStage::RemovingTempDir => 9,
        SnapshotStage::ReleasingLockAfterFailure => 10,
        SnapshotStage::Failed => 11,
    }
}

/// A snapshot that succeeds has taken every step in order, and every step up
/// to the renaming has succeeded: a run that has not failed is, after `n`
/// outcomes, at the stage of rank `min(n, 8)`, and every outcome from the
/// second to the seventh that was reported is a success.
pub proof fn lemma_success_needs_every_step(outcomes: Seq<bool>)
    requires
        stage_rank(stage_reached(outcomes)) <= 8,
    ensures
        stage_rank(stage_reached(outcomes)) == if outcomes.len() <= 8 {
            outcomes.len()
        } else {
            8
        },
        forall|i: int| 1 <= i < outcomes.len() && i <= 6 ==> outcomes[i],
    decreases outcomes.len(),
{
    if outcomes.len() > 0 {
        let before = outcomes.drop_last();
        lemma_success_needs_every_step(before);
        assert forall|i: int| 1 <= i < outcomes.len() && i <= 6 implies outcomes[i] by {
            if i < before.len() {
                assert(before[i] == outcomes[i]);
            }
        }
    }
}

/// A step that fails while the lock is held leads to the removal of the
/// temporary directory, then to the release of the lock, and only then to
/// the report of the failure, whatever comes of the removal and the release.
pub proof fn lemma_failure_cleans_up_and_releases(
    stage: SnapshotStage,
    removed: bool,
    released: bool,
)
    requires
        holds_lock(stage),
        stage != SnapshotStage::ReleasingLock,
        stage != SnapshotStage::RemovingTempDir,
        stage != SnapshotStage::ReleasingLockAfterFailure,
    ensures
        command_of(stage_after(stage, false)) == SnapshotCommand::RemoveTempDir,
        command_of(stage_after(stage_after(stage, false), removed))
            == SnapshotCommand::ReleaseLock,
        stage_after(stage_after(stage_after(stage, false), removed), released)
            == SnapshotStage::Failed,
{
}

/// No run ends while it holds the lock: a stage that ends a run does not
/// hold it, and the lock is given up only by the command that releases it.
pub proof fn lemma_lock_is_released_before_the_end(stage: SnapshotStage, succeeded: bool)
    requires
        holds_lock(stage),
    ensures
        !is_final(stage),
        !holds_lock(stage_after(stage, succeeded)) ==> command_of(stage)
            == SnapshotCommand::ReleaseLock,
{
}

/// A file of a snapshot, as its inventory lists it.
#[derive(Debug, Clone, PartialEq, Eq)]
pub struct SnapshotFile {
    /// The file's path below the snapshot's directory.
    pub path: String,
    /// The file's length in bytes.
    pub size: u64,
    /// The CRC-32C of the file's bytes.
    pub checksum: u32,
}

/// What `snapshot.json` holds.
#[derive(Debug, Clone, PartialEq, Eq)]
pub struct SnapshotManifest {
    /// The snapshot's identifier.
    pub snapshot_id: String,
    /// The highest LSN that the snapshot includes.
    pub wal_cut_lsn: u64,
    /// The files of the snapshot.
    pub files: Vec<SnapshotFile>,
}

/// Whether an inventory entry describes a file with the bytes given.
pub open spec fn describes(entry: SnapshotFile, bytes: Seq<u8>) -> bool {
    entry.size == bytes.len() && entry.checksum == crc32c(bytes)
}

/// The inventory entry of a file.
pub fn file_entry(path: String, bytes: &[u8]) -> (r: SnapshotFile)
    ensures
        r.path == path,
        describes(r, bytes@),
{
    SnapshotFile { path, size: bytes.len() as u64, checksum: compute_crc32c(bytes) }
}

/// Whether a file of a snapshot is as its inventory entry says: of the same
/// length and with the same checksum.
pub fn verify_file(entry: &SnapshotFile, bytes: &[u8]) -> (r: bool)
    ensures
        r == describes(*entry, bytes@),
{
    entry.size == bytes.len() as u64 && entry.checksum == compute_crc32c(bytes)
}

/// The directory of a snapshot below the directory of the snapshots.
pub fn snapshot_dir(snapshots_dir: &str, snapshot_id: &str) -> (r: String)
    ensures
        r@ == joined_path(snapshots_dir@, snapshot_id@),
{
    join_path(snapshots_dir, snapshot_id)
}

/// The temporary directory in which a snapshot is built.
pub fn snapshot_temp_dir(snapshots_dir: &str, snapshot_id: &str) -> (r: String)
    ensures
        r@ == joined_path(snapshots_dir@, snapshot_id@ + ".tmp"@),
{
    let mut name = owned(snapshot_id);
    name.append(".tmp");
    join_path(snapshots_dir, name.as_str())
}

/// The manifest of a snapshot that is cut at the LSN through which the log
/// was synced.
pub fn snapshot_manifest(snapshot_id: String, synced_through: u64, files: Vec<SnapshotFile>) -> (r:
    SnapshotManifest)
    ensures
        r == (SnapshotManifest { snapshot_id, wal_cut_lsn: synced_through, files }),
{
    SnapshotManifest { snapshot_id, wal_cut_lsn: synced_through, files }
}

} // verus!
