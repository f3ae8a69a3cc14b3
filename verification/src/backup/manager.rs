//! The backup manager: how backups are named, listed, retained and built.
//!
//! The manager decides; its caller touches the disk. Listing takes the
//! metadata that was read from the archives, retention returns the backups
//! that have to go, and the building of a backup is a sequence of commands,
//! each issued on the outcome of the one before.

use vstd::prelude::*;
use vstd::string::*;
use vstd::seq_lib::*;
use crate::backup::errors::{BackupError, BackupErrorCode, BackupResult};
use crate::backup::{BackupConfig, BackupManifest, BackupMetadata, BackupStatus};
use crate::text::{
    lemma_text_le_total,
    lemma_text_le_transitive,
    owned,
    text_le,
    text_less_or_equal,
};

verus! {

/// Backup format version.
pub const BACKUP_FORMAT_VERSION: u32 = 1;

/// The list with `b` put in its place among entries that are sorted newest
/// first: before the first entry that is not newer than `b`.
pub open spec fn insert_newest_first(b: BackupMetadata, sorted: Seq<BackupMetadata>) -> Seq<
    BackupMetadata,
>
    decreases sorted.len(),
{
    if sorted.len() == 0 {
        seq![b]
    } else if text_le(sorted[0].created_at@, b.created_at@) {
        seq![b] + sorted
    } else {
        seq![sorted[0]] + insert_newest_first(b, sorted.drop_first())
    }
}

/// The backups sorted by creation time, newest first; backups of one creation
/// time keep their order.
pub open spec fn newest_first(s: Seq<BackupMetadata>) -> Seq<BackupMetadata>
    decreases s.len(),
{
    if s.len() == 0 {
        Seq::<BackupMetadata>::empty()
    } else {
        insert_newest_first(s[0], newest_first(s.drop_first()))
    }
}

/// No entry is older than one that follows it.
pub open spec fn is_newest_first(s: Seq<BackupMetadata>) -> bool {
    forall|i: int, j: int| 0 <= i < j < s.len() ==> text_le(s[j].created_at@, s[i].created_at@)
}

proof fn lemma_insert_at(b: BackupMetadata, sorted: Seq<BackupMetadata>, i: int)
    requires
        0 <= i <= sorted.len(),
        forall|k: int| 0 <= k < i ==> !text_le(#[trigger] sorted[k].created_at@, b.created_at@),
        i == sorted.len() || text_le(sorted[i].created_at@, b.created_at@),
    ensures
        insert_newest_first(b, sorted) == sorted.insert(i, b),
    decreases i,
{
    if i == 0 {
        if sorted.len() == 0 {
            assert(seq![b] =~= sorted.insert(0, b));
        } else {
            assert(seq![b] + sorted =~= sorted.insert(0, b));
        }
    } else {
        assert(!text_le(sorted[0].created_at@, b.created_at@));
        let rest = sorted.drop_first();
        assert forall|k: int| 0 <= k < i - 1 implies !text_le(
            #[trigger] rest[k].created_at@,
            b.created_at@,
        ) by {
            assert(rest[k] == sorted[k + 1]);
        }
        if i < sorted.len() {
            assert(rest[i - 1] == sorted[i]);
        }
        lemma_insert_at(b, rest, i - 1);
        assert(seq![sorted[0]] + rest.insert(i - 1, b) =~= sorted.insert(i, b));
    }
}

proof fn lemma_insert_keeps_order(b: BackupMetadata, sorted: Seq<BackupMetadata>)
    requires
        is_newest_first(sorted),
    ensures
        is_newest_first(insert_newest_first(b, sorted)),
        insert_newest_first(b, sorted).to_multiset() == sorted.to_multiset().insert(b),
        insert_newest_first(b, sorted).len() == sorted.len() + 1,
    decreases sorted.len(),
{
    broadcast use to_multiset_insert;

    let r = insert_newest_first(b, sorted);
    if sorted.len() == 0 {
        assert(r =~= sorted.insert(0, b));
    } else if text_le(sorted[0].created_at@, b.created_at@) {
        assert(r =~= sorted.insert(0, b));
        assert forall|i: int, j: int| 0 <= i < j < r.len() implies text_le(
            r[j].created_at@,
            r[i].created_at@,
        ) by {
            if i == 0 {
                assert(r[j] == sorted[j - 1]);
                if j - 1 > 0 {
                    lemma_text_le_transitive(
                        sorted[j - 1].created_at@,
                        sorted[0].created_at@,
                        b.created_at@,
                    );
                }
            } else {
                assert(r[i] == sorted[i - 1]);
                assert(r[j] == sorted[j - 1]);
            }
        }
    } else {
        let rest = sorted.drop_first();
        assert forall|i: int, j: int| 0 <= i < j < rest.len() implies text_le(
            rest[j].created_at@,
            rest[i].created_at@,
        ) by {
            assert(rest[i] == sorted[i + 1]);
            assert(rest[j] == sorted[j + 1]);
        }
        lemma_insert_keeps_order(b, rest);
        let tail = insert_newest_first(b, rest);
        assert(r =~= tail.insert(0, sorted[0]));
        assert(sorted =~= rest.insert(0, sorted[0]));
        assert(r.to_multiset() =~= sorted.to_multiset().insert(b));
        lemma_text_le_total(sorted[0].created_at@, b.created_at@);
        assert forall|i: int, j: int| 0 <= i < j < r.len() implies text_le(
            r[j].created_at@,
            r[i].created_at@,
        ) by {
            if i == 0 {
                let x = tail[j - 1];
                assert(r[j] == x);
                assert(tail.to_multiset().count(x) > 0) by {
                    tail.to_multiset_ensures();
                    assert(tail.contains(x));
                }
                if x != b {
                    assert(rest.to_multiset().count(x) > 0);
                    rest.to_multiset_ensures();
                    assert(rest.contains(x));
                    let k = choose|k: int| 0 <= k < rest.len() && rest[k] == x;
                    assert(sorted[k + 1] == x);
                }
            } else {
                assert(r[i] == tail[i - 1]);
                assert(r[j] == tail[j - 1]);
            }
        }
    }
}

/// Sorting newest first puts the backups in order and neither loses nor adds
/// one.
pub proof fn lemma_newest_first_is_sorted_permutation(s: Seq<BackupMetadata>)
    ensures
        is_newest_first(newest_first(s)),
        newest_first(s).to_multiset() == s.to_multiset(),
        newest_first(s).len() == s.len(),
    decreases s.len(),
{
    broadcast use to_multiset_insert;

    if s.len() == 0 {
        assert(newest_first(s) =~= s);
    } else {
        let rest = s.drop_first();
        lemma_newest_first_is_sorted_permutation(rest);
        lemma_insert_keeps_order(s[0], newest_first(rest));
        assert(s =~= rest.insert(0, s[0]));
        assert(newest_first(s).to_multiset() =~= s.to_multiset());
    }
}

/// Sorts backups by creation time, newest first. Backups of one creation time
/// keep their order.
pub fn sort_newest_first(backups: Vec<BackupMetadata>) -> (r: Vec<BackupMetadata>)
    ensures
        r@ == newest_first(backups@),
        is_newest_first(r@),
        r@.to_multiset() == backups@.to_multiset(),
        r@.len() == backups@.len(),
{
    let mut input = backups;
    let mut out: Vec<BackupMetadata> = Vec::new();
    assert(backups@.skip(backups@.len() as int) =~= Seq::<BackupMetadata>::empty());
    while input.len() > 0
        invariant
            input@.len() <= backups@.len(),
            input@ == backups@.take(input@.len() as int),
            out@ == newest_first(backups@.skip(input@.len() as int)),
        decreases input.len(),
    {
        let ghost n = input@.len() as int;
        let b = input.pop().unwrap();
        assert(b == backups@[n - 1]);
        let mut i: usize = 0;
        while i < out.len() && !text_less_or_equal(
            out[i].created_at.as_str(),
            b.created_at.as_str(),
        )
            invariant
                i <= out.len(),
                forall|k: int|
                    0 <= k < i ==> !text_le(#[trigger] out@[k].created_at@, b.created_at@),
            decreases out.len() - i,
        {
            i = i + 1;
        }
        proof {
            lemma_insert_at(b, out@, i as int);
            let tail = backups@.skip(n - 1);
            assert(tail[0] == b);
            assert(tail.drop_first() =~= backups@.skip(n));
            assert(input@ =~= backups@.take(n - 1));
        }
        out.insert(i, b);
    }
    proof {
        assert(backups@.skip(0) =~= backups@);
        lemma_newest_first_is_sorted_permutation(backups@);
    }
    out
}

/// The name of the backup made from a snapshot.
pub open spec fn backup_id_text(snapshot_id: Seq<char>) -> Seq<char> {
    "backup_"@ + snapshot_id
}

/// The file name of a backup's archive.
pub open spec fn archive_name_text(backup_id: Seq<char>) -> Seq<char> {
    backup_id + ".tar"@
}

/// The file name under which an archive is written before it is complete.
pub open spec fn partial_archive_name_text(backup_id: Seq<char>) -> Seq<char> {
    backup_id + ".tar.partial"@
}

/// The name of the directory in which a backup is put together.
pub open spec fn temp_dir_name_text(backup_id: Seq<char>) -> Seq<char> {
    backup_id + ".tmp"@
}

/// The name of the backup made from a snapshot: `backup_` and the snapshot's
/// id.
pub fn backup_id_for(snapshot_id: &str) -> (r: String)
    ensures
        r@ == backup_id_text(snapshot_id@),
{
    let mut out = owned("backup_");
    out.append(snapshot_id);
    out
}

/// The file name of a backup's archive: the id and `.tar`.
pub fn archive_name(backup_id: &str) -> (r: String)
    ensures
        r@ == archive_name_text(backup_id@),
{
    let mut out = owned(backup_id);
    out.append(".tar");
    out
}

/// The file name under which an archive is written before it is complete:
/// the id and `.tar.partial`.
pub fn partial_archive_name(backup_id: &str) -> (r: String)
    ensures
        r@ == partial_archive_name_text(backup_id@),
{
    let mut out = owned(backup_id);
    out.append(".tar.partial");
    out
}

/// The name of the directory in which a backup is put together: the id and
/// `.tmp`.
pub fn temp_dir_name(backup_id: &str) -> (r: String)
    ensures
        r@ == temp_dir_name_text(backup_id@),
{
    let mut out = owned(backup_id);
    out.append(".tmp");
    out
}

/// The manifest of a backup made now from the snapshot given.
pub fn manifest_for(snapshot_id: &str, created_at: &str, wal_present: bool) -> (r: BackupManifest)
    ensures
        r.backup_id@ == backup_id_text(snapshot_id@),
        r.snapshot_id@ == snapshot_id@,
        r.created_at@ == created_at@,
        r.wal_present == wal_present,
        r.format_version == BACKUP_FORMAT_VERSION,
{
    BackupManifest {
        backup_id: backup_id_for(snapshot_id),
        snapshot_id: owned(snapshot_id),
        created_at: owned(created_at),
        wal_present,
        format_version: BACKUP_FORMAT_VERSION,
    }
}

/// The metadata of an archive of `size_bytes` bytes that holds `manifest`.
pub fn metadata_from_manifest(manifest: BackupManifest, size_bytes: u64) -> (r: BackupMetadata)
    ensures
        r.id@ == manifest.backup_id@,
        r.created_at@ == manifest.created_at@,
        r.size_bytes == size_bytes,
        r.description is None,
{
    BackupMetadata {
        id: manifest.backup_id,
        created_at: manifest.created_at,
        size_bytes,
        description: None,
    }
}

/// The ids of the backups that retention removes from a list sorted newest
/// first: all beyond the first `max_backups`, the oldest first.
pub open spec fn retention_victims(backups: Seq<BackupMetadata>, max_backups: nat) -> Seq<
    Seq<char>,
> {
    if backups.len() <= max_backups {
        Seq::<Seq<char>>::empty()
    } else {
        Seq::new(
            (backups.len() - max_backups) as nat,
            |k: int| backups[backups.len() - 1 - k].id@,
        )
    }
}

/// The sum of the sizes, capped at the 64-bit range.
pub open spec fn total_size(backups: Seq<BackupMetadata>) -> nat
    decreases backups.len(),
{
    if backups.len() == 0 {
        0
    } else {
        let sum = total_size(backups.drop_last()) + backups.last().size_bytes as nat;
        if sum > u64::MAX {
            u64::MAX as nat
        } else {
            sum
        }
    }
}

/// The instant that an RFC 3339 text denotes, as `DateTime::parse_from_rfc3339`
/// of chrono reads it: the seconds since the epoch and the offset from UTC in
/// seconds. `None` where chrono rejects the text.
pub uninterp spec fn rfc3339_instant(text: Seq<char>) -> Option<(i64, i32)>;

/// Reads an RFC 3339 text with chrono's `DateTime::parse_from_rfc3339` and
/// hands back the instant as plain numbers. The contract names the result.
#[verifier::external_body]
fn parse_rfc3339(text: &str) -> (r: Option<(i64, i32)>)
    ensures
        r == rfc3339_instant(text@),
{
    match chrono::DateTime::parse_from_rfc3339(text) {
        Ok(dt) => Some((dt.timestamp(), dt.offset().local_minus_utc())),
        Err(_) => None,
    }
}

/// The pattern in which the times of backups are written.
pub const INSTANT_PATTERN: &'static str = "%Y-%m-%dT%H:%M:%SZ";

/// The text that chrono's `DateTime::format` gives for the instant
/// `epoch_seconds` at the offset `offset_seconds` under a pattern. `None`
/// where chrono cannot represent the instant or the offset.
pub uninterp spec fn formatted_instant(
    epoch_seconds: i64,
    offset_seconds: i32,
    pattern: Seq<char>,
) -> Option<Seq<char>>;

/// Renders an instant with chrono: `FixedOffset::east_opt` and
/// `DateTime::from_timestamp` build the value, `DateTime::format` renders it
/// under the pattern given. The contract names the result. Only the pattern
/// of the backups' times is admitted, which chrono can render.
#[verifier::external_body]
fn format_instant(epoch_seconds: i64, offset_seconds: i32, pattern: &str) -> (r: Option<String>)
    requires
        pattern@ == INSTANT_PATTERN@,
    ensures
        r is Some == formatted_instant(epoch_seconds, offset_seconds, pattern@) is Some,
        r is Some ==> r->0@ == formatted_instant(epoch_seconds, offset_seconds, pattern@)->0,
{
    let offset = chrono::FixedOffset::east_opt(offset_seconds)?;
    let utc = chrono::DateTime::from_timestamp(epoch_seconds, 0)?;
    Some(utc.with_timezone(&offset).format(pattern).to_string())
}

/// The text of an instant in UTC, as the times of backups are written.
pub fn instant_text(epoch_seconds: i64) -> (r: Option<String>)
    ensures
        r is Some == formatted_instant(epoch_seconds, 0, INSTANT_PATTERN@) is Some,
        r is Some ==> r->0@ == formatted_instant(epoch_seconds, 0, INSTANT_PATTERN@)->0,
{
    format_instant(epoch_seconds, 0, INSTANT_PATTERN)
}

/// The instant `interval_hours` hours after `instant`, if it can be counted
/// in 64 bits.
pub open spec fn instant_plus_hours(instant: (i64, i32), interval_hours: u32) -> Option<
    (i64, i32),
> {
    if instant.0 + interval_hours * 3600 > i64::MAX {
        None
    } else {
        Some(((instant.0 + interval_hours * 3600) as i64, instant.1))
    }
}

/// The time of the next backup as a text, for the time of the last one and
/// the interval: the last time read as RFC 3339, moved on by the interval,
/// rendered again.
pub open spec fn next_backup_text(last: Seq<char>, interval_hours: u32) -> Option<Seq<char>> {
    match rfc3339_instant(last) {
        None => None,
        Some(instant) => match instant_plus_hours(instant, interval_hours) {
            None => None,
            Some(next) => formatted_instant(next.0, next.1, INSTANT_PATTERN@),
        },
    }
}

/// Moves an instant on by a number of hours.
pub fn add_hours(instant: (i64, i32), interval_hours: u32) -> (r: Option<(i64, i32)>)
    ensures
        r == instant_plus_hours(instant, interval_hours),
{
    let shift: i64 = (interval_hours as i64) * 3600;
    if instant.0 > i64::MAX - shift {
        None
    } else {
        Some((instant.0 + shift, instant.1))
    }
}

/// The time of the next backup as a text, for the time of the last one and
/// the interval.
pub fn next_backup_after(last: &str, interval_hours: u32) -> (r: Option<String>)
    ensures
        r is Some == next_backup_text(last@, interval_hours) is Some,
        r is Some ==> r->0@ == next_backup_text(last@, interval_hours)->0,
{
    match parse_rfc3339(last) {
        None => None,
        Some(instant) => match add_hours(instant, interval_hours) {
            None => None,
            Some(next) => format_instant(next.0, next.1, INSTANT_PATTERN),
        },
    }
}

/// A stage in the building of a backup. The caller carries out the command of
/// the stage and reports whether it succeeded.
#[derive(Debug, Clone, Copy, PartialEq, Eq, Structural)]
pub enum BackupStage {
    /// Nothing has been done yet.
    NotStarted,
    /// A snapshot is taken.
    TakingSnapshot,
    /// The temporary directory is emptied and created.
    PreparingTempDir,
    /// The snapshot is copied to `snapshot/` in the temporary directory.
    CopyingSnapshot,
    /// The log is copied to `wal/` in the temporary directory.
    CopyingWal,
    /// The manifest file is written to the temporary directory.
    WritingManifest,
    /// The archive is written under its partial name, manifest first.
    WritingArchive,
    /// The archive file is synced to disk.
    SyncingArchive,
    /// The archive is renamed to its final name.
    PublishingArchive,
    /// The backup directory is synced to disk.
    SyncingDirectory,
    /// The temporary directory is removed after a complete backup.
    RemovingTempDir,
    /// Old backups are removed.
    EnforcingRetention,
    /// The backup is complete.
    Succeeded,
    /// The temporary directory is removed after a failed step.
    CleaningUpAfterFailure,
    /// The backup failed.
    Failed,
}

/// What the caller has to do next in the building of a backup.
#[derive(Debug, Clone, Copy, PartialEq, Eq, Structural)]
pub enum BackupCommand {
    TakeSnapshot,
    PrepareTempDir,
    CopySnapshot,
    CopyWal,
    WriteManifest,
    WriteArchive,
    SyncArchive,
    PublishArchive,
    SyncDirectory,
    RemoveTempDir,
    EnforceRetention,
    ReportSuccess,
    ReportFailure,
}

/// Whether the temporary directory exists while the stage's command runs, so
/// that a failure has to remove it.
pub open spec fn temp_dir_in_use(stage: BackupStage) -> bool {
    match stage {
        BackupStage::CopyingSnapshot
        | BackupStage::CopyingWal
        | BackupStage::WritingManifest
        | BackupStage::WritingArchive
        | BackupStage::SyncingArchive
        | BackupStage::PublishingArchive
        | BackupStage::SyncingDirectory => true,
        _ => false,
    }
}

/// The stage that follows `stage` when its command ended as `succeeded` says.
/// A failure while the temporary directory is in use leads to its removal
/// and then to `Failed`; an earlier failure leads to `Failed` at once. The
/// outcome of the final cleanup and of retention does not matter: a backup
/// whose archive is in place is complete.
pub open spec fn stage_after(stage: BackupStage, succeeded: bool) -> BackupStage {
    match stage {
        BackupStage::NotStarted => BackupStage::TakingSnapshot,
        BackupStage::TakingSnapshot => if succeeded {
            BackupStage::PreparingTempDir
        } else {
            BackupStage::Failed
        },
        BackupStage::PreparingTempDir => if succeeded {
            BackupStage::CopyingSnapshot
        } else {
            BackupStage::Failed
        },
        BackupStage::CopyingSnapshot => if succeeded {
            BackupStage::CopyingWal
        } else {
            BackupStage::CleaningUpAfterFailure
        },
        BackupStage::CopyingWal => if succeeded {
            BackupStage::WritingManifest
        } else {
            BackupStage::CleaningUpAfterFailure
        },
        BackupStage::WritingManifest => if succeeded {
            BackupStage::WritingArchive
        } else {
            BackupStage::CleaningUpAfterFailure
        },
        BackupStage::WritingArchive => if succeeded {
            BackupStage::SyncingArchive
        } else {
            BackupStage::CleaningUpAfterFailure
        },
        BackupStage::SyncingArchive => if succeeded {
            BackupStage::PublishingArchive
        } else {
            BackupStage::CleaningUpAfterFailure
        },
        BackupStage::PublishingArchive => if succeeded {
            BackupStage::SyncingDirectory
        } else {
            BackupStage::CleaningUpAfterFailure
        },
        BackupStage::SyncingDirectory => if succeeded {
            BackupStage::RemovingTempDir
        } else {
            BackupStage::CleaningUpAfterFailure
        },
        BackupStage::RemovingTempDir => BackupStage::EnforcingRetention,
        BackupStage::EnforcingRetention => BackupStage::Succeeded,
        BackupStage::Succeeded => BackupStage::Succeeded,
        BackupStage::CleaningUpAfterFailure => BackupStage::Failed,
        BackupStage::Failed => BackupStage::Failed,
    }
}

/// The command that the caller carries out in a stage.
pub open spec fn command_of(stage: BackupStage) -> BackupCommand {
    match stage {
        BackupStage::NotStarted => BackupCommand::TakeSnapshot,
        BackupStage::TakingSnapshot => BackupCommand::TakeSnapshot,
        BackupStage::PreparingTempDir => BackupCommand::PrepareTempDir,
        BackupStage::CopyingSnapshot => BackupCommand::CopySnapshot,
        BackupStage::CopyingWal => BackupCommand::CopyWal,
        BackupStage::WritingManifest => BackupCommand::WriteManifest,
        BackupStage::WritingArchive => BackupCommand::WriteArchive,
        BackupStage::SyncingArchive => BackupCommand::SyncArchive,
        BackupStage::PublishingArchive => BackupCommand::PublishArchive,
        BackupStage::SyncingDirectory => BackupCommand::SyncDirectory,
        BackupStage::RemovingTempDir => BackupCommand::RemoveTempDir,
        BackupStage::EnforcingRetention => BackupCommand::EnforceRetention,
        BackupStage::Succeeded => BackupCommand::ReportSuccess,
        BackupStage::CleaningUpAfterFailure => BackupCommand::RemoveTempDir,
        BackupStage::Failed => BackupCommand::ReportFailure,
    }
}

/// The stage reached from `NotStarted` after the outcomes given, the first
/// of which starts the run and is not looked at.
pub open spec fn stage_reached(outcomes: Seq<bool>) -> BackupStage
    decreases outcomes.len(),
{
    if outcomes.len() == 0 {
        BackupStage::NotStarted
    } else {
        stage_after(stage_reached(outcomes.drop_last()), outcomes.last())
    }
}

/// How far a stage is along the way of a backup that goes well.
pub open spec fn stage_rank(stage: BackupStage) -> nat {
    match stage {
        BackupStage::NotStarted => 0,
        BackupStage::TakingSnapshot => 1,
        BackupStage::PreparingTempDir => 2,
        BackupStage::CopyingSnapshot => 3,
        BackupStage::CopyingWal => 4,
        BackupStage::WritingManifest => 5,
        BackupStage::WritingArchive => 6,
        BackupStage::SyncingArchive => 7,
        BackupStage::PublishingArchive => 8,
        BackupStage::SyncingDirectory => 9,
        BackupStage::RemovingTempDir => 10,
        BackupStage::EnforcingRetention => 11,
        BackupStage::Succeeded => 12,
        BackupStage::CleaningUpAfterFailure => 13,
        BackupStage::Failed => 14,
    }
}

/// A run that has not failed has taken every step in order and each step up
/// to the sync of the directory has succeeded: after `n` outcomes the run is
/// at the stage of rank `min(n, 12)`, and every outcome from the second to
/// the tenth that was reported is a success.
pub proof fn lemma_success_needs_every_step(outcomes: Seq<bool>)
    requires
        stage_rank(stage_reached(outcomes)) <= 12,
    ensures
        stage_rank(stage_reached(outcomes)) == if outcomes.len() <= 12 {
            outcomes.len()
        } else {
            12
        },
        forall|i: int| 1 <= i < outcomes.len() && i <= 9 ==> outcomes[i],
    decreases outcomes.len(),
{
    if outcomes.len() > 0 {
        let before = outcomes.drop_last();
        lemma_success_needs_every_step(before);
        assert forall|i: int| 1 <= i < outcomes.len() && i <= 9 implies outcomes[i] by {
            if i < before.len() {
                assert(before[i] == outcomes[i]);
            }
        }
    }
}

/// A failure while the temporary directory is in use is reported only after
/// the command to remove that directory.
pub proof fn lemma_failure_removes_temp_dir(stage: BackupStage)
    requires
        temp_dir_in_use(stage),
    ensures
        command_of(stage_after(stage, false)) == BackupCommand::RemoveTempDir,
        stage_after(stage_after(stage, false), true) == BackupStage::Failed,
        stage_after(stage_after(stage, false), false) == BackupStage::Failed,
{
}

/// Retention cannot fail a backup: whatever the outcomes of the final cleanup
/// and of retention, a backup whose directory sync succeeded is reported as a
/// success.
pub proof fn lemma_retention_cannot_fail_backup(cleanup_ok: bool, retention_ok: bool)
    ensures
        stage_after(
            stage_after(stage_after(BackupStage::SyncingDirectory, true), cleanup_ok),
            retention_ok,
        ) == BackupStage::Succeeded,
{
}

/// What was being done in a stage, as the context of an I/O error.
pub open spec fn failure_context(stage: BackupStage) -> Seq<char> {
    match stage {
        BackupStage::PreparingTempDir => "Failed to create temp directory"@,
        BackupStage::CopyingSnapshot => "Failed to copy snapshot"@,
        BackupStage::CopyingWal => "Failed to copy WAL"@,
        BackupStage::WritingManifest => "Failed to write backup manifest"@,
        BackupStage::WritingArchive => "Failed to create archive"@,
        BackupStage::SyncingArchive => "Failed to fsync archive"@,
        BackupStage::PublishingArchive => "Failed to rename archive"@,
        BackupStage::SyncingDirectory => "Failed to fsync backup directory"@,
        _ => "Backup step failed"@,
    }
}

/// The error that reports the failure of a stage's command, given the text
/// of the cause. A failed snapshot is a snapshot error whose message names
/// the cause; every other failure is an I/O error with the cause attached.
pub fn failure_for(stage: BackupStage, cause: String) -> (r: BackupError)
    ensures
        stage == BackupStage::TakingSnapshot ==> r.is_plain(
            BackupErrorCode::AeroBackupSnapshotFailed,
            "Snapshot creation failed: "@ + cause@,
        ),
        stage != BackupStage::TakingSnapshot ==> {
            &&& r.spec_code() == BackupErrorCode::AeroBackupIoError
            &&& r.spec_message() == failure_context(stage)
            &&& r.spec_path() is None
            &&& r.spec_source() == Some(cause@)
        },
{
    match stage {
        BackupStage::TakingSnapshot => {
            let mut message = owned("Snapshot creation failed: ");
            message.append(cause.as_str());
            BackupError::snapshot_failed(message)
        },
        BackupStage::PreparingTempDir => BackupError::io_error(
            cause,
            owned("Failed to create temp directory"),
        ),
        BackupStage::CopyingSnapshot => BackupError::io_error(
            cause,
            owned("Failed to copy snapshot"),
        ),
        BackupStage::CopyingWal => BackupError::io_error(cause, owned("Failed to copy WAL")),
        BackupStage::WritingManifest => BackupError::io_error(
            cause,
            owned("Failed to write backup manifest"),
        ),
        BackupStage::WritingArchive => BackupError::io_error(
            cause,
            owned("Failed to create archive"),
        ),
        BackupStage::SyncingArchive => BackupError::io_error(
            cause,
            owned("Failed to fsync archive"),
        ),
        BackupStage::PublishingArchive => BackupError::io_error(
            cause,
            owned("Failed to rename archive"),
        ),
        BackupStage::SyncingDirectory => BackupError::io_error(
            cause,
            owned("Failed to fsync backup directory"),
        ),
        _ => BackupError::io_error(cause, owned("Backup step failed")),
    }
}

/// Backup manager for creating and managing database backups.
#[derive(Debug)]
pub struct BackupManager {
    config: BackupConfig,
    backup_dir: String,
}

impl BackupManager {
    /// The configuration.
    pub closed spec fn spec_config(&self) -> BackupConfig {
        self.config
    }

    /// The directory that holds the archives.
    pub closed spec fn spec_backup_dir(&self) -> Seq<char> {
        self.backup_dir@
    }

    /// Creates a manager for the configured backup directory, given whether
    /// that path is a directory once the caller has tried to create it.
    pub fn new(config: BackupConfig, dir_is_directory: bool) -> (r: BackupResult<Self>)
        ensures
            dir_is_directory ==> {
                &&& r is Ok
                &&& r->Ok_0.spec_config() == config
                &&& r->Ok_0.spec_backup_dir() == config.backup_dir@
            },
            !dir_is_directory ==> {
                &&& r is Err
                &&& r->Err_0.spec_code() == BackupErrorCode::AeroBackupDirNotAccessible
                &&& r->Err_0.spec_message() == "Backup directory not accessible: "@
                    + config.backup_dir@
                &&& r->Err_0.spec_path() == Some(config.backup_dir@)
                &&& r->Err_0.spec_source() is None
            },
    {
        let backup_dir = config.backup_dir.clone();
        if !dir_is_directory {
            return Err(BackupError::dir_not_accessible(backup_dir));
        }
        Ok(BackupManager { config, backup_dir })
    }

    /// The directory that holds the archives.
    pub fn backup_dir(&self) -> (r: &str)
        ensures
            r@ == self.spec_backup_dir(),
    {
        self.backup_dir.as_str()
    }

    /// The configuration.
    pub fn config(&self) -> (r: &BackupConfig)
        ensures
            *r == self.spec_config(),
    {
        &self.config
    }

    /// One step in the building of a backup: given the stage whose command
    /// the caller has just carried out and whether it succeeded, returns the
    /// next stage and the command to carry out in it. The steps of a backup
    /// that goes well are: take a snapshot, prepare the temporary directory,
    /// copy the snapshot, copy the log, write the manifest, write the archive
    /// under its partial name, sync it, rename it, sync the directory, remove
    /// the temporary directory, enforce retention, report success.
    pub fn create_backup(&self, stage: BackupStage, succeeded: bool) -> (r: (
        BackupStage,
        BackupCommand,
    ))
        ensures
            r.0 == stage_after(stage, succeeded),
            r.1 == command_of(stage_after(stage, succeeded)),
    {
        let next = match stage {
            BackupStage::NotStarted => BackupStage::TakingSnapshot,
            BackupStage::TakingSnapshot => if succeeded {
                BackupStage::PreparingTempDir
            } else {
                BackupStage::Failed
            },
            BackupStage::PreparingTempDir => if succeeded {
                BackupStage::CopyingSnapshot
            } else {
                BackupStage::Failed
            },
            BackupStage::CopyingSnapshot => if succeeded {
                BackupStage::CopyingWal
            } else {
                BackupStage::CleaningUpAfterFailure
            },
            BackupStage::CopyingWal => if succeeded {
                BackupStage::WritingManifest
            } else {
                BackupStage::CleaningUpAfterFailure
            },
            BackupStage::WritingManifest => if succeeded {
                BackupStage::WritingArchive
            } else {
                BackupStage::CleaningUpAfterFailure
            },
            BackupStage::WritingArchive => if succeeded {
                BackupStage::SyncingArchive
            } else {
                BackupStage::CleaningUpAfterFailure
            },
            BackupStage::SyncingArchive => if succeeded {
                BackupStage::PublishingArchive
            } else {
                BackupStage::CleaningUpAfterFailure
            },
            BackupStage::PublishingArchive => if succeeded {
                BackupStage::SyncingDirectory
            } else {
                BackupStage::CleaningUpAfterFailure
            },
            BackupStage::SyncingDirectory => if succeeded {
                BackupStage::RemovingTempDir
            } else {
                BackupStage::CleaningUpAfterFailure
            },
            BackupStage::RemovingTempDir => BackupStage::EnforcingRetention,
            BackupStage::EnforcingRetention => BackupStage::Succeeded,
            BackupStage::Succeeded => BackupStage::Succeeded,
            BackupStage::CleaningUpAfterFailure => BackupStage::Failed,
            BackupStage::Failed => BackupStage::Failed,
        };
        let command = match next {
            BackupStage::NotStarted => BackupCommand::TakeSnapshot,
            BackupStage::TakingSnapshot => BackupCommand::TakeSnapshot,
            BackupStage::PreparingTempDir => BackupCommand::PrepareTempDir,
            BackupStage::CopyingSnapshot => BackupCommand::CopySnapshot,
            BackupStage::CopyingWal => BackupCommand::CopyWal,
            BackupStage::WritingManifest => BackupCommand::WriteManifest,
            BackupStage::WritingArchive => BackupCommand::WriteArchive,
            BackupStage::SyncingArchive => BackupCommand::SyncArchive,
            BackupStage::PublishingArchive => BackupCommand::PublishArchive,
            BackupStage::SyncingDirectory => BackupCommand::SyncDirectory,
            BackupStage::RemovingTempDir => BackupCommand::RemoveTempDir,
            BackupStage::EnforcingRetention => BackupCommand::EnforceRetention,
            BackupStage::Succeeded => BackupCommand::ReportSuccess,
            BackupStage::CleaningUpAfterFailure => BackupCommand::RemoveTempDir,
            BackupStage::Failed => BackupCommand::ReportFailure,
        };
        (next, command)
    }

    /// The metadata reported for a completed backup.
    pub fn completed_backup(
        &self,
        snapshot_id: &str,
        created_at: &str,
        size_bytes: u64,
        description: Option<String>,
    ) -> (r: BackupMetadata)
        ensures
            r.id@ == backup_id_text(snapshot_id@),
            r.created_at@ == created_at@,
            r.size_bytes == size_bytes,
            r.description == description,
    {
        BackupMetadata {
            id: backup_id_for(snapshot_id),
            created_at: owned(created_at),
            size_bytes,
            description,
        }
    }

    /// Lists the backups whose metadata was read from the archives, sorted by
    /// creation time, newest first.
    pub fn list_backups(&self, found: Vec<BackupMetadata>) -> (r: Vec<BackupMetadata>)
        ensures
            r@ == newest_first(found@),
            is_newest_first(r@),
            r@.to_multiset() == found@.to_multiset(),
    {
        sort_newest_first(found)
    }

    /// Gets a specific backup by id, given the metadata read from its archive
    /// if the archive exists and holds a manifest.
    pub fn get_backup(&self, backup_id: &str, archive: Option<BackupMetadata>) -> (r: BackupResult<
        BackupMetadata,
    >)
        ensures
            archive is Some ==> r == Ok::<BackupMetadata, BackupError>(archive->0),
            archive is None ==> {
                &&& r is Err
                &&& r->Err_0.is_plain(
                    BackupErrorCode::AeroBackupNotFound,
                    "Backup not found: "@ + backup_id@,
                )
            },
    {
        match archive {
            Some(metadata) => Ok(metadata),
            None => Err(BackupError::not_found(backup_id)),
        }
    }

    /// Decides the deletion of a backup, given whether its archive exists:
    /// the name of the archive file to remove, or the error that the backup
    /// is not found.
    pub fn delete_backup(&self, backup_id: &str, archive_exists: bool) -> (r: BackupResult<String>)
        ensures
            archive_exists ==> r is Ok && r->Ok_0@ == archive_name_text(backup_id@),
            !archive_exists ==> {
                &&& r is Err
                &&& r->Err_0.is_plain(
                    BackupErrorCode::AeroBackupNotFound,
                    "Backup not found: "@ + backup_id@,
                )
            },
    {
        if !archive_exists {
            return Err(BackupError::not_found(backup_id));
        }
        Ok(archive_name(backup_id))
    }

    /// Enforces the retention policy on a list of backups sorted newest
    /// first: returns the ids of the backups to delete, which are all beyond
    /// the `max_backups` most recent, the oldest first.
    pub fn enforce_retention(&self, backups: Vec<BackupMetadata>) -> (r: Vec<String>)
        ensures
            r@.len() == retention_victims(backups@, self.spec_config().max_backups as nat).len(),
            forall|k: int|
                0 <= k < r@.len() ==> #[trigger] r@[k]@ == retention_victims(
                    backups@,
                    self.spec_config().max_backups as nat,
                )[k],
    {
        let mut backups = backups;
        let ghost all = backups@;
        let max_backups = self.config.max_backups as usize;
        let mut victims: Vec<String> = Vec::new();
        assert(all.take(all.len() as int) =~= all);
        while backups.len() > max_backups
            invariant
                backups@.len() <= all.len(),
                all.len() > max_backups ==> backups@.len() >= max_backups,
                all.len() <= max_backups ==> backups@.len() == all.len(),
                backups@ == all.take(backups@.len() as int),
                max_backups == self.spec_config().max_backups,
                victims@.len() == all.len() - backups@.len(),
                forall|k: int|
                    0 <= k < victims@.len() ==> #[trigger] victims@[k]@ == all[all.len() - 1
                        - k].id@,
            decreases backups.len(),
        {
            let ghost n = backups@.len() as int;
            let oldest = backups.pop().unwrap();
            assert(oldest == all[n - 1]);
            victims.push(oldest.id);
            assert(backups@ =~= all.take(n - 1));
        }
        victims
    }

    /// The status of the backups in a list sorted newest first: the time of
    /// the last backup, the number of backups, the sum of their sizes, and,
    /// when backups are enabled, the time of the next one.
    pub fn status(&self, backups: &Vec<BackupMetadata>) -> (r: BackupStatus)
        requires
            backups@.len() <= u32::MAX,
        ensures
            r.backup_count == backups@.len(),
            r.total_size_bytes == total_size(backups@),
            backups@.len() == 0 ==> r.last_backup is None && r.next_backup is None,
            backups@.len() > 0 ==> r.last_backup is Some && r.last_backup->0@
                == backups@[0].created_at@,
            backups@.len() > 0 && !self.spec_config().enabled ==> r.next_backup is None,
            backups@.len() > 0 && self.spec_config().enabled ==> {
                &&& r.next_backup is Some == next_backup_text(
                    backups@[0].created_at@,
                    self.spec_config().interval_hours,
                ) is Some
                &&& r.next_backup is Some ==> r.next_backup->0@ == next_backup_text(
                    backups@[0].created_at@,
                    self.spec_config().interval_hours,
                )->0
            },
    {
        let mut total: u64 = 0;
        let mut i: usize = 0;
        while i < backups.len()
            invariant
                i <= backups@.len(),
                total == total_size(backups@.take(i as int)),
            decreases backups.len() - i,
        {
            let size = backups[i].size_bytes;
            proof {
                let next = backups@.take(i + 1);
                assert(next.drop_last() =~= backups@.take(i as int));
                assert(next.last() == backups@[i as int]);
            }
            total = if size > u64::MAX - total {
                u64::MAX
            } else {
                total + size
            };
            i = i + 1;
        }
        assert(backups@.take(backups@.len() as int) =~= backups@);
        let backup_count = backups.len() as u32;
        if backups.len() == 0 {
            return BackupStatus {
                last_backup: None,
                next_backup: None,
                backup_count,
                total_size_bytes: total,
            };
        }
        let last = backups[0].created_at.clone();
        let next_backup = if self.config.enabled {
            next_backup_after(last.as_str(), self.config.interval_hours)
        } else {
            None
        };
        BackupStatus {
            last_backup: Some(last),
            next_backup,
            backup_count,
            total_size_bytes: total,
        }
    }
}

} // verus!
