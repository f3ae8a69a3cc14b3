//! The boot sequence: what has to succeed, in which order, before the first
//! write is accepted.
//!
//! The caller carries out one step at a time and reports how it ended. Any
//! failure halts the boot: there is no partial startup, and nothing is
//! served before recovery has completed when a log exists.

use vstd::prelude::*;
use vstd::string::*;
use crate::cli::errors::{CliError, CliErrorCode};
use crate::text::owned;

verus! {

/// A step of the boot sequence.
#[derive(Debug, Clone, Copy, PartialEq, Eq, Structural)]
pub enum BootStep {
    /// The configuration is loaded and validated.
    LoadConfig,
    /// The data directory is checked for its directories.
    CheckInitialized,
    /// The version marker is checked.
    CheckVersion,
    /// The schemas are loaded.
    LoadSchemas,
    /// The log is replayed, the indexes rebuilt and consistency verified.
    Recover,
    /// The marker of a clean shutdown is removed, if there is one.
    RemoveShutdownMarker,
    /// The storage is opened.
    OpenStorage,
    /// The log writer is opened.
    OpenWal,
    /// The system serves.
    Serving,
    /// The boot has failed; the process exits.
    Halted,
}

/// The step that follows `step` when it ended as `succeeded` says, for a
/// data directory in which a log exists or not. With a log, recovery comes
/// first, which opens the storage; without one, the storage is opened as it
/// is. On every boot the marker of a clean shutdown is removed before the
/// log writer is opened. A step that fails halts the boot.
pub open spec fn step_after(step: BootStep, succeeded: bool, wal_exists: bool) -> BootStep {
    if step == BootStep::Serving || step == BootStep::Halted {
        step
    } else if !succeeded {
        BootStep::Halted
    } else {
        match step {
            BootStep::LoadConfig => BootStep::CheckInitialized,
            BootStep::CheckInitialized => BootStep::CheckVersion,
            BootStep::CheckVersion => BootStep::LoadSchemas,
            BootStep::LoadSchemas => if wal_exists {
                BootStep::Recover
            } else {
                BootStep::RemoveShutdownMarker
            },
            BootStep::Recover => BootStep::RemoveShutdownMarker,
            BootStep::RemoveShutdownMarker => if wal_exists {
                BootStep::OpenWal
            } else {
                BootStep::OpenStorage
            },
            BootStep::OpenStorage => BootStep::OpenWal,
            BootStep::OpenWal => BootStep::Serving,
            _ => step,
        }
    }
}

/// The step that follows `step`.
pub fn next_step(step: BootStep, succeeded: bool, wal_exists: bool) -> (r: BootStep)
    ensures
        r == step_after(step, succeeded, wal_exists),
{
    match step {
        BootStep::Serving => BootStep::Serving,
        BootStep::Halted => BootStep::Halted,
        _ => {
            if !succeeded {
                return BootStep::Halted;
            }
            match step {
                BootStep::LoadConfig => BootStep::CheckInitialized,
                BootStep::CheckInitialized => BootStep::CheckVersion,
                BootStep::CheckVersion => BootStep::LoadSchemas,
                BootStep::LoadSchemas => if wal_exists {
                    BootStep::Recover
                } else {
                    BootStep::RemoveShutdownMarker
                },
                BootStep::Recover => BootStep::RemoveShutdownMarker,
                BootStep::RemoveShutdownMarker => if wal_exists {
                    BootStep::OpenWal
                } else {
                    BootStep::OpenStorage
                },
                BootStep::OpenStorage => BootStep::OpenWal,
                BootStep::OpenWal => BootStep::Serving,
                _ => step,
            }
        },
    }
}

/// The step reached from the start of the boot after the outcomes given.
pub open spec fn step_reached(outcomes: Seq<bool>, wal_exists: bool) -> BootStep
    decreases outcomes.len(),
{
    if outcomes.len() == 0 {
        BootStep::LoadConfig
    } else {
        step_after(step_reached(outcomes.drop_last(), wal_exists), outcomes.last(), wal_exists)
    }
}

/// Whether recovery has completed among the steps that the outcomes report.
pub open spec fn recovery_completed(outcomes: Seq<bool>, wal_exists: bool) -> bool {
    exists|i: int|
        0 <= i < outcomes.len() && #[trigger] step_reached(outcomes.take(i), wal_exists)
            == BootStep::Recover && outcomes[i]
}

/// Whether the marker of a clean shutdown was removed among the steps that
/// the outcomes report.
pub open spec fn marker_removed(outcomes: Seq<bool>, wal_exists: bool) -> bool {
    exists|i: int|
        0 <= i < outcomes.len() && #[trigger] step_reached(outcomes.take(i), wal_exists)
            == BootStep::RemoveShutdownMarker && outcomes[i]
}

/// No serving without recovery: when a log exists, the system serves only
/// after recovery has completed, and only after every step before has
/// succeeded. On every boot that comes to serve, the marker of a clean
/// shutdown was removed.
pub proof fn lemma_no_serving_without_recovery(outcomes: Seq<bool>, wal_exists: bool)
    requires
        step_reached(outcomes, wal_exists) == BootStep::Serving,
    ensures
        wal_exists ==> recovery_completed(outcomes, wal_exists),
        marker_removed(outcomes, wal_exists),
        outcomes.len() >= 7,
    decreases outcomes.len(),
{
    lemma_boot_progress(outcomes, wal_exists);
    let at: int = if wal_exists {
        5
    } else {
        4
    };
    assert(outcomes.take(at).take(at) =~= outcomes.take(at));
    lemma_boot_prefix(outcomes, wal_exists, at);
    lemma_boot_prefix(outcomes, wal_exists, at + 1);
    lemma_boot_progress(outcomes.take(at), wal_exists);
    lemma_boot_progress(outcomes.take(at + 1), wal_exists);
    assert(outcomes.take(at + 1).drop_last() =~= outcomes.take(at));
    assert(step_reached(outcomes.take(at), wal_exists) == BootStep::RemoveShutdownMarker);
    assert(outcomes.take(at + 1).last() == outcomes[at]);
    if wal_exists {
        assert(outcomes.take(4).take(4) =~= outcomes.take(4));
        lemma_boot_prefix(outcomes, wal_exists, 4);
        lemma_boot_prefix(outcomes, wal_exists, 5);
        lemma_boot_progress(outcomes.take(4), wal_exists);
        lemma_boot_progress(outcomes.take(5), wal_exists);
        assert(outcomes.take(5).drop_last() =~= outcomes.take(4));
        assert(step_reached(outcomes.take(4), wal_exists) == BootStep::Recover);
        assert(outcomes.take(5).last() == outcomes[4]);
    }
}

/// How far a step is along the boot.
pub open spec fn boot_rank(step: BootStep, wal_exists: bool) -> int {
    match step {
        BootStep::LoadConfig => 0,
        BootStep::CheckInitialized => 1,
        BootStep::CheckVersion => 2,
        BootStep::LoadSchemas => 3,
        BootStep::Recover => 4,
        BootStep::RemoveShutdownMarker => if wal_exists {
            5
        } else {
            4
        },
        BootStep::OpenStorage => 5,
        BootStep::OpenWal => 6,
        BootStep::Serving => 7,
        BootStep::Halted => -1,
    }
}

/// A boot that has not halted has taken one step for each outcome, up to
/// serving, and which step it is at follows from their number.
proof fn lemma_boot_progress(outcomes: Seq<bool>, wal_exists: bool)
    ensures
        step_reached(outcomes, wal_exists) != BootStep::Halted ==> {
            &&& boot_rank(step_reached(outcomes, wal_exists), wal_exists) == if outcomes.len()
                <= boot_rank(BootStep::Serving, wal_exists) {
                outcomes.len() as int
            } else {
                boot_rank(BootStep::Serving, wal_exists)
            }
            &&& (step_reached(outcomes, wal_exists) == BootStep::Recover ==> wal_exists)
            &&& (step_reached(outcomes, wal_exists) == BootStep::OpenStorage ==> !wal_exists)
        },
    decreases outcomes.len(),
{
    if outcomes.len() > 0 {
        lemma_boot_progress(outcomes.drop_last(), wal_exists);
    }
}

/// A boot that has not halted had not halted at any earlier step.
proof fn lemma_boot_prefix(outcomes: Seq<bool>, wal_exists: bool, n: int)
    requires
        0 <= n <= outcomes.len(),
        step_reached(outcomes, wal_exists) != BootStep::Halted,
    ensures
        step_reached(outcomes.take(n), wal_exists) != BootStep::Halted,
    decreases outcomes.len() - n,
{
    if n == outcomes.len() {
        assert(outcomes.take(n) =~= outcomes);
    } else {
        lemma_boot_prefix(outcomes, wal_exists, n + 1);
        assert(outcomes.take(n + 1).drop_last() =~= outcomes.take(n));
    }
}

/// What stands in a data directory, as far as initialization looks.
#[derive(Debug, Clone, Copy, PartialEq, Eq, Structural)]
pub struct InitState {
    /// The directory of the log exists.
    pub has_wal_dir: bool,
    /// The directory of the data exists.
    pub has_data_dir: bool,
    /// The directory of the schemas exists.
    pub has_schema_dir: bool,
}

/// Check if a data directory is initialized: it holds the directories of
/// the log, of the data and of the schemas.
pub fn is_initialized(state: InitState) -> (r: bool)
    ensures
        r == (state.has_wal_dir && state.has_data_dir && state.has_schema_dir),
{
    state.has_wal_dir && state.has_data_dir && state.has_schema_dir
}

/// What failed in a step of the boot, as the report of the failure begins.
pub open spec fn failure_context(step: BootStep) -> Seq<char> {
    match step {
        BootStep::LoadSchemas => "Schema load failed: "@,
        BootStep::Recover => "Recovery failed (FATAL): "@,
        BootStep::RemoveShutdownMarker => "Failed to remove shutdown marker: "@,
        BootStep::OpenStorage => "Storage writer open failed: "@,
        BootStep::OpenWal => "WAL writer open failed: "@,
        _ => "Boot failed: "@,
    }
}

/// How the report of a failed step of the boot ends: a failed recovery says
/// that the system cannot serve.
pub open spec fn failure_ending(step: BootStep) -> Seq<char> {
    match step {
        BootStep::Recover => ". System cannot serve requests."@,
        _ => Seq::<char>::empty(),
    }
}

/// The error that reports a failed step of the boot: a boot failure whose
/// message names the step and the cause.
pub fn boot_failure(step: BootStep, cause: &str) -> (r: CliError)
    ensures
        r.is(CliErrorCode::BootFailed, failure_context(step) + cause@ + failure_ending(step)),
{
    let context = match step {
        BootStep::LoadSchemas => "Schema load failed: ",
        BootStep::Recover => "Recovery failed (FATAL): ",
        BootStep::RemoveShutdownMarker => "Failed to remove shutdown marker: ",
        BootStep::OpenStorage => "Storage writer open failed: ",
        BootStep::OpenWal => "WAL writer open failed: ",
        _ => "Boot failed: ",
    };
    let mut message = owned(context);
    message.append(cause);
    match step {
        BootStep::Recover => {
            message.append(". System cannot serve requests.");
        },
        _ => {
            assert(message@ + Seq::<char>::empty() =~= message@);
        },
    }
    CliError::boot_failed(message)
}

} // verus!
