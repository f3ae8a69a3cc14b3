//! The path of a write: what has to succeed, in which order, before a write
//! is acknowledged, and what each failure leads to.
//!
//! A write is admitted, checked against the resources, validated against the
//! schema of its collection, appended to the log, synced, applied to the
//! store and entered in the indexes, in this order, and acknowledged only
//! then. A write that is refused before the append leaves nothing in the
//! log. A failure of the log or of the store puts the system in read-only
//! mode, and the write is not acknowledged.
//!
//! The caller carries out one command at a time and reports how it ended.

use vstd::prelude::*;

verus! {

/// Where a write stands.
#[derive(Debug, Clone, Copy, PartialEq, Eq, Structural)]
pub enum WriteStage {
    /// Nothing has been done.
    Received,
    /// Admission control and backpressure are asked.
    Admitting,
    /// The resources are checked: read-only mode and free disk space.
    CheckingResources,
    /// The document is validated against the schema of its collection.
    Validating,
    /// The record is appended to the log.
    Appending,
    /// The log is synced.
    Syncing,
    /// The record is applied to the store.
    Applying,
    /// The indexes are updated.
    Indexing,
    /// The log has failed: the writer is poisoned and read-only mode
    /// entered.
    FailingLog,
    /// The store has failed: read-only mode is entered.
    FailingStore,
    /// The write is acknowledged with its LSN.
    Acknowledged,
    /// The write was refused before anything was written; the caller may
    /// try again.
    Refused,
    /// The write has failed and the system is in read-only mode.
    Failed,
}

/// What the caller has to do for a stage.
#[derive(Debug, Clone, Copy, PartialEq, Eq, Structural)]
pub enum WriteCommand {
    /// Ask admission control and backpressure for a slot.
    Admit,
    /// Check read-only mode and the free disk space for the record.
    CheckResources,
    /// Validate the document against the schema of its collection.
    Validate,
    /// Append the record to the log.
    Append,
    /// Sync the log, file and metadata.
    Sync,
    /// Apply the record to the store.
    Apply,
    /// Update the indexes.
    UpdateIndexes,
    /// Poison the log writer and enter read-only mode.
    PoisonLogAndEnterReadOnly,
    /// Enter read-only mode.
    EnterReadOnly,
    /// Answer with the LSN.
    Acknowledge,
    /// Answer with the refusal.
    ReportRefusal,
    /// Answer with the failure.
    ReportFailure,
}

/// Whether a stage ends the path of a write.
pub open spec fn is_final(stage: WriteStage) -> bool {
    stage == WriteStage::Acknowledged || stage == WriteStage::Refused || stage
        == WriteStage::Failed
}

/// The stage that follows `stage` when its command ended as `succeeded`
/// says. A write that is not admitted, finds the resources short or does
/// not fit its schema is refused. A failure of the append or of the sync
/// leads to the poisoning of the log, a failure of the store to read-only
/// mode, and both end as failed.
pub open spec fn stage_after(stage: WriteStage, succeeded: bool) -> WriteStage {
    match stage {
        WriteStage::Received => WriteStage::Admitting,
        WriteStage::Admitting => if succeeded {
            WriteStage::CheckingResources
        } else {
            WriteStage::Refused
        },
        WriteStage::CheckingResources => if succeeded {
            WriteStage::Validating
        } else {
            WriteStage::Refused
        },
        WriteStage::Validating => if succeeded {
            WriteStage::Appending
        } else {
            WriteStage::Refused
        },
        WriteStage::Appending => if succeeded {
            WriteStage::Syncing
        } else {
            WriteStage::FailingLog
        },
        WriteStage::Syncing => if succeeded {
            WriteStage::Applying
        } else {
            WriteStage::FailingLog
        },
        WriteStage::Applying => if succeeded {
            WriteStage::Indexing
        } else {
            WriteStage::FailingStore
        },
        WriteStage::Indexing => WriteStage::Acknowledged,
        WriteStage::FailingLog => WriteStage::Failed,
        WriteStage::FailingStore => WriteStage::Failed,
        WriteStage::Acknowledged => WriteStage::Acknowledged,
        WriteStage::Refused => WriteStage::Refused,
        WriteStage::Failed => WriteStage::Failed,
    }
}

/// The command of a stage.
pub open spec fn command_of(stage: WriteStage) -> WriteCommand {
    match stage {
        WriteStage::Received => WriteCommand::Admit,
        WriteStage::Admitting => WriteCommand::Admit,
        WriteStage::CheckingResources => WriteCommand::CheckResources,
        WriteStage::Validating => WriteCommand::Validate,
        WriteStage::Appending => WriteCommand::Append,
        WriteStage::Syncing => WriteCommand::Sync,
        WriteStage::Applying => WriteCommand::Apply,
        WriteStage::Indexing => WriteCommand::UpdateIndexes,
        WriteStage::FailingLog => WriteCommand::PoisonLogAndEnterReadOnly,
        WriteStage::FailingStore => WriteCommand::EnterReadOnly,
        WriteStage::Acknowledged => WriteCommand::Acknowledge,
        WriteStage::Refused => WriteCommand::ReportRefusal,
        WriteStage::Failed => WriteCommand::ReportFailure,
    }
}

/// The stage that follows `stage`, with the command to carry out for it.
/// `succeeded` says how the command of `stage` ended; for a write that was
/// just received it says nothing.
pub fn next_write_stage(stage: WriteStage, succeeded: bool) -> (r: (WriteStage, WriteCommand))
    ensures
        r.0 == stage_after(stage, succeeded),
        r.1 == command_of(r.0),
{
    let next = match stage {
        WriteStage::Received => WriteStage::Admitting,
        WriteStage::Admitting => if succeeded {
            WriteStage::CheckingResources
        } else {
            WriteStage::Refused
        },
        WriteStage::CheckingResources => if succeeded {
            WriteStage::Validating
        } else {
            WriteStage::Refused
        },
        WriteStage::Validating => if succeeded {
            WriteStage::Appending
        } else {
            WriteStage::Refused
        },
        WriteStage::Appending => if succeeded {
            WriteStage::Syncing
        } else {
            WriteStage::FailingLog
        },
        WriteStage::Syncing => if succeeded {
            WriteStage::Applying
        } else {
            WriteStage::FailingLog
        },
        WriteStage::Applying => if succeeded {
            WriteStage::Indexing
        } else {
            WriteStage::FailingStore
        },
        WriteStage::Indexing => WriteStage::Acknowledged,
        WriteStage::FailingLog => WriteStage::Failed,
        WriteStage::FailingStore => WriteStage::Failed,
        WriteStage::Acknowledged => WriteStage::Acknowledged,
        WriteStage::Refused => WriteStage::Refused,
        WriteStage::Failed => WriteStage::Failed,
    };
    let command = match next {
        WriteStage::Received => WriteCommand::Admit,
        WriteStage::Admitting => WriteCommand::Admit,
        WriteStage::CheckingResources => WriteCommand::CheckResources,
        WriteStage::Validating => WriteCommand::Validate,
        WriteStage::Appending => WriteCommand::Append,
        WriteStage::Syncing => WriteCommand::Sync,
        WriteStage::Applying => WriteCommand::Apply,
        WriteStage::Indexing => WriteCommand::UpdateIndexes,
        WriteStage::FailingLog => WriteCommand::PoisonLogAndEnterReadOnly,
        WriteStage::FailingStore => WriteCommand::EnterReadOnly,
        WriteStage::Acknowledged => WriteCommand::Acknowledge,
        WriteStage::Refused => WriteCommand::ReportRefusal,
        WriteStage::Failed => WriteCommand::ReportFailure,
    };
    (next, command)
}

/// The stage that a write has reached after the outcomes given, of which
/// the first starts the write.
pub open spec fn stage_reached(outcomes: Seq<bool>) -> WriteStage
    decreases outcomes.len(),
{
    if outcomes.len() == 0 {
        WriteStage::Received
    } else {
        stage_after(stage_reached(outcomes.drop_last()), outcomes.last())
    }
}

/// Whether the command of a stage ended well among the steps that the
/// outcomes report.
pub open spec fn has_succeeded(outcomes: Seq<bool>, stage: WriteStage) -> bool {
    exists|i: int|
        0 <= i < outcomes.len() && #[trigger] stage_reached(outcomes.take(i)) == stage
            && outcomes[i]
}

/// Whether the command of a stage was given among the steps that the
/// outcomes report.
pub open spec fn was_reached(outcomes: Seq<bool>, stage: WriteStage) -> bool {
    exists|i: int| 0 <= i <= outcomes.len() && #[trigger] stage_reached(outcomes.take(i)) == stage
}

/// How far a stage is along the path of a write that goes well.
pub open spec fn progress(stage: WriteStage) -> int {
    match stage {
        WriteStage::Received => 0,
        WriteStage::Admitting => 1,
        WriteStage::CheckingResources => 2,
        WriteStage::Validating => 3,
        WriteStage::Appending => 4,
        WriteStage::Syncing => 5,
        WriteStage::Applying => 6,
        WriteStage::Indexing => 7,
        WriteStage::Acknowledged => 8,
        _ => -1,
    }
}

/// A write that is on its way, or acknowledged, has taken one step for each
/// outcome, each of which went well.
proof fn lemma_good_path(outcomes: Seq<bool>)
    requires
        progress(stage_reached(outcomes)) >= 0,
    ensures
        progress(stage_reached(outcomes)) == if outcomes.len() <= 8 {
            outcomes.len() as int
        } else {
            8
        },
        forall|i: int|
            0 <= i <= outcomes.len() && i <= 8 ==> progress(
                #[trigger] stage_reached(outcomes.take(i)),
            ) == i,
        forall|i: int| 1 <= i < outcomes.len() && i < 7 ==> #[trigger] outcomes[i],
    decreases outcomes.len(),
{
    if outcomes.len() == 0 {
        assert(outcomes.take(0) =~= outcomes);
    } else {
        let before = outcomes.drop_last();
        lemma_good_path(before);
        assert forall|i: int| 0 <= i <= outcomes.len() && i <= 8 implies progress(
            #[trigger] stage_reached(outcomes.take(i)),
        ) == i by {
            if i < outcomes.len() {
                assert(outcomes.take(i) =~= before.take(i));
            } else {
                assert(outcomes.take(i) =~= outcomes);
            }
        }
        assert forall|i: int| 1 <= i < outcomes.len() && i < 7 implies #[trigger] outcomes[i] by {
            if i < before.len() {
                assert(before[i] == outcomes[i]);
            }
        }
    }
}

/// No acknowledgement without a sync: a write is acknowledged only after it
/// was admitted, the resources were checked, the document was validated,
/// and the record was appended, synced and applied, each with success.
pub proof fn lemma_no_ack_without_sync(outcomes: Seq<bool>)
    requires
        stage_reached(outcomes) == WriteStage::Acknowledged,
    ensures
        has_succeeded(outcomes, WriteStage::Admitting),
        has_succeeded(outcomes, WriteStage::CheckingResources),
        has_succeeded(outcomes, WriteStage::Validating),
        has_succeeded(outcomes, WriteStage::Appending),
        has_succeeded(outcomes, WriteStage::Syncing),
        has_succeeded(outcomes, WriteStage::Applying),
{
    lemma_good_path(outcomes);
    assert(stage_reached(outcomes.take(1)) == WriteStage::Admitting && outcomes[1]);
    assert(stage_reached(outcomes.take(2)) == WriteStage::CheckingResources && outcomes[2]);
    assert(stage_reached(outcomes.take(3)) == WriteStage::Validating && outcomes[3]);
    assert(stage_reached(outcomes.take(4)) == WriteStage::Appending && outcomes[4]);
    assert(stage_reached(outcomes.take(5)) == WriteStage::Syncing && outcomes[5]);
    assert(stage_reached(outcomes.take(6)) == WriteStage::Applying && outcomes[6]);
}

/// A write that is refused has left nothing in the log: the record was
/// never appended.
pub proof fn lemma_refusal_writes_nothing(outcomes: Seq<bool>)
    requires
        stage_reached(outcomes) == WriteStage::Refused,
    ensures
        !was_reached(outcomes, WriteStage::Appending),
        !was_reached(outcomes, WriteStage::Acknowledged),
    decreases outcomes.len(),
{
    lemma_refused_stays(outcomes, outcomes.len() as int);
    assert forall|i: int| 0 <= i <= outcomes.len() implies #[trigger] stage_reached(
        outcomes.take(i),
    ) != WriteStage::Appending && stage_reached(outcomes.take(i)) != WriteStage::Acknowledged by {
        lemma_refused_stays(outcomes, i);
    }
}

/// Before a refusal a write has not come as far as the append.
proof fn lemma_refused_stays(outcomes: Seq<bool>, i: int)
    requires
        stage_reached(outcomes) == WriteStage::Refused,
        0 <= i <= outcomes.len(),
    ensures
        stage_reached(outcomes.take(i)) == WriteStage::Refused || 0 <= progress(
            stage_reached(outcomes.take(i)),
        ) <= 3,
    decreases outcomes.len() - i,
{
    if i == outcomes.len() {
        assert(outcomes.take(i) =~= outcomes);
    } else {
        lemma_refused_stays(outcomes, i + 1);
        assert(outcomes.take(i + 1).drop_last() =~= outcomes.take(i));
    }
}

/// A write whose append or sync fails is never acknowledged: the log is
/// poisoned, read-only mode is entered, and the write ends as failed.
pub proof fn lemma_log_failure_is_not_acknowledged(outcomes: Seq<bool>, i: int)
    requires
        0 <= i < outcomes.len(),
        stage_reached(outcomes.take(i)) == WriteStage::Appending || stage_reached(
            outcomes.take(i),
        ) == WriteStage::Syncing,
        !outcomes[i],
    ensures
        stage_reached(outcomes.take(i + 1)) == WriteStage::FailingLog,
        command_of(stage_reached(outcomes.take(i + 1))) == WriteCommand::PoisonLogAndEnterReadOnly,
        stage_reached(outcomes) == WriteStage::FailingLog || stage_reached(outcomes)
            == WriteStage::Failed,
{
    assert(outcomes.take(i + 1).drop_last() =~= outcomes.take(i));
    assert(outcomes.take(i + 1).last() == outcomes[i]);
    lemma_failing_stays(outcomes, i + 1);
}

/// Once the log has failed, the write ends as failed.
proof fn lemma_failing_stays(outcomes: Seq<bool>, n: int)
    requires
        0 <= n <= outcomes.len(),
        stage_reached(outcomes.take(n)) == WriteStage::FailingLog || stage_reached(
            outcomes.take(n),
        ) == WriteStage::Failed,
    ensures
        stage_reached(outcomes) == WriteStage::FailingLog || stage_reached(outcomes)
            == WriteStage::Failed,
    decreases outcomes.len() - n,
{
    if n == outcomes.len() {
        assert(outcomes.take(n) =~= outcomes);
    } else {
        assert(outcomes.take(n + 1).drop_last() =~= outcomes.take(n));
        lemma_failing_stays(outcomes, n + 1);
    }
}

} // verus!
