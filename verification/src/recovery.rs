//! Recovery on boot: the log is replayed into the store before anything is
//! served.
//!
//! Replay reads the log up to its recoverable prefix and applies, in LSN
//! order, every record whose LSN is above the last checkpoint. A torn tail is
//! discarded without error. A record that cannot be applied is a consistency
//! violation and ends recovery as failed. A corrupt frame ends replay where
//! it stands and calls for read-only mode.

use vstd::prelude::*;
use crate::storage::{
    apply_model,
    is_applicable,
    replay_model,
    ApplyOutcome,
    PageStore,
    StoreModel,
};
use crate::wal::frame::{RecordModel, WalRecord};
use crate::wal::reader::{log_end, log_records, models, read_log, valid_len, LogEnd};

verus! {

/// What recovery did.
#[derive(Debug, Clone, Copy, PartialEq, Eq, Structural)]
pub struct RecoveryState {
    /// The LSN of the last record applied to the store.
    pub last_lsn: u64,
    /// The number of records that replay applied.
    pub records_replayed: u64,
    /// The number of indexes rebuilt from the store.
    pub indexes_rebuilt: u64,
    /// The length of the log's recoverable prefix in bytes: where the log is
    /// cut and where the writer goes on.
    pub valid_len: usize,
    /// How the log ends.
    pub end: LogEnd,
}

/// An error of recovery. Every one of them is fatal: boot halts.
#[derive(Debug, Clone, Copy, PartialEq, Eq, Structural)]
pub enum RecoveryError {
    /// A replayed record cannot be applied, which shows that the log or the
    /// store was modified from outside.
    ConsistencyViolation { lsn: u64 },
}

impl RecoveryError {
    /// The stable code of the error.
    pub fn code(&self) -> (r: &'static str)
        ensures
            r@ == "AERO_RECOVERY_CONSISTENCY_VIOLATION"@,
    {
        "AERO_RECOVERY_CONSISTENCY_VIOLATION"
    }
}

/// The records whose LSN is above the checkpoint, in order.
pub open spec fn beyond_checkpoint(records: Seq<RecordModel>, checkpoint_lsn: u64) -> Seq<
    RecordModel,
> {
    records.filter(|r: RecordModel| r.lsn > checkpoint_lsn)
}

/// The position of the first record that replay cannot apply to the store
/// that the records before it leave, if there is one.
pub open spec fn first_violation(s: StoreModel, records: Seq<RecordModel>) -> Option<int>
    decreases records.len(),
{
    if records.len() == 0 {
        None
    } else {
        match first_violation(s, records.drop_last()) {
            Some(i) => Some(i),
            None => {
                let before = replay_model(s, records.drop_last());
                if records.last().lsn > before.last_lsn && !is_applicable(records.last()) {
                    Some(records.len() - 1)
                } else {
                    None
                }
            },
        }
    }
}

/// The number of records that change the store when they are replayed.
pub open spec fn applied_count(s: StoreModel, records: Seq<RecordModel>) -> nat
    decreases records.len(),
{
    if records.len() == 0 {
        0
    } else {
        let before = replay_model(s, records.drop_last());
        applied_count(s, records.drop_last()) + if records.last().lsn > before.last_lsn
            && is_applicable(records.last()) {
            1nat
        } else {
            0nat
        }
    }
}

/// Recovers the store from the log: replays every record of the log's
/// recoverable prefix whose LSN is above the store's last checkpoint. When
/// every such record can be applied, the store is the replay of those
/// records and the state tells how many were applied, where the log is cut
/// and how it ends. Otherwise recovery fails at the first record that cannot
/// be applied, and the store holds the replay of the records before it.
pub fn recover(wal: &[u8], store: &mut PageStore) -> (r: Result<RecoveryState, RecoveryError>)
    ensures
        ({
            let records = beyond_checkpoint(log_records(wal@), old(store)@.checkpoint_lsn);
            match first_violation(old(store)@, records) {
                None => {
                    &&& r is Ok
                    &&& final(store)@ == replay_model(old(store)@, records)
                    &&& r->Ok_0.last_lsn == final(store)@.last_lsn
                    &&& r->Ok_0.records_replayed == applied_count(old(store)@, records)
                    &&& r->Ok_0.indexes_rebuilt == 0
                    &&& r->Ok_0.valid_len == valid_len(wal@)
                    &&& r->Ok_0.end == log_end(wal@)
                },
                Some(i) => {
                    &&& r == Err::<RecoveryState, RecoveryError>(
                        RecoveryError::ConsistencyViolation { lsn: records[i].lsn },
                    )
                    &&& final(store)@ == replay_model(old(store)@, records.take(i))
                },
            }
        }),
{
    let scan = read_log(wal);
    let checkpoint = store.checkpoint_lsn();
    let ghost start = store@;
    let ghost all = models(scan.records@);
    let mut replayed: u64 = 0;
    let mut i: usize = 0;
    proof {
        assert(all.take(0) =~= Seq::<RecordModel>::empty());
        reveal(Seq::filter);
        assert(beyond_checkpoint(all.take(0), checkpoint) =~= Seq::<RecordModel>::empty());
    }
    while i < scan.records.len()
        invariant
            i <= scan.records@.len(),
            all == models(scan.records@),
            all == log_records(wal@),
            start == old(store)@,
            checkpoint == start.checkpoint_lsn,
            first_violation(start, beyond_checkpoint(all.take(i as int), checkpoint)) is None,
            store@ == replay_model(start, beyond_checkpoint(all.take(i as int), checkpoint)),
            replayed == applied_count(start, beyond_checkpoint(all.take(i as int), checkpoint)),
            replayed <= i,
        decreases scan.records@.len() - i,
    {
        let record = &scan.records[i];
        let ghost done = beyond_checkpoint(all.take(i as int), checkpoint);
        proof {
            let next = all.take(i + 1);
            assert(next.drop_last() =~= all.take(i as int));
            assert(next.last() == record@);
            reveal(Seq::filter);
        }
        if record.lsn > checkpoint {
            let ghost now = done.push(record@);
            proof {
                assert(beyond_checkpoint(all.take(i + 1), checkpoint) =~= now);
                assert(now.drop_last() =~= done);
            }
            match store.apply(record) {
                ApplyOutcome::Applied => {
                    replayed = replayed + 1;
                },
                ApplyOutcome::AlreadyApplied => {},
                ApplyOutcome::Malformed => {
                    proof {
                        let whole = beyond_checkpoint(all, checkpoint);
                        assert(all[i as int] == record@);
                        assert(store@ == replay_model(start, done));
                        lemma_violation_persists(start, all, checkpoint, i as int);
                        lemma_filter_of_prefix(all, checkpoint, i as int);
                        assert(whole.take(done.len() as int) == done);
                        assert(all == log_records(wal@));
                        assert(whole[done.len() as int] == record@);
                    }
                    return Err(RecoveryError::ConsistencyViolation { lsn: record.lsn });
                },
            }
        } else {
            proof {
                assert(beyond_checkpoint(all.take(i + 1), checkpoint) =~= done);
            }
        }
        i = i + 1;
    }
    proof {
        assert(all.take(all.len() as int) =~= all);
    }
    Ok(
        RecoveryState {
            last_lsn: store.last_lsn_applied(),
            records_replayed: replayed,
            indexes_rebuilt: 0,
            valid_len: scan.valid_len,
            end: scan.end,
        },
    )
}

/// The records beyond the checkpoint among the first `i` records are the
/// first of the records beyond the checkpoint among all.
proof fn lemma_filter_of_prefix(all: Seq<RecordModel>, checkpoint: u64, i: int)
    requires
        0 <= i <= all.len(),
    ensures
        beyond_checkpoint(all.take(i), checkpoint).len() <= beyond_checkpoint(
            all,
            checkpoint,
        ).len(),
        beyond_checkpoint(all, checkpoint).take(
            beyond_checkpoint(all.take(i), checkpoint).len() as int,
        ) == beyond_checkpoint(all.take(i), checkpoint),
        i < all.len() && all[i].lsn > checkpoint ==> beyond_checkpoint(all, checkpoint).len()
            > beyond_checkpoint(all.take(i), checkpoint).len() && beyond_checkpoint(
            all,
            checkpoint,
        )[beyond_checkpoint(all.take(i), checkpoint).len() as int] == all[i],
    decreases all.len() - i,
{
    reveal(Seq::filter);
    let whole = beyond_checkpoint(all, checkpoint);
    let part = beyond_checkpoint(all.take(i), checkpoint);
    if i == all.len() {
        assert(all.take(i) =~= all);
        assert(whole.take(whole.len() as int) =~= whole);
    } else {
        lemma_filter_of_prefix(all, checkpoint, i + 1);
        let next = all.take(i + 1);
        let more = beyond_checkpoint(next, checkpoint);
        assert(next.drop_last() =~= all.take(i));
        assert(next.last() == all[i]);
        if all[i].lsn > checkpoint {
            assert(more =~= part.push(all[i]));
            assert(whole.take(more.len() as int) == more);
            assert(whole.take(part.len() as int) =~= more.take(part.len() as int));
            assert(more.take(part.len() as int) =~= part);
            assert(whole[part.len() as int] == more[part.len() as int]);
        } else {
            assert(more =~= part);
        }
    }
}

/// A violation found at record `i` of the log is the first violation of the
/// whole replay.
proof fn lemma_violation_persists(
    start: StoreModel,
    all: Seq<RecordModel>,
    checkpoint: u64,
    i: int,
)
    requires
        0 <= i < all.len(),
        all[i].lsn > checkpoint,
        first_violation(start, beyond_checkpoint(all.take(i), checkpoint)) is None,
        all[i].lsn > replay_model(start, beyond_checkpoint(all.take(i), checkpoint)).last_lsn,
        !is_applicable(all[i]),
    ensures
        first_violation(start, beyond_checkpoint(all, checkpoint)) == Some(
            beyond_checkpoint(all.take(i), checkpoint).len() as int,
        ),
        beyond_checkpoint(all, checkpoint)[beyond_checkpoint(all.take(i), checkpoint).len() as int]
            == all[i],
{
    let whole = beyond_checkpoint(all, checkpoint);
    let part = beyond_checkpoint(all.take(i), checkpoint);
    lemma_filter_of_prefix(all, checkpoint, i);
    let n = part.len() as int;
    let upto = whole.take(n + 1);
    assert(upto.drop_last() =~= whole.take(n));
    assert(upto.drop_last() == part);
    assert(upto.last() == all[i]);
    assert(first_violation(start, upto) == Some(n));
    lemma_first_violation_of_prefix(start, whole, n + 1);
}

/// A violation among the first `n` records is the first violation of all.
proof fn lemma_first_violation_of_prefix(start: StoreModel, records: Seq<RecordModel>, n: int)
    requires
        0 <= n <= records.len(),
        first_violation(start, records.take(n)) is Some,
    ensures
        first_violation(start, records) == first_violation(start, records.take(n)),
    decreases records.len() - n,
{
    if n == records.len() {
        assert(records.take(n) =~= records);
    } else {
        let next = records.take(n + 1);
        assert(next.drop_last() =~= records.take(n));
        lemma_first_violation_of_prefix(start, records, n + 1);
    }
}

/// Whether the system has to enter read-only mode after recovery: when the
/// log ends in a corrupt frame, unless that frame lies beyond the checkpoint
/// and the operator has said to proceed. A torn tail never calls for it.
pub open spec fn read_only_after(
    state: RecoveryState,
    checkpoint_lsn: u64,
    operator_proceeds: bool,
) -> bool {
    state.end == LogEnd::Corrupt && !(operator_proceeds && state.last_lsn >= checkpoint_lsn)
}

impl RecoveryState {
    /// Whether the system has to enter read-only mode after this recovery.
    pub fn requires_read_only(&self, checkpoint_lsn: u64, operator_proceeds: bool) -> (r: bool)
        ensures
            r == read_only_after(*self, checkpoint_lsn, operator_proceeds),
    {
        let corrupt = match self.end {
            LogEnd::Corrupt => true,
            _ => false,
        };
        corrupt && !(operator_proceeds && self.last_lsn >= checkpoint_lsn)
    }
}

/// Whether writes may be accepted: never before recovery has completed when
/// a log exists.
pub fn may_accept_writes(wal_exists: bool, recovery_completed: bool) -> (r: bool)
    ensures
        r == (!wal_exists || recovery_completed),
{
    !wal_exists || recovery_completed
}

} // verus!
