//! Writing a log: records are framed and buffered, and become durable in
//! groups.
//!
//! `append` assigns the next LSN and buffers the frame. The caller writes
//! the buffered bytes to the log file and syncs it, file contents and
//! metadata both, then reports the outcome: after a sync every buffered
//! record is durable and may be acknowledged; after a failure the writer is
//! poisoned and refuses every further append.

use vstd::prelude::*;
use crate::wal::frame::{
    append_bytes,
    encodable,
    encode_frame,
    frame_bytes,
    RecordKind,
    RecordModel,
    WalRecord,
    BODY_FIXED_LEN,
};
use crate::wal::reader::{all_encodable, log_bytes, lsns_increase, models};

verus! {

/// The write-side operation that failed.
#[derive(Debug, Clone, Copy, PartialEq, Eq, Structural)]
pub enum WalIoFailure {
    /// Writing buffered records to the log file failed.
    Append,
    /// Syncing the log file failed.
    Fsync,
    /// Starting a new segment failed.
    Rotate,
}

/// An error of the log writer.
#[derive(Debug, Clone, Copy, PartialEq, Eq, Structural)]
pub enum WalError {
    /// A write-side I/O error has poisoned the log; the system is read-only.
    Poisoned(WalIoFailure),
    /// The record's body is too long for a frame.
    RecordTooLarge,
    /// Every LSN has been assigned.
    LsnExhausted,
}

impl WalError {
    /// The stable code of the error.
    pub open spec fn code_text(self) -> Seq<char> {
        match self {
            WalError::Poisoned(WalIoFailure::Append) => "AERO_WAL_APPEND_FAILED"@,
            WalError::Poisoned(WalIoFailure::Fsync) => "AERO_WAL_FSYNC_FAILED"@,
            WalError::Poisoned(WalIoFailure::Rotate) => "AERO_WAL_ROTATE_FAILED"@,
            WalError::RecordTooLarge => "AERO_WAL_RECORD_TOO_LARGE"@,
            WalError::LsnExhausted => "AERO_WAL_LSN_EXHAUSTED"@,
        }
    }

    /// The stable code of the error, of the form `AERO_WAL_<REASON>`.
    pub fn code(&self) -> (r: &'static str)
        ensures
            r@ == self.code_text(),
    {
        match self {
            WalError::Poisoned(WalIoFailure::Append) => "AERO_WAL_APPEND_FAILED",
            WalError::Poisoned(WalIoFailure::Fsync) => "AERO_WAL_FSYNC_FAILED",
            WalError::Poisoned(WalIoFailure::Rotate) => "AERO_WAL_ROTATE_FAILED",
            WalError::RecordTooLarge => "AERO_WAL_RECORD_TOO_LARGE",
            WalError::LsnExhausted => "AERO_WAL_LSN_EXHAUSTED",
        }
    }
}

/// When buffered records are written and synced as a group.
#[derive(Debug, Clone, Copy, PartialEq, Eq, Structural)]
pub struct GroupCommitConfig {
    /// Buffered bytes from which a sync is due.
    pub max_batch_bytes: usize,
    /// Waiting appenders from which a sync is due.
    pub max_pending_acks: usize,
    /// Time since the first buffered write from which a sync is due, in
    /// milliseconds.
    pub max_latency_ms: u64,
}

/// Whether a sync is due: something is buffered, and the buffered bytes, the
/// waiting appenders or the time since the first buffered write has reached
/// its threshold.
pub open spec fn sync_is_due(
    config: GroupCommitConfig,
    batched_bytes: nat,
    pending_acks: nat,
    waited_ms: u64,
) -> bool {
    pending_acks > 0 && (batched_bytes >= config.max_batch_bytes || pending_acks
        >= config.max_pending_acks || waited_ms >= config.max_latency_ms)
}

/// The records that `count` appends starting at `first_lsn` have LSNs that
/// follow one another without a gap.
pub open spec fn lsns_are_consecutive(records: Seq<RecordModel>, first_lsn: nat) -> bool {
    forall|i: int| 0 <= i < records.len() ==> (#[trigger] records[i]).lsn == first_lsn + i
}

/// The highest LSN among the records; 0 where there is none.
pub open spec fn highest_lsn(records: Seq<RecordModel>) -> u64
    decreases records.len(),
{
    if records.len() == 0 {
        0
    } else if records.last().lsn > highest_lsn(records.drop_last()) {
        records.last().lsn
    } else {
        highest_lsn(records.drop_last())
    }
}

/// The LSN after which a writer goes on when recovery has read the records
/// given and the store has applied the LSNs up to `last_applied`: the
/// highest of them all. Bytes of a torn tail are no record and take no LSN.
pub open spec fn resume_point(records: Seq<RecordModel>, last_applied: u64) -> u64 {
    if highest_lsn(records) > last_applied {
        highest_lsn(records)
    } else {
        last_applied
    }
}

/// Records whose LSNs follow one another from 1 end with the LSN that is
/// their number: the next record takes the LSN after it.
pub proof fn lemma_highest_of_consecutive(records: Seq<RecordModel>)
    requires
        lsns_are_consecutive(records, 1),
        records.len() <= u64::MAX,
    ensures
        highest_lsn(records) == records.len(),
    decreases records.len(),
{
    if records.len() > 0 {
        let before = records.drop_last();
        assert forall|i: int| 0 <= i < before.len() implies (#[trigger] before[i]).lsn == 1 + i by {
            assert(before[i] == records[i]);
        }
        lemma_highest_of_consecutive(before);
    }
}

/// The writer of a log.
pub struct WalWriter {
    pending: Vec<u8>,
    pending_records: Ghost<Seq<RecordModel>>,
    pending_count: usize,
    next_lsn: u64,
    durable_lsn: u64,
    poisoned: Option<WalIoFailure>,
}

impl WalWriter {
    /// The bytes that are buffered and not yet durable.
    pub closed spec fn pending(&self) -> Seq<u8> {
        self.pending@
    }

    /// The records that are buffered and not yet durable, oldest first.
    pub closed spec fn pending_records(&self) -> Seq<RecordModel> {
        self.pending_records@
    }

    /// The LSN that the next append assigns.
    pub closed spec fn next(&self) -> u64 {
        self.next_lsn
    }

    /// The highest LSN that is durable; 0 when none is.
    pub closed spec fn durable(&self) -> u64 {
        self.durable_lsn
    }

    /// The failure that poisoned the writer, if one did.
    pub closed spec fn failure(&self) -> Option<WalIoFailure> {
        self.poisoned
    }

    /// The buffer holds the frames of the buffered records, whose LSNs follow
    /// the durable LSN without a gap and end before the next LSN.
    pub closed spec fn wf(&self) -> bool {
        &&& self.pending@ == log_bytes(self.pending_records@)
        &&& all_encodable(self.pending_records@)
        &&& lsns_are_consecutive(self.pending_records@, self.durable_lsn as nat + 1)
        &&& self.pending_count == self.pending_records@.len()
        &&& self.next_lsn == self.durable_lsn + 1 + self.pending_records@.len()
        &&& self.poisoned is Some ==> self.pending_records@.len() == 0
    }

    /// A writer for an empty log: the first LSN is 1.
    pub fn new() -> (r: Self)
        ensures
            r.wf(),
            r.next() == 1,
            r.durable() == 0,
            r.pending_records() == Seq::<RecordModel>::empty(),
            r.failure() is None,
    {
        WalWriter::resume(0)
    }

    /// A writer that continues a log after recovery: it goes on after the
    /// highest LSN among the records of the log's recoverable prefix and
    /// the last LSN that the store has applied. Where that is the last LSN
    /// there is, no writer can go on.
    pub fn resume_after(records: &Vec<WalRecord>, last_applied: u64) -> (r: Result<Self, WalError>)
        ensures
            match r {
                Ok(writer) => {
                    &&& resume_point(models(records@), last_applied) < u64::MAX
                    &&& writer.wf()
                    &&& writer.durable() == resume_point(models(records@), last_applied)
                    &&& writer.next() == resume_point(models(records@), last_applied) + 1
                    &&& writer.pending_records() == Seq::<RecordModel>::empty()
                    &&& writer.failure() is None
                },
                Err(e) => e == WalError::LsnExhausted && resume_point(
                    models(records@),
                    last_applied,
                ) == u64::MAX,
            },
    {
        let ghost all = models(records@);
        let mut highest: u64 = 0;
        let mut i: usize = 0;
        assert(all.take(0) =~= Seq::<RecordModel>::empty());
        while i < records.len()
            invariant
                i <= records@.len(),
                all == models(records@),
                highest == highest_lsn(all.take(i as int)),
            decreases records@.len() - i,
        {
            proof {
                let next = all.take(i + 1);
                assert(next.drop_last() =~= all.take(i as int));
                assert(next.last() == records@[i as int]@);
            }
            if records[i].lsn > highest {
                highest = records[i].lsn;
            }
            i = i + 1;
        }
        assert(all.take(all.len() as int) =~= all);
        let last = if highest > last_applied {
            highest
        } else {
            last_applied
        };
        if last == u64::MAX {
            return Err(WalError::LsnExhausted);
        }
        Ok(WalWriter::resume(last))
    }

    /// A writer that continues a log whose last recovered record has the LSN
    /// given (0 for an empty log): the next LSN is the one after it, whatever
    /// a torn tail may have held.
    pub fn resume(last_lsn: u64) -> (r: Self)
        requires
            last_lsn < u64::MAX,
        ensures
            r.wf(),
            r.next() == last_lsn + 1,
            r.durable() == last_lsn,
            r.pending_records() == Seq::<RecordModel>::empty(),
            r.failure() is None,
    {
        WalWriter {
            pending: Vec::new(),
            pending_records: Ghost(Seq::empty()),
            pending_count: 0,
            next_lsn: last_lsn + 1,
            durable_lsn: last_lsn,
            poisoned: None,
        }
    }

    /// Appends a record: assigns it the next LSN and buffers its frame. The
    /// record is not durable until the buffer has been synced. A poisoned
    /// writer refuses, as does a record too long for a frame.
    pub fn append(&mut self, kind: RecordKind, txn_id: u64, payload: Vec<u8>) -> (r: Result<
        u64,
        WalError,
    >)
        requires
            old(self).wf(),
        ensures
            final(self).wf(),
            final(self).durable() == old(self).durable(),
            final(self).failure() == old(self).failure(),
            old(self).failure() is Some ==> r == Err::<u64, WalError>(
                WalError::Poisoned(old(self).failure()->0),
            ),
            old(self).failure() is None && BODY_FIXED_LEN + payload@.len() > u32::MAX ==> r
                == Err::<u64, WalError>(WalError::RecordTooLarge),
            old(self).failure() is None && BODY_FIXED_LEN + payload@.len() <= u32::MAX && (old(
                self,
            ).next() == u64::MAX || old(self).pending_records().len() == usize::MAX) ==> r
                == Err::<u64, WalError>(WalError::LsnExhausted),
            r is Err ==> final(self).next() == old(self).next() && final(self).pending() == old(
                self,
            ).pending() && final(self).pending_records() == old(self).pending_records(),
            old(self).failure() is None && BODY_FIXED_LEN + payload@.len() <= u32::MAX && old(
                self,
            ).next() < u64::MAX && old(self).pending_records().len() < usize::MAX ==> {
                &&& r == Ok::<u64, WalError>(old(self).next())
                &&& final(self).next() == old(self).next() + 1
                &&& final(self).pending_records() == old(self).pending_records().push(
                    RecordModel { kind, lsn: old(self).next(), txn_id, payload: payload@ },
                )
                &&& final(self).pending() == old(self).pending() + frame_bytes(
                    RecordModel { kind, lsn: old(self).next(), txn_id, payload: payload@ },
                )
            },
    {
        match self.poisoned {
            Some(failure) => {
                return Err(WalError::Poisoned(failure));
            },
            None => {},
        }
        let lsn = self.next_lsn;
        let record = WalRecord { kind, lsn, txn_id, payload };
        let frame = match encode_frame(&record) {
            Some(frame) => frame,
            None => {
                return Err(WalError::RecordTooLarge);
            },
        };
        if lsn == u64::MAX || self.pending_count == usize::MAX {
            return Err(WalError::LsnExhausted);
        }
        append_bytes(&mut self.pending, frame.as_slice());
        proof {
            let before = self.pending_records@;
            let after = before.push(record@);
            lemma_log_bytes_push(before, record@);
            assert forall|i: int| 0 <= i < after.len() implies encodable(#[trigger] after[i]) by {
                if i < before.len() {
                    assert(after[i] == before[i]);
                }
            }
            assert forall|i: int| 0 <= i < after.len() implies (#[trigger] after[i]).lsn
                == self.durable_lsn as nat + 1 + i by {
                if i < before.len() {
                    assert(after[i] == before[i]);
                }
            }
            self.pending_records = Ghost(after);
        }
        self.pending_count = self.pending_count + 1;
        self.next_lsn = lsn + 1;
        Ok(lsn)
    }

    /// The bytes to write to the log file and sync.
    pub fn pending_bytes(&self) -> (r: &[u8])
        ensures
            r@ == self.pending(),
    {
        self.pending.as_slice()
    }

    /// The number of buffered records, each of which has an appender waiting
    /// for its acknowledgement.
    pub fn pending_acks(&self) -> (r: usize)
        requires
            self.wf(),
        ensures
            r == self.pending_records().len(),
    {
        self.pending_count
    }

    /// Whether the buffer is due to be written and synced, `waited_ms` after
    /// the first buffered write.
    pub fn should_sync(&self, config: &GroupCommitConfig, waited_ms: u64) -> (r: bool)
        requires
            self.wf(),
        ensures
            r == sync_is_due(
                *config,
                self.pending().len(),
                self.pending_records().len(),
                waited_ms,
            ),
    {
        self.pending_count > 0 && (self.pending.len() >= config.max_batch_bytes
            || self.pending_count >= config.max_pending_acks || waited_ms
            >= config.max_latency_ms)
    }

    /// Records that the buffered bytes have been written and synced: every
    /// buffered record is durable, and the buffer is empty. On a poisoned
    /// writer nothing becomes durable.
    pub fn fsync_through(&mut self) -> (r: u64)
        requires
            old(self).wf(),
        ensures
            final(self).wf(),
            r == final(self).durable(),
            final(self).durable() == old(self).next() - 1,
            final(self).next() == old(self).next(),
            final(self).pending_records() == Seq::<RecordModel>::empty(),
            final(self).pending() == Seq::<u8>::empty(),
            final(self).failure() == old(self).failure(),
            old(self).failure() is Some ==> final(self).durable() == old(self).durable(),
    {
        match self.poisoned {
            Some(_) => {
                proof {
                    assert(self.pending@ =~= Seq::<u8>::empty());
                    assert(self.pending_records@ =~= Seq::<RecordModel>::empty());
                }
                return self.durable_lsn;
            },
            None => {},
        }
        self.pending.clear();
        self.pending_count = 0;
        self.durable_lsn = self.next_lsn - 1;
        proof {
            self.pending_records = Ghost(Seq::empty());
        }
        self.durable_lsn
    }

    /// Records a write-side I/O failure: the writer is poisoned, every
    /// further append fails, and what is buffered is dropped and never
    /// becomes durable. The first failure is the one that is kept.
    pub fn mark_failed(&mut self, failure: WalIoFailure)
        requires
            old(self).wf(),
        ensures
            final(self).wf(),
            final(self).failure() == Some(
                match old(self).failure() {
                    Some(first) => first,
                    None => failure,
                },
            ),
            final(self).durable() == old(self).durable(),
            final(self).next() == old(self).durable() + 1,
            final(self).pending() == Seq::<u8>::empty(),
            final(self).pending_records() == Seq::<RecordModel>::empty(),
    {
        match self.poisoned {
            Some(_) => {
                proof {
                    assert(self.pending@ =~= Seq::<u8>::empty());
                    assert(self.pending_records@ =~= Seq::<RecordModel>::empty());
                }
            },
            None => {
                self.poisoned = Some(failure);
                self.pending.clear();
                self.pending_count = 0;
                self.next_lsn = self.durable_lsn + 1;
                proof {
                    self.pending_records = Ghost(Seq::empty());
                }
            },
        }
    }

    /// LSNs are monotone: the buffered records follow the durable LSN
    /// without a gap and end before the next LSN, so each has a larger LSN
    /// than its predecessor, and the buffer holds their frames.
    pub proof fn lemma_lsns_are_monotone(&self)
        requires
            self.wf(),
        ensures
            lsns_are_consecutive(self.pending_records(), self.durable() as nat + 1),
            lsns_increase(self.pending_records()),
            self.next() == self.durable() + 1 + self.pending_records().len(),
            self.pending() == log_bytes(self.pending_records()),
            all_encodable(self.pending_records()),
    {
    }

    /// Whether the write with the LSN given may be acknowledged: only once it
    /// is durable.
    pub fn may_acknowledge(&self, lsn: u64) -> (r: bool)
        ensures
            r == (1 <= lsn <= self.durable()),
    {
        1 <= lsn && lsn <= self.durable_lsn
    }

    /// The LSN that the next append assigns.
    pub fn next_lsn(&self) -> (r: u64)
        ensures
            r == self.next(),
    {
        self.next_lsn
    }

    /// The highest durable LSN; 0 when none is.
    pub fn durable_lsn(&self) -> (r: u64)
        ensures
            r == self.durable(),
    {
        self.durable_lsn
    }

    /// Whether a write-side I/O failure has poisoned the writer.
    pub fn is_poisoned(&self) -> (r: bool)
        ensures
            r == self.failure() is Some,
    {
        self.poisoned.is_some()
    }
}

/// The bytes of a log grow by a record's frame when the record is added at
/// the end.
pub proof fn lemma_log_bytes_push(records: Seq<RecordModel>, r: RecordModel)
    ensures
        log_bytes(records.push(r)) == log_bytes(records) + frame_bytes(r),
    decreases records.len(),
{
    let all = records.push(r);
    if records.len() == 0 {
        assert(all.drop_first() =~= Seq::<RecordModel>::empty());
        assert(log_bytes(all.drop_first()) =~= Seq::<u8>::empty());
        assert(log_bytes(all) =~= frame_bytes(r));
        assert(log_bytes(records) + frame_bytes(r) =~= frame_bytes(r));
    } else {
        assert(all.drop_first() =~= records.drop_first().push(r));
        lemma_log_bytes_push(records.drop_first(), r);
        assert(all[0] == records[0]);
        assert(log_bytes(all) =~= log_bytes(records) + frame_bytes(r));
    }
}

/// Whether a record of `frame_len` bytes starts a new segment: when the
/// segment holds records already and would grow beyond the configured size.
pub open spec fn rolls_segment(segment_len: u64, frame_len: u64, max_wal_size_bytes: u64) -> bool {
    segment_len > 0 && segment_len + frame_len > max_wal_size_bytes
}

/// Whether a record of `frame_len` bytes starts a new segment.
pub fn should_roll_segment(segment_len: u64, frame_len: u64, max_wal_size_bytes: u64) -> (r: bool)
    ensures
        r == rolls_segment(segment_len, frame_len, max_wal_size_bytes),
{
    segment_len > 0 && (frame_len > u64::MAX - segment_len || segment_len + frame_len
        > max_wal_size_bytes)
}

/// Whether a segment may be removed: when it is sealed and every record in
/// it has an LSN at or below the durable checkpoint.
pub fn truncate_before(segment_max_lsn: u64, sealed: bool, checkpoint_lsn: u64) -> (r: bool)
    ensures
        r == (sealed && segment_max_lsn <= checkpoint_lsn),
{
    sealed && segment_max_lsn <= checkpoint_lsn
}

} // verus!
