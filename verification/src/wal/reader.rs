//! Reading a log: frames are read one after the other until the bytes end or
//! a frame is not valid. What was read is the recoverable prefix.

use vstd::prelude::*;
use vstd::slice::*;
use crate::wal::frame::{
    decode_frame,
    encodable,
    frame_bytes,
    frame_len,
    frame_record,
    frame_size,
    frame_status,
    lemma_decode_of_encode,
    lemma_torn_frame_is_incomplete,
    FrameStatus,
    RecordModel,
    WalRecord,
    MIN_FRAME_LEN,
};

verus! {

/// The records of a log: those of its frames, up to the first that is not
/// valid.
pub open spec fn log_records(bytes: Seq<u8>) -> Seq<RecordModel>
    decreases bytes.len(),
{
    if frame_status(bytes) == FrameStatus::Valid {
        seq![frame_record(bytes)] + log_records(bytes.skip(frame_len(bytes) as int))
    } else {
        Seq::<RecordModel>::empty()
    }
}

/// The length of the recoverable prefix of a log: the bytes of its valid
/// frames.
pub open spec fn valid_len(bytes: Seq<u8>) -> nat
    decreases bytes.len(),
{
    if frame_status(bytes) == FrameStatus::Valid {
        frame_len(bytes) + valid_len(bytes.skip(frame_len(bytes) as int))
    } else {
        0
    }
}

/// How a log ends.
#[derive(Debug, Clone, Copy, PartialEq, Eq, Structural)]
pub enum LogEnd {
    /// The last frame ends with the log.
    Clean,
    /// The log ends inside a frame: a torn write, which is no error.
    TornTail,
    /// A whole frame follows the recoverable prefix, but its parts disagree.
    Corrupt,
}

/// How the bytes after the recoverable prefix end the log.
pub open spec fn end_of(rest: Seq<u8>) -> LogEnd {
    if rest.len() == 0 {
        LogEnd::Clean
    } else if frame_status(rest) == FrameStatus::Incomplete {
        LogEnd::TornTail
    } else {
        LogEnd::Corrupt
    }
}

/// How a log ends.
pub open spec fn log_end(bytes: Seq<u8>) -> LogEnd {
    end_of(bytes.skip(valid_len(bytes) as int))
}

/// The records as mathematical values.
pub open spec fn models(records: Seq<WalRecord>) -> Seq<RecordModel> {
    records.map_values(|r: WalRecord| r@)
}

/// The recoverable prefix is part of the log.
pub proof fn lemma_valid_len_bound(bytes: Seq<u8>)
    ensures
        valid_len(bytes) <= bytes.len(),
    decreases bytes.len(),
{
    if frame_status(bytes) == FrameStatus::Valid {
        lemma_valid_len_bound(bytes.skip(frame_len(bytes) as int));
    }
}

/// What reading a log gives.
#[derive(Debug, Clone, PartialEq, Eq)]
pub struct LogScan {
    /// The records of the recoverable prefix, in the order of the log.
    pub records: Vec<WalRecord>,
    /// The length of the recoverable prefix in bytes.
    pub valid_len: usize,
    /// How the log ends.
    pub end: LogEnd,
}

/// Reads a log from its first byte.
pub fn read_log(bytes: &[u8]) -> (r: LogScan)
    ensures
        models(r.records@) == log_records(bytes@),
        r.valid_len == valid_len(bytes@),
        r.valid_len <= bytes@.len(),
        r.end == log_end(bytes@),
{
    let mut records: Vec<WalRecord> = Vec::new();
    let mut offset: usize = 0;
    let mut end = LogEnd::Clean;
    let mut done = false;
    proof {
        assert(bytes@.skip(0) =~= bytes@);
        assert(models(records@) =~= Seq::<RecordModel>::empty());
    }
    while !done
        invariant
            offset <= bytes@.len(),
            log_records(bytes@) == models(records@) + log_records(bytes@.skip(offset as int)),
            valid_len(bytes@) == offset + valid_len(bytes@.skip(offset as int)),
            done ==> frame_status(bytes@.skip(offset as int)) != FrameStatus::Valid && end
                == end_of(bytes@.skip(offset as int)),
        decreases bytes@.len() - offset, (if done { 0int } else { 1int }),
    {
        let rest = slice_subrange(bytes, offset, bytes.len());
        assert(rest@ =~= bytes@.skip(offset as int));
        if rest.len() == 0 {
            end = LogEnd::Clean;
            done = true;
        } else {
            match decode_frame(rest) {
                Ok(found) => {
                    let ghost before = records@;
                    let record = found.0;
                    let n = found.1;
                    records.push(record);
                    proof {
                        assert(bytes@.skip(offset as int).skip(n as int) =~= bytes@.skip(
                            offset + n,
                        ));
                        assert(models(records@) =~= models(before) + seq![record@]);
                    }
                    offset = offset + n;
                },
                Err(status) => {
                    end = match status {
                        FrameStatus::Incomplete => LogEnd::TornTail,
                        _ => LogEnd::Corrupt,
                    };
                    done = true;
                },
            }
        }
    }
    proof {
        assert(models(records@) + Seq::<RecordModel>::empty() =~= models(records@));
    }
    LogScan { records, valid_len: offset, end }
}

/// Reads a log from the offset given: the reader that replay and backup use
/// on a log whose start they have seen before. An offset beyond the log's
/// end reads as its end.
pub fn reader_from(bytes: &[u8], offset: usize) -> (r: LogScan)
    ensures
        ({
            let start = if offset <= bytes@.len() {
                offset as int
            } else {
                bytes@.len() as int
            };
            &&& models(r.records@) == log_records(bytes@.skip(start))
            &&& r.valid_len == valid_len(bytes@.skip(start))
            &&& r.end == log_end(bytes@.skip(start))
        }),
{
    let start = if offset <= bytes.len() {
        offset
    } else {
        bytes.len()
    };
    let rest = slice_subrange(bytes, start, bytes.len());
    assert(rest@ =~= bytes@.skip(start as int));
    read_log(rest)
}

/// The bytes of a log that holds the records given: their frames, one after
/// the other.
pub open spec fn log_bytes(records: Seq<RecordModel>) -> Seq<u8>
    decreases records.len(),
{
    if records.len() == 0 {
        Seq::<u8>::empty()
    } else {
        frame_bytes(records[0]) + log_bytes(records.drop_first())
    }
}

/// Every record fits a frame.
pub open spec fn all_encodable(records: Seq<RecordModel>) -> bool {
    forall|i: int| 0 <= i < records.len() ==> encodable(#[trigger] records[i])
}

/// Each record has a larger LSN than its predecessor.
pub open spec fn lsns_increase(records: Seq<RecordModel>) -> bool {
    forall|i: int, j: int| 0 <= i < j < records.len() ==> records[i].lsn < records[j].lsn
}

/// A log that starts with the frame of a record reads as that record, then
/// what the bytes after the frame read as.
pub proof fn lemma_read_of_first(first: RecordModel, after: Seq<u8>)
    requires
        encodable(first),
    ensures
        frame_bytes(first).len() == frame_size(first),
        log_records(frame_bytes(first) + after) == seq![first] + log_records(after),
        valid_len(frame_bytes(first) + after) == frame_size(first) + valid_len(after),
{
    let all = frame_bytes(first) + after;
    lemma_decode_of_encode(first, after);
    assert(all.skip(frame_size(first) as int) =~= after);
}

/// A log that holds the frames of some records, then other bytes, reads as
/// those records, then what the other bytes read as.
pub proof fn lemma_read_of_written(records: Seq<RecordModel>, tail: Seq<u8>)
    requires
        all_encodable(records),
    ensures
        log_records(log_bytes(records) + tail) == records + log_records(tail),
        valid_len(log_bytes(records) + tail) == log_bytes(records).len() + valid_len(tail),
    decreases records.len(),
{
    if records.len() == 0 {
        assert(log_bytes(records) + tail =~= tail);
        assert(records + log_records(tail) =~= log_records(tail));
    } else {
        let first = records[0];
        let others = records.drop_first();
        assert(encodable(first));
        assert forall|i: int| 0 <= i < others.len() implies encodable(#[trigger] others[i]) by {
            assert(others[i] == records[i + 1]);
        }
        let after = log_bytes(others) + tail;
        assert(log_bytes(records) + tail =~= frame_bytes(first) + after);
        lemma_read_of_first(first, after);
        lemma_read_of_written(others, tail);
        assert(seq![first] + (others + log_records(tail)) =~= records + log_records(tail));
    }
}

/// Every reader iterates in LSN order: in what is read back from a log of
/// records with increasing LSNs, a record with a smaller LSN comes before
/// one with a larger LSN.
pub proof fn lemma_readers_iterate_in_lsn_order(records: Seq<RecordModel>, tail: Seq<u8>)
    requires
        all_encodable(records),
        lsns_increase(records),
    ensures
        forall|i: int, j: int|
            0 <= i < records.len() && 0 <= j < records.len() && log_records(
                log_bytes(records) + tail,
            )[i].lsn < log_records(log_bytes(records) + tail)[j].lsn ==> i < j,
{
    lemma_read_of_written(records, tail);
    let read = log_records(log_bytes(records) + tail);
    assert forall|i: int, j: int|
        0 <= i < records.len() && 0 <= j < records.len() && read[i].lsn < read[j].lsn implies i
        < j by {
        assert(read[i] == records[i]);
        assert(read[j] == records[j]);
        if j < i {
            assert(records[j].lsn < records[i].lsn);
        }
    }
}

/// A torn write at the tail is discarded: a log whose last record was cut
/// down to `n` bytes, for every `n` below the record's full length, reads as
/// the records before it, and ends as a torn tail and not as an error.
pub proof fn lemma_torn_tail_is_discarded(records: Seq<RecordModel>, last: RecordModel, n: int)
    requires
        all_encodable(records),
        encodable(last),
        1 <= n < frame_size(last),
    ensures
        log_records(log_bytes(records) + frame_bytes(last).take(n)) == records,
        valid_len(log_bytes(records) + frame_bytes(last).take(n)) == log_bytes(records).len(),
        log_end(log_bytes(records) + frame_bytes(last).take(n)) == LogEnd::TornTail,
{
    let torn = frame_bytes(last).take(n);
    lemma_torn_frame_is_incomplete(last, n);
    lemma_read_of_written(records, torn);
    assert(records + Seq::<RecordModel>::empty() =~= records);
    let all = log_bytes(records) + torn;
    assert(all.skip(log_bytes(records).len() as int) =~= torn);
    lemma_decode_of_encode(last, Seq::<u8>::empty());
}

/// Bytes after the last record that are fewer than the shortest frame are
/// discarded, whatever they are, and end the log as a torn tail, never as
/// corrupt.
pub proof fn lemma_short_tail_is_discarded(records: Seq<RecordModel>, tail: Seq<u8>)
    requires
        all_encodable(records),
        tail.len() < MIN_FRAME_LEN,
    ensures
        log_records(log_bytes(records) + tail) == records,
        valid_len(log_bytes(records) + tail) == log_bytes(records).len(),
        log_end(log_bytes(records) + tail) == (if tail.len() == 0 {
            LogEnd::Clean
        } else {
            LogEnd::TornTail
        }),
{
    lemma_read_of_written(records, tail);
    assert(records + Seq::<RecordModel>::empty() =~= records);
    let all = log_bytes(records) + tail;
    assert(all.skip(log_bytes(records).len() as int) =~= tail);
}

/// Replay ends at the first frame that is not valid: whatever follows the
/// records before a corrupt frame, those records are all that is read, and a
/// whole frame whose parts disagree ends the log as corrupt.
pub proof fn lemma_replay_stops_at_corruption(records: Seq<RecordModel>, rest: Seq<u8>)
    requires
        all_encodable(records),
        frame_status(rest) != FrameStatus::Valid,
    ensures
        log_records(log_bytes(records) + rest) == records,
        valid_len(log_bytes(records) + rest) == log_bytes(records).len(),
        frame_status(rest) == FrameStatus::Corrupt ==> log_end(log_bytes(records) + rest)
            == LogEnd::Corrupt,
{
    lemma_read_of_written(records, rest);
    assert(records + Seq::<RecordModel>::empty() =~= records);
    let all = log_bytes(records) + rest;
    assert(all.skip(log_bytes(records).len() as int) =~= rest);
}

} // verus!
