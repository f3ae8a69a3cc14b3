//! The frame of a WAL record, bit for bit.
//!
//! ```text
//! offset 0:   u32 length, little-endian: the bytes from type to payload
//! offset 4:   u32 CRC-32C of the bytes [8 .. 8 + length]
//! offset 8:   u8  type (1 Begin, 2 Commit, 3 Abort, 4 Put, 5 Delete,
//!                 6 Schema, 7 Checkpoint)
//! offset 9:   u64 lsn
//! offset 17:  u64 txn_id (0 for autocommit)
//! offset 25:  payload
//! then:       u32 trailing length, equal to length
//! ```

use vstd::bytes::*;
use vstd::prelude::*;
use vstd::slice::*;
use crate::wal::checksum::{compute_crc32c, crc32c};

verus! {

/// The bytes of a frame before the record's body: length and checksum.
pub const FRAME_HEADER_LEN: usize = 8;

/// The bytes of a record's body before the payload: type, LSN, transaction.
pub const BODY_FIXED_LEN: usize = 17;

/// The bytes of a frame that are not the record's body: length, checksum and
/// trailing length.
pub const FRAME_OVERHEAD: usize = 12;

/// The length of the shortest frame: one with an empty payload.
pub const MIN_FRAME_LEN: usize = 29;

/// The type of a WAL record.
#[derive(Debug, Clone, Copy, PartialEq, Eq, Structural)]
pub enum RecordKind {
    Begin,
    Commit,
    Abort,
    Put,
    Delete,
    Schema,
    Checkpoint,
}

impl RecordKind {
    /// The byte that stands for the type in a frame.
    pub open spec fn spec_code(self) -> u8 {
        match self {
            RecordKind::Begin => 1,
            RecordKind::Commit => 2,
            RecordKind::Abort => 3,
            RecordKind::Put => 4,
            RecordKind::Delete => 5,
            RecordKind::Schema => 6,
            RecordKind::Checkpoint => 7,
        }
    }

    /// The type that a byte stands for, if it stands for one.
    pub open spec fn spec_from_code(code: u8) -> Option<RecordKind> {
        if code == 1 {
            Some(RecordKind::Begin)
        } else if code == 2 {
            Some(RecordKind::Commit)
        } else if code == 3 {
            Some(RecordKind::Abort)
        } else if code == 4 {
            Some(RecordKind::Put)
        } else if code == 5 {
            Some(RecordKind::Delete)
        } else if code == 6 {
            Some(RecordKind::Schema)
        } else if code == 7 {
            Some(RecordKind::Checkpoint)
        } else {
            None
        }
    }

    /// The byte that stands for the type in a frame.
    pub fn code(&self) -> (r: u8)
        ensures
            r == self.spec_code(),
    {
        match self {
            RecordKind::Begin => 1,
            RecordKind::Commit => 2,
            RecordKind::Abort => 3,
            RecordKind::Put => 4,
            RecordKind::Delete => 5,
            RecordKind::Schema => 6,
            RecordKind::Checkpoint => 7,
        }
    }

    /// The type that a byte stands for, if it stands for one.
    pub fn from_code(code: u8) -> (r: Option<RecordKind>)
        ensures
            r == RecordKind::spec_from_code(code),
    {
        if code == 1 {
            Some(RecordKind::Begin)
        } else if code == 2 {
            Some(RecordKind::Commit)
        } else if code == 3 {
            Some(RecordKind::Abort)
        } else if code == 4 {
            Some(RecordKind::Put)
        } else if code == 5 {
            Some(RecordKind::Delete)
        } else if code == 6 {
            Some(RecordKind::Schema)
        } else if code == 7 {
            Some(RecordKind::Checkpoint)
        } else {
            None
        }
    }
}

/// A WAL record as a mathematical value.
pub struct RecordModel {
    pub kind: RecordKind,
    pub lsn: u64,
    pub txn_id: u64,
    pub payload: Seq<u8>,
}

/// A WAL record.
#[derive(Debug, Clone, PartialEq, Eq)]
pub struct WalRecord {
    /// The record's type.
    pub kind: RecordKind,
    /// The log sequence number.
    pub lsn: u64,
    /// The transaction, 0 for autocommit.
    pub txn_id: u64,
    /// The payload, whose form depends on the type.
    pub payload: Vec<u8>,
}

impl View for WalRecord {
    type V = RecordModel;

    open spec fn view(&self) -> RecordModel {
        RecordModel {
            kind: self.kind,
            lsn: self.lsn,
            txn_id: self.txn_id,
            payload: self.payload@,
        }
    }
}

/// Whether a record fits a frame: its body's length can be written in 32
/// bits.
pub open spec fn encodable(r: RecordModel) -> bool {
    BODY_FIXED_LEN + r.payload.len() <= u32::MAX
}

/// The body of a record: type, LSN, transaction and payload.
pub open spec fn body_bytes(r: RecordModel) -> Seq<u8> {
    seq![r.kind.spec_code()] + spec_u64_to_le_bytes(r.lsn) + spec_u64_to_le_bytes(r.txn_id)
        + r.payload
}

/// The frame of a record.
pub open spec fn frame_bytes(r: RecordModel) -> Seq<u8> {
    spec_u32_to_le_bytes((BODY_FIXED_LEN + r.payload.len()) as u32) + spec_u32_to_le_bytes(
        crc32c(body_bytes(r)),
    ) + body_bytes(r) + spec_u32_to_le_bytes((BODY_FIXED_LEN + r.payload.len()) as u32)
}

/// What stands at the start of some bytes of a log.
#[derive(Debug, Clone, Copy, PartialEq, Eq, Structural)]
pub enum FrameStatus {
    /// A whole frame whose length, checksum, trailing length and type agree.
    Valid,
    /// The bytes end before a frame does: a torn write. Bytes that are
    /// fewer than the shortest frame are of this kind whatever they hold.
    Incomplete,
    /// The bytes of a frame are all there, but its parts disagree.
    Corrupt,
}

/// The length that the first four bytes declare.
pub open spec fn declared_length(bytes: Seq<u8>) -> u32 {
    spec_u32_from_le_bytes(bytes.subrange(0, 4))
}

/// The checksum that the bytes 4 to 8 declare.
pub open spec fn declared_crc(bytes: Seq<u8>) -> u32 {
    spec_u32_from_le_bytes(bytes.subrange(4, 8))
}

/// The body that the frame at the start of `bytes` holds.
pub open spec fn frame_body(bytes: Seq<u8>) -> Seq<u8> {
    bytes.subrange(8, 8 + declared_length(bytes))
}

/// The trailing length of the frame at the start of `bytes`.
pub open spec fn trailing_length(bytes: Seq<u8>) -> u32 {
    spec_u32_from_le_bytes(
        bytes.subrange(8 + declared_length(bytes), 12 + declared_length(bytes)),
    )
}

/// What stands at the start of `bytes`. Where no complete frame can stand,
/// because the bytes are fewer than the shortest frame or fewer than the
/// frame that they declare, the frame is incomplete; it is corrupt only
/// where its bytes are all there and fail a check.
pub open spec fn frame_status(bytes: Seq<u8>) -> FrameStatus {
    if bytes.len() < MIN_FRAME_LEN {
        FrameStatus::Incomplete
    } else if declared_length(bytes) < BODY_FIXED_LEN {
        FrameStatus::Corrupt
    } else if bytes.len() < FRAME_OVERHEAD + declared_length(bytes) {
        FrameStatus::Incomplete
    } else if trailing_length(bytes) != declared_length(bytes) || declared_crc(bytes) != crc32c(
        frame_body(bytes),
    ) || RecordKind::spec_from_code(bytes[8]) is None {
        FrameStatus::Corrupt
    } else {
        FrameStatus::Valid
    }
}

/// The length of the frame at the start of `bytes`.
pub open spec fn frame_len(bytes: Seq<u8>) -> nat {
    (FRAME_OVERHEAD + declared_length(bytes)) as nat
}

/// The record that the frame at the start of `bytes` holds.
pub open spec fn frame_record(bytes: Seq<u8>) -> RecordModel {
    RecordModel {
        kind: RecordKind::spec_from_code(bytes[8])->0,
        lsn: spec_u64_from_le_bytes(bytes.subrange(9, 17)),
        txn_id: spec_u64_from_le_bytes(bytes.subrange(17, 25)),
        payload: bytes.subrange(25, 8 + declared_length(bytes)),
    }
}

/// Appends `src` to `out`.
pub fn append_bytes(out: &mut Vec<u8>, src: &[u8])
    ensures
        final(out)@ == old(out)@ + src@,
{
    let mut i: usize = 0;
    while i < src.len()
        invariant
            i <= src@.len(),
            out@ == old(out)@ + src@.take(i as int),
        decreases src@.len() - i,
    {
        out.push(src[i]);
        assert(out@ =~= old(out)@ + src@.take(i + 1));
        i = i + 1;
    }
    assert(src@.take(src@.len() as int) =~= src@);
}

/// Writes the frame of a record. A record whose body is too long for a frame
/// has none.
pub fn encode_frame(record: &WalRecord) -> (r: Option<Vec<u8>>)
    ensures
        encodable(record@) ==> r is Some && r->0@ == frame_bytes(record@),
        !encodable(record@) ==> r is None,
{
    if record.payload.len() > (u32::MAX as usize) - BODY_FIXED_LEN {
        return None;
    }
    let length: u32 = (BODY_FIXED_LEN + record.payload.len()) as u32;
    let mut body: Vec<u8> = Vec::new();
    body.push(record.kind.code());
    let lsn = u64_to_le_bytes(record.lsn);
    append_bytes(&mut body, lsn.as_slice());
    let txn = u64_to_le_bytes(record.txn_id);
    append_bytes(&mut body, txn.as_slice());
    append_bytes(&mut body, record.payload.as_slice());
    assert(body@ =~= body_bytes(record@));
    let crc = compute_crc32c(body.as_slice());
    let mut out = u32_to_le_bytes(length);
    let crc_bytes = u32_to_le_bytes(crc);
    append_bytes(&mut out, crc_bytes.as_slice());
    append_bytes(&mut out, body.as_slice());
    let tail = u32_to_le_bytes(length);
    append_bytes(&mut out, tail.as_slice());
    Some(out)
}

/// Reads the frame at the start of `bytes`: the record and the frame's
/// length for a valid frame, else whether the frame is incomplete or
/// corrupt.
pub fn decode_frame(bytes: &[u8]) -> (r: Result<(WalRecord, usize), FrameStatus>)
    ensures
        match r {
            Ok(found) => {
                &&& frame_status(bytes@) == FrameStatus::Valid
                &&& found.0@ == frame_record(bytes@)
                &&& found.1 == frame_len(bytes@)
                &&& found.1 <= bytes@.len()
            },
            Err(status) => status != FrameStatus::Valid && status == frame_status(bytes@),
        },
{
    if bytes.len() < MIN_FRAME_LEN {
        return Err(FrameStatus::Incomplete);
    }
    let length = u32_from_le_bytes(slice_subrange(bytes, 0, 4));
    if (length as usize) < BODY_FIXED_LEN {
        return Err(FrameStatus::Corrupt);
    }
    if bytes.len() < FRAME_OVERHEAD || bytes.len() - FRAME_OVERHEAD < length as usize {
        return Err(FrameStatus::Incomplete);
    }
    let body_end: usize = FRAME_HEADER_LEN + length as usize;
    let trailing = u32_from_le_bytes(slice_subrange(bytes, body_end, body_end + 4));
    if trailing != length {
        return Err(FrameStatus::Corrupt);
    }
    let declared = u32_from_le_bytes(slice_subrange(bytes, 4, 8));
    let body = slice_subrange(bytes, FRAME_HEADER_LEN, body_end);
    if declared != compute_crc32c(body) {
        return Err(FrameStatus::Corrupt);
    }
    let kind = match RecordKind::from_code(bytes[8]) {
        Some(kind) => kind,
        None => {
            return Err(FrameStatus::Corrupt);
        },
    };
    let lsn = u64_from_le_bytes(slice_subrange(bytes, 9, 17));
    let txn_id = u64_from_le_bytes(slice_subrange(bytes, 17, 25));
    let payload = slice_to_vec(slice_subrange(bytes, 25, body_end));
    Ok((WalRecord { kind, lsn, txn_id, payload }, body_end + 4))
}

/// The length of a record's frame.
pub open spec fn frame_size(r: RecordModel) -> nat {
    (MIN_FRAME_LEN + r.payload.len()) as nat
}

/// Reading undoes writing: the bytes of a record's frame, whatever follows
/// them, start with a valid frame that holds that record and is as long as
/// the frame that was written.
pub proof fn lemma_decode_of_encode(r: RecordModel, rest: Seq<u8>)
    requires
        encodable(r),
    ensures
        frame_bytes(r).len() == frame_size(r),
        frame_status(frame_bytes(r) + rest) == FrameStatus::Valid,
        frame_record(frame_bytes(r) + rest) == r,
        frame_len(frame_bytes(r) + rest) == frame_size(r),
{
    lemma_auto_spec_u32_to_from_le_bytes();
    lemma_auto_spec_u64_to_from_le_bytes();
    let length = (BODY_FIXED_LEN + r.payload.len()) as u32;
    let body = body_bytes(r);
    let frame = frame_bytes(r);
    let bytes = frame + rest;
    assert(spec_u64_to_le_bytes(r.lsn).len() == 8);
    assert(spec_u64_to_le_bytes(r.txn_id).len() == 8);
    assert(body.len() == length);
    assert(frame.len() == frame_size(r));
    assert(bytes.subrange(0, 4) =~= spec_u32_to_le_bytes(length));
    assert(declared_length(bytes) == length);
    assert(bytes.subrange(4, 8) =~= spec_u32_to_le_bytes(crc32c(body)));
    assert(bytes.subrange(8, 8 + length) =~= body);
    assert(bytes.subrange(8 + length, 12 + length) =~= spec_u32_to_le_bytes(length));
    assert(bytes[8] == r.kind.spec_code());
    assert(RecordKind::spec_from_code(r.kind.spec_code()) == Some(r.kind));
    assert(bytes.subrange(9, 17) =~= spec_u64_to_le_bytes(r.lsn));
    assert(bytes.subrange(17, 25) =~= spec_u64_to_le_bytes(r.txn_id));
    assert(bytes.subrange(25, 8 + length) =~= r.payload);
}

/// Writing undoes reading: the frame of the record that a valid frame holds
/// is that frame, byte for byte.
pub proof fn lemma_encode_of_decode(bytes: Seq<u8>)
    requires
        frame_status(bytes) == FrameStatus::Valid,
    ensures
        encodable(frame_record(bytes)),
        frame_bytes(frame_record(bytes)) == bytes.take(frame_len(bytes) as int),
{
    lemma_auto_spec_u32_to_from_le_bytes();
    lemma_auto_spec_u64_to_from_le_bytes();
    let length = declared_length(bytes);
    let r = frame_record(bytes);
    assert(r.payload.len() == length - BODY_FIXED_LEN);
    assert((BODY_FIXED_LEN + r.payload.len()) as u32 == length);
    let kind = RecordKind::spec_from_code(bytes[8])->0;
    assert(kind.spec_code() == bytes[8]);
    assert(spec_u64_to_le_bytes(r.lsn) == bytes.subrange(9, 17));
    assert(spec_u64_to_le_bytes(r.txn_id) == bytes.subrange(17, 25));
    assert(body_bytes(r) =~= frame_body(bytes));
    assert(spec_u32_to_le_bytes(length) == bytes.subrange(0, 4));
    assert(spec_u32_to_le_bytes(crc32c(body_bytes(r))) == bytes.subrange(4, 8));
    assert(spec_u32_to_le_bytes(length) == bytes.subrange(8 + length, 12 + length));
    assert(frame_bytes(r) =~= bytes.take(frame_len(bytes) as int));
}

/// A frame is read from its own bytes alone: what follows a valid frame does
/// not matter.
pub proof fn lemma_frame_ignores_rest(bytes: Seq<u8>, other: Seq<u8>)
    requires
        frame_status(bytes) == FrameStatus::Valid,
        other.len() >= frame_len(bytes),
        other.take(frame_len(bytes) as int) == bytes.take(frame_len(bytes) as int),
    ensures
        frame_status(other) == FrameStatus::Valid,
        frame_record(other) == frame_record(bytes),
        frame_len(other) == frame_len(bytes),
{
    lemma_encode_of_decode(bytes);
    let r = frame_record(bytes);
    let n = frame_len(bytes) as int;
    let rest = other.skip(n);
    assert(other =~= frame_bytes(r) + rest);
    lemma_decode_of_encode(r, rest);
}

/// A record that a crash cut short is no valid frame: the first `n` bytes of
/// a frame, for every `n` below the frame's length, are an incomplete frame.
pub proof fn lemma_torn_frame_is_incomplete(r: RecordModel, n: int)
    requires
        encodable(r),
        0 <= n < frame_size(r),
    ensures
        frame_status(frame_bytes(r).take(n)) == FrameStatus::Incomplete,
{
    lemma_decode_of_encode(r, Seq::<u8>::empty());
    let frame = frame_bytes(r);
    assert(frame + Seq::<u8>::empty() =~= frame);
    let torn = frame.take(n);
    if n >= FRAME_HEADER_LEN {
        assert(torn.subrange(0, 4) =~= frame.subrange(0, 4));
    }
}

/// Bytes that are fewer than the shortest frame hold no valid frame.
pub proof fn lemma_short_tail_is_no_frame(tail: Seq<u8>)
    requires
        tail.len() < MIN_FRAME_LEN,
    ensures
        frame_status(tail) != FrameStatus::Valid,
{
}

} // verus!
