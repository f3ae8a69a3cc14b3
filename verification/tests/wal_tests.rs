use aerodb::recovery::{may_accept_writes, recover, RecoveryError, RecoveryState};
use aerodb::storage::{ApplyOutcome, PageStore};
use aerodb::wal::checksum::compute_crc32c;
use aerodb::wal::frame::{
    decode_frame, encode_frame, FrameStatus, RecordKind, WalRecord, FRAME_OVERHEAD, MIN_FRAME_LEN,
};
use aerodb::wal::payload::{
    decode_checkpoint, decode_key, encode_checkpoint, encode_delete, encode_put,
};
use aerodb::wal::reader::{read_log, reader_from, LogEnd};
use aerodb::wal::writer::{
    should_roll_segment, truncate_before, GroupCommitConfig, WalError, WalIoFailure, WalWriter,
};

fn put(lsn: u64, collection: &[u8], pk: &[u8], doc: &[u8]) -> WalRecord {
    WalRecord {
        kind: RecordKind::Put,
        lsn,
        txn_id: 0,
        payload: encode_put(collection, pk, doc).unwrap(),
    }
}

fn delete(lsn: u64, collection: &[u8], pk: &[u8]) -> WalRecord {
    WalRecord {
        kind: RecordKind::Delete,
        lsn,
        txn_id: 0,
        payload: encode_delete(collection, pk).unwrap(),
    }
}

fn checkpoint(lsn: u64, through: u64) -> WalRecord {
    WalRecord { kind: RecordKind::Checkpoint, lsn, txn_id: 0, payload: encode_checkpoint(through) }
}

fn log_of(records: &[WalRecord]) -> Vec<u8> {
    let mut out = Vec::new();
    for r in records {
        out.extend_from_slice(&encode_frame(r).unwrap());
    }
    out
}

// Checksum

#[test]
fn crc32c_of_the_check_text() {
    assert_eq!(compute_crc32c(b"123456789"), 0xE3069283);
    assert_eq!(compute_crc32c(b""), 0);
    assert_eq!(compute_crc32c(&[0u8; 32]), 0x8A9136AA);
    assert_eq!(compute_crc32c(&[0xFFu8; 32]), 0x62A8AB43);
}

// Frames

#[test]
fn frame_layout_is_as_documented() {
    let record = WalRecord {
        kind: RecordKind::Commit,
        lsn: 0x0102030405060708,
        txn_id: 9,
        payload: vec![0xAA, 0xBB],
    };
    let frame = encode_frame(&record).unwrap();
    assert_eq!(frame.len(), MIN_FRAME_LEN + 2);
    assert_eq!(FRAME_OVERHEAD, 12);
    // Length of what the checksum covers: type, LSN, transaction, payload.
    assert_eq!(&frame[0..4], &19u32.to_le_bytes());
    assert_eq!(&frame[4..8], &compute_crc32c(&frame[8..27]).to_le_bytes());
    assert_eq!(frame[8], 2);
    assert_eq!(&frame[9..17], &0x0102030405060708u64.to_le_bytes());
    assert_eq!(&frame[17..25], &9u64.to_le_bytes());
    assert_eq!(&frame[25..27], &[0xAA, 0xBB]);
    assert_eq!(&frame[27..31], &19u32.to_le_bytes());
}

#[test]
fn record_kinds_have_their_codes() {
    let kinds = [
        (RecordKind::Begin, 1u8),
        (RecordKind::Commit, 2),
        (RecordKind::Abort, 3),
        (RecordKind::Put, 4),
        (RecordKind::Delete, 5),
        (RecordKind::Schema, 6),
        (RecordKind::Checkpoint, 7),
    ];
    for (kind, code) in kinds {
        assert_eq!(kind.code(), code);
        assert_eq!(RecordKind::from_code(code), Some(kind));
    }
    assert_eq!(RecordKind::from_code(0), None);
    assert_eq!(RecordKind::from_code(8), None);
    assert_eq!(RecordKind::from_code(255), None);
}

#[test]
fn decoding_undoes_encoding() {
    let records = [
        put(1, b"users", b"alice", b"{\"age\":30}"),
        delete(u64::MAX, b"", b""),
        checkpoint(7, 3),
        WalRecord { kind: RecordKind::Begin, lsn: 0, txn_id: u64::MAX, payload: vec![] },
        WalRecord { kind: RecordKind::Schema, lsn: 5, txn_id: 1, payload: vec![0; 1000] },
    ];
    for record in &records {
        let frame = encode_frame(record).unwrap();
        let (decoded, used) = decode_frame(&frame).unwrap();
        assert_eq!(&decoded, record);
        assert_eq!(used, frame.len());
        // What follows a frame does not change how it is read.
        let mut longer = frame.clone();
        longer.extend_from_slice(&[1, 2, 3]);
        let (again, used_again) = decode_frame(&longer).unwrap();
        assert_eq!(&again, record);
        assert_eq!(used_again, frame.len());
        // Encoding what was read gives the bytes that were read.
        assert_eq!(encode_frame(&decoded).unwrap(), frame);
    }
}

#[test]
fn every_proper_prefix_of_a_frame_is_incomplete() {
    let frame = encode_frame(&put(1, b"users", b"alice", b"doc")).unwrap();
    for n in 0..frame.len() {
        assert_eq!(decode_frame(&frame[..n]).unwrap_err(), FrameStatus::Incomplete, "at {}", n);
    }
}

#[test]
fn a_frame_whose_parts_disagree_is_corrupt() {
    let frame = encode_frame(&put(1, b"users", b"alice", b"doc")).unwrap();
    for at in 4..frame.len() {
        let mut bad = frame.clone();
        bad[at] ^= 0x01;
        assert_eq!(decode_frame(&bad).unwrap_err(), FrameStatus::Corrupt, "at {}", at);
    }
    // An unknown type with a checksum that fits is corrupt too.
    let mut body = vec![9u8];
    body.extend_from_slice(&1u64.to_le_bytes());
    body.extend_from_slice(&0u64.to_le_bytes());
    let mut unknown = Vec::new();
    unknown.extend_from_slice(&17u32.to_le_bytes());
    unknown.extend_from_slice(&compute_crc32c(&body).to_le_bytes());
    unknown.extend_from_slice(&body);
    unknown.extend_from_slice(&17u32.to_le_bytes());
    assert_eq!(decode_frame(&unknown).unwrap_err(), FrameStatus::Corrupt);
    // A length below that of the fixed fields cannot be a frame's.
    let mut short = Vec::new();
    short.extend_from_slice(&16u32.to_le_bytes());
    short.extend_from_slice(&[0u8; 40]);
    assert_eq!(decode_frame(&short).unwrap_err(), FrameStatus::Corrupt);
}

// Payloads

#[test]
fn payloads_hold_lengths_and_bytes() {
    let payload = encode_put(b"ab", b"xyz", b"doc!").unwrap();
    let mut expected = Vec::new();
    expected.extend_from_slice(&2u32.to_le_bytes());
    expected.extend_from_slice(b"ab");
    expected.extend_from_slice(&3u32.to_le_bytes());
    expected.extend_from_slice(b"xyz");
    expected.extend_from_slice(b"doc!");
    assert_eq!(payload, expected);
    assert_eq!(encode_delete(b"ab", b"xyz").unwrap(), &expected[..13]);

    let key = decode_key(&payload).unwrap();
    assert_eq!(key.collection, b"ab");
    assert_eq!(key.pk, b"xyz");
    assert_eq!(key.consumed, 13);
    assert_eq!(&payload[key.consumed..], b"doc!");

    assert!(decode_key(&payload[..12]).is_none());
    assert!(decode_key(&[]).is_none());
    assert!(decode_key(&[5, 0, 0, 0, 1]).is_none());

    assert_eq!(encode_checkpoint(0x0102), 0x0102u64.to_le_bytes());
    assert_eq!(decode_checkpoint(&encode_checkpoint(u64::MAX)), Some(u64::MAX));
    assert_eq!(decode_checkpoint(&[1, 2, 3]), None);
    assert_eq!(decode_checkpoint(&[0u8; 9]), None);
}

// Reader

#[test]
fn reading_gives_what_was_written_in_order() {
    let records =
        vec![put(1, b"c", b"a", b"1"), put(2, b"c", b"b", b"2"), delete(3, b"c", b"a")];
    let log = log_of(&records);
    let scan = read_log(&log);
    assert_eq!(scan.records, records);
    assert_eq!(scan.valid_len, log.len());
    assert_eq!(scan.end, LogEnd::Clean);

    let empty = read_log(&[]);
    assert!(empty.records.is_empty());
    assert_eq!(empty.valid_len, 0);
    assert_eq!(empty.end, LogEnd::Clean);
}

#[test]
fn a_torn_tail_is_dropped_at_every_length() {
    let records = vec![put(1, b"c", b"a", b"1"), put(2, b"c", b"b", b"2")];
    let log = log_of(&records);
    let torn = encode_frame(&put(3, b"c", b"x", b"never acknowledged")).unwrap();
    for n in 1..torn.len() {
        let mut bytes = log.clone();
        bytes.extend_from_slice(&torn[..n]);
        let scan = read_log(&bytes);
        assert_eq!(scan.records, records, "at {}", n);
        assert_eq!(scan.valid_len, log.len(), "at {}", n);
        assert_eq!(scan.end, LogEnd::TornTail, "at {}", n);
    }
}

#[test]
fn a_tail_of_seventeen_bytes_is_dropped_and_the_next_lsn_follows_the_last_valid_one() {
    let records: Vec<WalRecord> =
        (1..=5).map(|lsn| put(lsn, b"c", &[lsn as u8], b"doc")).collect();
    let log = log_of(&records);
    let mut bytes = log.clone();
    bytes.extend_from_slice(&encode_frame(&put(6, b"c", b"z", b"torn")).unwrap()[..17]);
    let scan = read_log(&bytes);
    assert_eq!(scan.records.len(), 5);
    assert_eq!(scan.valid_len, log.len());
    assert_eq!(scan.end, LogEnd::TornTail);

    let last = scan.records.last().unwrap().lsn;
    let mut writer = WalWriter::resume(last);
    assert_eq!(writer.next_lsn(), 6);
    assert_eq!(writer.append(RecordKind::Put, 0, encode_put(b"c", b"n", b"new").unwrap()), Ok(6));
    // The new record stands where the torn bytes stood.
    let mut rewritten = bytes[..scan.valid_len].to_vec();
    rewritten.extend_from_slice(writer.pending_bytes());
    let after = read_log(&rewritten);
    assert_eq!(after.end, LogEnd::Clean);
    assert_eq!(after.records.len(), 6);
    assert_eq!(after.records[5].lsn, 6);
}

#[test]
fn reading_stops_at_a_corrupt_frame() {
    let records =
        vec![put(1, b"c", b"a", b"1"), put(2, b"c", b"b", b"2"), put(3, b"c", b"c", b"3")];
    let first_two = log_of(&records[..2]);
    let mut log = log_of(&records);
    let at = first_two.len() + 10;
    log[at] ^= 0xFF;
    let scan = read_log(&log);
    assert_eq!(scan.records, &records[..2]);
    assert_eq!(scan.valid_len, first_two.len());
    assert_eq!(scan.end, LogEnd::Corrupt);
}

#[test]
fn a_reader_can_start_at_any_frame() {
    let records =
        vec![put(1, b"c", b"a", b"1"), put(2, b"c", b"b", b"2"), put(3, b"c", b"c", b"3")];
    let log = log_of(&records);
    let first = encode_frame(&records[0]).unwrap().len();
    let scan = reader_from(&log, first);
    assert_eq!(scan.records, &records[1..]);
    assert_eq!(scan.end, LogEnd::Clean);
    let at_end = reader_from(&log, log.len());
    assert!(at_end.records.is_empty());
    let beyond = reader_from(&log, log.len() + 5);
    assert!(beyond.records.is_empty());
}

// Writer

#[test]
fn appends_get_consecutive_lsns_and_are_durable_after_the_sync() {
    let mut writer = WalWriter::new();
    assert_eq!(writer.next_lsn(), 1);
    assert_eq!(writer.durable_lsn(), 0);
    let a = writer.append(RecordKind::Put, 0, encode_put(b"c", b"a", b"1").unwrap()).unwrap();
    let b = writer.append(RecordKind::Put, 0, encode_put(b"c", b"b", b"2").unwrap()).unwrap();
    assert_eq!((a, b), (1, 2));
    assert_eq!(writer.pending_acks(), 2);
    // Nothing is acknowledged before the sync.
    assert!(!writer.may_acknowledge(1));
    assert!(!writer.may_acknowledge(2));

    let written = writer.pending_bytes().to_vec();
    let scan = read_log(&written);
    assert_eq!(scan.records.iter().map(|r| r.lsn).collect::<Vec<_>>(), vec![1, 2]);

    assert_eq!(writer.fsync_through(), 2);
    assert!(writer.may_acknowledge(1));
    assert!(writer.may_acknowledge(2));
    assert!(!writer.may_acknowledge(3));
    assert_eq!(writer.durable_lsn(), 2);
    assert_eq!(writer.pending_acks(), 0);
    assert!(writer.pending_bytes().is_empty());
    assert_eq!(writer.next_lsn(), 3);
}

#[test]
fn a_write_error_poisons_the_writer() {
    let mut writer = WalWriter::new();
    writer.append(RecordKind::Begin, 1, vec![]).unwrap();
    writer.mark_failed(WalIoFailure::Fsync);
    assert!(writer.is_poisoned());
    assert_eq!(
        writer.append(RecordKind::Commit, 1, vec![]),
        Err(WalError::Poisoned(WalIoFailure::Fsync))
    );
    // What was buffered is never acknowledged.
    assert!(!writer.may_acknowledge(1));
    assert_eq!(writer.pending_acks(), 0);
    // The first failure stays.
    writer.mark_failed(WalIoFailure::Append);
    assert_eq!(
        writer.append(RecordKind::Commit, 1, vec![]),
        Err(WalError::Poisoned(WalIoFailure::Fsync))
    );
}

#[test]
fn the_last_lsn_is_not_exceeded() {
    let mut writer = WalWriter::resume(u64::MAX - 1);
    assert_eq!(writer.append(RecordKind::Begin, 1, vec![]), Ok(u64::MAX));
    assert_eq!(writer.append(RecordKind::Begin, 1, vec![]), Err(WalError::LsnExhausted));
}

#[test]
fn wal_errors_have_codes() {
    assert_eq!(WalError::Poisoned(WalIoFailure::Append).code(), "AERO_WAL_APPEND_FAILED");
    assert_eq!(WalError::Poisoned(WalIoFailure::Fsync).code(), "AERO_WAL_FSYNC_FAILED");
    assert!(WalError::RecordTooLarge.code().starts_with("AERO_WAL_"));
    assert!(WalError::LsnExhausted.code().starts_with("AERO_WAL_"));
}

#[test]
fn a_sync_is_due_by_bytes_by_waiting_appenders_or_by_time() {
    let config = GroupCommitConfig { max_batch_bytes: 100, max_pending_acks: 3, max_latency_ms: 10 };
    let mut writer = WalWriter::new();
    // Nothing is buffered: no sync, however long the wait.
    assert!(!writer.should_sync(&config, 1_000));
    writer.append(RecordKind::Begin, 1, vec![]).unwrap();
    assert!(!writer.should_sync(&config, 9));
    assert!(writer.should_sync(&config, 10));
    writer.append(RecordKind::Begin, 2, vec![]).unwrap();
    assert!(!writer.should_sync(&config, 0));
    writer.append(RecordKind::Begin, 3, vec![]).unwrap();
    assert!(writer.should_sync(&config, 0));

    let mut bulky = WalWriter::new();
    bulky.append(RecordKind::Schema, 0, vec![0; 71]).unwrap();
    assert_eq!(bulky.pending_bytes().len(), 100);
    assert!(bulky.should_sync(&config, 0));
    let mut slim = WalWriter::new();
    slim.append(RecordKind::Schema, 0, vec![0; 70]).unwrap();
    assert!(!slim.should_sync(&config, 0));
}

#[test]
fn segments_roll_and_are_removed() {
    assert!(!should_roll_segment(0, 500, 100));
    assert!(!should_roll_segment(60, 40, 100));
    assert!(should_roll_segment(60, 41, 100));
    assert!(should_roll_segment(1, u64::MAX, u64::MAX));
    assert!(truncate_before(10, true, 10));
    assert!(!truncate_before(11, true, 10));
    assert!(!truncate_before(5, false, 10));
}

// Storage

#[test]
fn apply_is_idempotent_by_lsn() {
    let mut store = PageStore::new();
    let record = put(5, b"users", b"alice", b"v1");
    assert_eq!(store.apply(&record), ApplyOutcome::Applied);
    let once = store.snapshot();
    assert_eq!(store.apply(&record), ApplyOutcome::AlreadyApplied);
    assert_eq!(store.snapshot(), once);
    // A record with a lower LSN is ignored too.
    assert_eq!(store.apply(&put(4, b"users", b"alice", b"old")), ApplyOutcome::AlreadyApplied);
    assert_eq!(store.get(b"users", b"alice"), Some(b"v1".to_vec()));
    assert_eq!(store.last_lsn_applied(), 5);
}

#[test]
fn puts_and_deletes_change_the_documents() {
    let mut store = PageStore::new();
    assert_eq!(store.get(b"users", b"alice"), None);
    assert!(!store.contains(b"users", b"alice"));
    store.apply(&put(1, b"users", b"alice", b"v1"));
    store.apply(&put(2, b"users", b"bob", b"b1"));
    store.apply(&put(3, b"users", b"alice", b"v2"));
    store.apply(&put(4, b"posts", b"alice", b"p1"));
    assert_eq!(store.get(b"users", b"alice"), Some(b"v2".to_vec()));
    assert_eq!(store.get(b"users", b"bob"), Some(b"b1".to_vec()));
    assert_eq!(store.get(b"posts", b"alice"), Some(b"p1".to_vec()));
    assert!(store.contains(b"users", b"bob"));

    store.apply(&delete(5, b"users", b"alice"));
    assert_eq!(store.get(b"users", b"alice"), None);
    assert!(!store.contains(b"users", b"alice"));
    assert_eq!(store.get(b"posts", b"alice"), Some(b"p1".to_vec()));
    store.apply(&put(6, b"users", b"alice", b"v3"));
    assert_eq!(store.get(b"users", b"alice"), Some(b"v3".to_vec()));
    assert_eq!(store.last_lsn_applied(), 6);
}

#[test]
fn a_malformed_record_changes_nothing() {
    let mut store = PageStore::new();
    store.apply(&put(1, b"users", b"alice", b"v1"));
    let before = store.snapshot();
    let bad = WalRecord { kind: RecordKind::Put, lsn: 2, txn_id: 0, payload: vec![1, 2, 3] };
    assert_eq!(store.apply(&bad), ApplyOutcome::Malformed);
    let bad_checkpoint =
        WalRecord { kind: RecordKind::Checkpoint, lsn: 2, txn_id: 0, payload: vec![1] };
    assert_eq!(store.apply(&bad_checkpoint), ApplyOutcome::Malformed);
    assert_eq!(store.snapshot(), before);
    assert_eq!(store.last_lsn_applied(), 1);
}

#[test]
fn a_snapshot_and_the_log_after_it_give_the_current_state() {
    let records: Vec<WalRecord> = vec![
        put(1, b"c", b"a", b"1"),
        put(2, b"c", b"b", b"2"),
        delete(3, b"c", b"a"),
        put(4, b"c", b"a", b"4"),
        put(5, b"c", b"d", b"5"),
    ];
    let mut full = PageStore::new();
    for r in &records {
        full.apply(r);
    }
    for cut in 0..=records.len() {
        let mut base = PageStore::new();
        for r in &records[..cut] {
            base.apply(r);
        }
        let snapshot = base.snapshot();
        assert_eq!(snapshot.wal_cut_lsn(), cut as u64);
        let mut restored = PageStore::restore(&snapshot);
        assert_eq!(restored.snapshot(), snapshot);
        // Replaying the whole log on the snapshot skips what it holds already.
        for r in &records {
            restored.apply(r);
        }
        assert_eq!(restored.snapshot(), full.snapshot(), "cut at {}", cut);
        for key in [b"a", b"b", b"d", b"x"] {
            assert_eq!(restored.get(b"c", key), full.get(b"c", key));
        }
    }
}

// Recovery

#[test]
fn recovery_replays_the_log_and_is_idempotent() {
    let records =
        vec![put(1, b"c", b"a", b"1"), put(2, b"c", b"b", b"2"), delete(3, b"c", b"a")];
    let log = log_of(&records);
    let mut store = PageStore::new();
    let state = recover(&log, &mut store).unwrap();
    assert_eq!(
        state,
        RecoveryState {
            last_lsn: 3,
            records_replayed: 3,
            indexes_rebuilt: 0,
            valid_len: log.len(),
            end: LogEnd::Clean,
        }
    );
    assert_eq!(store.get(b"c", b"a"), None);
    assert_eq!(store.get(b"c", b"b"), Some(b"2".to_vec()));

    let once = store.snapshot();
    let again = recover(&log, &mut store).unwrap();
    assert_eq!(again.records_replayed, 0);
    assert_eq!(again.last_lsn, 3);
    assert_eq!(store.snapshot(), once);
}

#[test]
fn recovery_of_a_prefix_and_then_of_the_whole_log_gives_the_same_state() {
    let records: Vec<WalRecord> =
        (1..=6).map(|lsn| put(lsn, b"c", &[(lsn % 3) as u8], &[lsn as u8])).collect();
    let whole = log_of(&records);
    let mut direct = PageStore::new();
    recover(&whole, &mut direct).unwrap();
    for cut in 0..=records.len() {
        let mut store = PageStore::new();
        recover(&log_of(&records[..cut]), &mut store).unwrap();
        recover(&whole, &mut store).unwrap();
        assert_eq!(store.snapshot(), direct.snapshot(), "cut at {}", cut);
    }
}

#[test]
fn recovery_skips_what_the_checkpoint_covers() {
    let mut store = PageStore::new();
    store.apply(&put(1, b"c", b"a", b"1"));
    store.apply(&put(2, b"c", b"b", b"2"));
    store.apply(&checkpoint(3, 2));
    assert_eq!(store.checkpoint_lsn(), 2);
    let log = log_of(&[
        put(1, b"c", b"a", b"1"),
        put(2, b"c", b"b", b"2"),
        checkpoint(3, 2),
        put(4, b"c", b"a", b"4"),
    ]);
    let state = recover(&log, &mut store).unwrap();
    assert_eq!(state.records_replayed, 1);
    assert_eq!(state.last_lsn, 4);
    assert_eq!(store.get(b"c", b"a"), Some(b"4".to_vec()));
}

#[test]
fn recovery_drops_a_torn_tail_without_an_error() {
    let records = vec![put(1, b"c", b"a", b"1"), put(2, b"c", b"b", b"2")];
    let log = log_of(&records);
    let torn = encode_frame(&put(3, b"c", b"c", b"3")).unwrap();
    for n in 1..torn.len() {
        let mut bytes = log.clone();
        bytes.extend_from_slice(&torn[..n]);
        let mut store = PageStore::new();
        let state = recover(&bytes, &mut store).unwrap();
        assert_eq!(state.last_lsn, 2);
        assert_eq!(state.records_replayed, 2);
        assert_eq!(state.valid_len, log.len());
        assert_eq!(state.end, LogEnd::TornTail);
        assert!(!state.requires_read_only(0, false));
        assert_eq!(store.get(b"c", b"c"), None);
    }
}

#[test]
fn recovery_stops_at_corruption_and_asks_for_read_only_mode() {
    let records =
        vec![put(1, b"c", b"a", b"1"), put(2, b"c", b"b", b"2"), put(3, b"c", b"c", b"3")];
    let mut log = log_of(&records);
    let at = log_of(&records[..1]).len() + 9;
    log[at] ^= 0x40;
    let mut store = PageStore::new();
    let state = recover(&log, &mut store).unwrap();
    assert_eq!(state.last_lsn, 1);
    assert_eq!(state.records_replayed, 1);
    assert_eq!(state.end, LogEnd::Corrupt);
    // Nothing at or after the corrupt frame is applied.
    assert_eq!(store.get(b"c", b"b"), None);
    assert_eq!(store.get(b"c", b"c"), None);
    // The operator may go on only when the store has reached the checkpoint.
    assert!(state.requires_read_only(0, false));
    assert!(!state.requires_read_only(1, true));
    assert!(state.requires_read_only(2, true));
}

#[test]
fn a_record_that_cannot_be_applied_halts_recovery() {
    let bad = WalRecord { kind: RecordKind::Put, lsn: 2, txn_id: 0, payload: vec![9, 9] };
    let log = log_of(&[put(1, b"c", b"a", b"1"), bad, put(3, b"c", b"b", b"3")]);
    let mut store = PageStore::new();
    let result = recover(&log, &mut store);
    assert_eq!(result, Err(RecoveryError::ConsistencyViolation { lsn: 2 }));
    assert_eq!(RecoveryError::ConsistencyViolation { lsn: 2 }.code(), result.unwrap_err().code());
    assert_eq!(store.get(b"c", b"a"), Some(b"1".to_vec()));
    assert_eq!(store.get(b"c", b"b"), None);
}

#[test]
fn no_writes_before_recovery_when_a_log_exists() {
    assert!(may_accept_writes(false, false));
    assert!(may_accept_writes(false, true));
    assert!(!may_accept_writes(true, false));
    assert!(may_accept_writes(true, true));
}
