use aerodb::durability::{record_wal_failure, restore_backup};
use aerodb::recovery::{recover, RecoveryError};
use aerodb::resource_limits::{ResourceLimitsConfig, ResourceManager};
use aerodb::write_path::{next_write_stage, WriteCommand, WriteStage};
use aerodb::storage::PageStore;
use aerodb::wal::frame::{encode_frame, RecordKind, WalRecord};
use aerodb::wal::payload::{encode_checkpoint, encode_delete, encode_put};
use aerodb::wal::reader::{read_log, LogEnd};
use aerodb::wal::writer::{WalError, WalIoFailure, WalWriter};

fn put_payload(pk: &[u8], doc: &[u8]) -> Vec<u8> {
    encode_put(b"c", pk, doc).unwrap()
}

/// Appends a record, "writes" what is pending to the log and syncs.
fn commit(writer: &mut WalWriter, log: &mut Vec<u8>, kind: RecordKind, payload: Vec<u8>) -> u64 {
    let lsn = writer.append(kind, 0, payload).unwrap();
    log.extend_from_slice(writer.pending_bytes());
    writer.fsync_through();
    assert!(writer.may_acknowledge(lsn));
    lsn
}

#[test]
fn an_acknowledged_write_survives_a_crash() {
    let mut writer = WalWriter::new();
    let mut log = Vec::new();
    let lsn = commit(&mut writer, &mut log, RecordKind::Put, put_payload(b"k", b"{\"v\":1}"));
    assert_eq!(lsn, 1);

    // The process is killed: only the log is left. A new process recovers.
    let mut store = PageStore::new();
    let state = recover(&log, &mut store).unwrap();
    assert_eq!(state.last_lsn, 1);
    assert_eq!(store.get(b"c", b"k"), Some(b"{\"v\":1}".to_vec()));

    // Seventeen arbitrary bytes after the log change nothing, and the next
    // write gets the LSN after the last one that was recovered.
    let mut torn = log.clone();
    torn.extend_from_slice(&[0xA5; 17]);
    let mut store = PageStore::new();
    let state = recover(&torn, &mut store).unwrap();
    assert_eq!(state.valid_len, log.len());
    assert_eq!(store.get(b"c", b"k"), Some(b"{\"v\":1}".to_vec()));
    let mut writer = WalWriter::resume(read_log(&torn).records.last().unwrap().lsn);
    let mut log = torn[..state.valid_len].to_vec();
    let lsn = commit(&mut writer, &mut log, RecordKind::Put, put_payload(b"k", b"{\"v\":2}"));
    assert_eq!(lsn, 2);
    let mut store = PageStore::new();
    recover(&log, &mut store).unwrap();
    assert_eq!(store.get(b"c", b"k"), Some(b"{\"v\":2}".to_vec()));
}

#[test]
fn a_write_that_was_not_synced_is_never_acknowledged() {
    let mut writer = WalWriter::new();
    let mut resources = ResourceManager::new(ResourceLimitsConfig::default(), "/t/a".to_string());
    let mut log = Vec::new();
    commit(&mut writer, &mut log, RecordKind::Put, put_payload(b"a", b"1"));
    let lsn = writer.append(RecordKind::Put, 0, put_payload(b"b", b"2")).unwrap();
    assert_eq!(lsn, 2);
    // The disk is full: the append to the file fails.
    record_wal_failure(&mut writer, &mut resources, WalIoFailure::Append);
    assert!(!resources.writes_allowed());
    assert!(writer.is_poisoned());
    assert!(writer.may_acknowledge(1));
    assert!(!writer.may_acknowledge(2));
    assert_eq!(writer.fsync_through(), 1);
    assert!(!writer.may_acknowledge(2));
    assert_eq!(
        writer.append(RecordKind::Put, 0, put_payload(b"c", b"3")),
        Err(WalError::Poisoned(WalIoFailure::Append))
    );
    assert!(resources.get_status(0, 0).read_only_mode);
    // What the log holds is what was acknowledged.
    let mut store = PageStore::new();
    recover(&log, &mut store).unwrap();
    assert_eq!(store.get(b"c", b"a"), Some(b"1".to_vec()));
    assert_eq!(store.get(b"c", b"b"), None);
}

#[test]
fn a_backup_brings_back_a_hundred_documents() {
    let mut writer = WalWriter::new();
    let mut log = Vec::new();
    let mut store = PageStore::new();
    let mut apply = |store: &mut PageStore, kind: RecordKind, payload: Vec<u8>| {
        let lsn = commit(&mut writer, &mut log, kind, payload.clone());
        store.apply(&WalRecord { kind, lsn, txn_id: 0, payload });
    };
    for i in 0..100u32 {
        let pk = format!("key-{:03}", i);
        let doc = format!("{{\"n\":{},\"text\":\"{}\"}}", i, "x".repeat(i as usize));
        apply(&mut store, RecordKind::Put, put_payload(pk.as_bytes(), doc.as_bytes()));
    }
    let before: Vec<_> = store.scan(b"c");
    assert_eq!(before.len(), 100);
    let snapshot = store.snapshot();
    assert_eq!(snapshot.wal_cut_lsn(), 100);

    for i in 0..100u32 {
        let pk = format!("key-{:03}", i);
        apply(&mut store, RecordKind::Delete, encode_delete(b"c", pk.as_bytes()).unwrap());
    }
    assert!(store.scan(b"c").is_empty());

    // Restored without the log, the backup gives the state at its cut.
    let restored = restore_backup(&snapshot, None).unwrap();
    let after = restored.scan(b"c");
    assert_eq!(after.len(), 100);
    assert_eq!(after, before);
    for i in 0..100u32 {
        let pk = format!("key-{:03}", i);
        let doc = format!("{{\"n\":{},\"text\":\"{}\"}}", i, "x".repeat(i as usize));
        assert_eq!(restored.get(b"c", pk.as_bytes()), Some(doc.into_bytes()));
    }
}

#[test]
fn a_backup_with_its_log_gives_the_state_of_the_log() {
    let records: Vec<WalRecord> = (1..=6u64)
        .map(|lsn| WalRecord {
            kind: RecordKind::Put,
            lsn,
            txn_id: 0,
            payload: put_payload(&[(lsn % 4) as u8], &[lsn as u8]),
        })
        .collect();
    let mut whole = Vec::new();
    for r in &records {
        whole.extend_from_slice(&encode_frame(r).unwrap());
    }
    let mut full = PageStore::new();
    for r in &records {
        full.apply(r);
    }
    for cut in 0..=records.len() {
        let mut base = PageStore::new();
        for r in &records[..cut] {
            base.apply(r);
        }
        let snapshot = base.snapshot();
        let restored = restore_backup(&snapshot, Some(&whole)).unwrap();
        assert_eq!(restored.snapshot(), full.snapshot(), "cut at {}", cut);
        assert_eq!(restore_backup(&snapshot, None).unwrap().snapshot(), snapshot);
    }
    // A log with a record that cannot be applied fails the restore.
    let bad = WalRecord { kind: RecordKind::Delete, lsn: 7, txn_id: 0, payload: vec![1] };
    let mut log = whole.clone();
    log.extend_from_slice(&encode_frame(&bad).unwrap());
    let result = restore_backup(&PageStore::new().snapshot(), Some(&log));
    assert_eq!(result.err(), Some(RecoveryError::ConsistencyViolation { lsn: 7 }));
}

#[test]
fn a_scan_gives_the_live_documents_of_a_collection_once() {
    let mut store = PageStore::new();
    let mut lsn = 0u64;
    let mut put = |store: &mut PageStore, collection: &[u8], pk: &[u8], doc: &[u8]| {
        lsn += 1;
        store.apply(&WalRecord {
            kind: RecordKind::Put,
            lsn,
            txn_id: 0,
            payload: encode_put(collection, pk, doc).unwrap(),
        });
        lsn
    };
    put(&mut store, b"users", b"a", b"a1");
    put(&mut store, b"users", b"b", b"b1");
    put(&mut store, b"posts", b"a", b"p1");
    put(&mut store, b"users", b"a", b"a2");
    let last = put(&mut store, b"users", b"c", b"c1");
    store.apply(&WalRecord {
        kind: RecordKind::Delete,
        lsn: last + 1,
        txn_id: 0,
        payload: encode_delete(b"users", b"b").unwrap(),
    });
    let users: Vec<(Vec<u8>, Vec<u8>)> =
        store.scan(b"users").into_iter().map(|v| (v.pk, v.doc)).collect();
    assert_eq!(users, vec![(b"a".to_vec(), b"a2".to_vec()), (b"c".to_vec(), b"c1".to_vec())]);
    let posts = store.scan(b"posts");
    assert_eq!(posts.len(), 1);
    assert_eq!(posts[0].doc, b"p1");
    assert!(store.scan(b"none").is_empty());
}

#[test]
fn seventeen_arbitrary_bytes_take_no_lsn_and_call_for_no_read_only_mode() {
    let mut low_length = vec![0u8; 17];
    low_length[0] = 3;
    let counting: Vec<u8> = (1..=17).collect();
    let fillers: Vec<Vec<u8>> =
        vec![vec![0u8; 17], vec![0xA5; 17], vec![0xFF; 17], low_length, counting, vec![0u8; 28]];
    for filler in fillers {
        let mut writer = WalWriter::new();
        let mut log = Vec::new();
        commit(&mut writer, &mut log, RecordKind::Put, put_payload(b"k", b"{\"v\":1}"));
        let mut torn = log.clone();
        torn.extend_from_slice(&filler);

        let mut store = PageStore::new();
        let mut resources =
            ResourceManager::new(ResourceLimitsConfig::default(), "/t/a".to_string());
        let state = recover(&torn, &mut store).unwrap();
        assert_eq!(state.end, LogEnd::TornTail);
        assert_eq!(state.valid_len, log.len());
        assert!(!state.requires_read_only(store.checkpoint_lsn(), false));
        assert_eq!(store.get(b"c", b"k"), Some(b"{\"v\":1}".to_vec()));
        assert_eq!(resources.check_write(u64::MAX, 64), Ok(()));

        // The next put is acknowledged with the LSN 2, and the next recovery
        // reads it.
        let mut writer =
            WalWriter::resume_after(&read_log(&torn).records, store.last_lsn_applied()).unwrap();
        let mut log = torn[..state.valid_len].to_vec();
        let lsn = commit(&mut writer, &mut log, RecordKind::Put, put_payload(b"k", b"{\"v\":2}"));
        assert_eq!(lsn, 2);
        let mut store = PageStore::new();
        let state = recover(&log, &mut store).unwrap();
        assert_eq!(state.end, LogEnd::Clean);
        assert_eq!(store.get(b"c", b"k"), Some(b"{\"v\":2}".to_vec()));
    }
}

#[test]
fn a_writer_goes_on_after_the_highest_lsn_that_is_known() {
    let record = |lsn: u64| WalRecord {
        kind: RecordKind::Put,
        lsn,
        txn_id: 0,
        payload: put_payload(b"k", b"v"),
    };
    assert_eq!(WalWriter::resume_after(&vec![], 0).unwrap().next_lsn(), 1);
    assert_eq!(WalWriter::resume_after(&vec![], 7).unwrap().next_lsn(), 8);
    let records = vec![record(1), record(2), record(3)];
    assert_eq!(WalWriter::resume_after(&records, 0).unwrap().next_lsn(), 4);
    assert_eq!(WalWriter::resume_after(&records, 3).unwrap().durable_lsn(), 3);
    assert_eq!(WalWriter::resume_after(&records, 9).unwrap().next_lsn(), 10);
    assert_eq!(
        WalWriter::resume_after(&records, u64::MAX).err(),
        Some(WalError::LsnExhausted)
    );
    assert_eq!(
        WalWriter::resume_after(&vec![record(u64::MAX)], 0).err(),
        Some(WalError::LsnExhausted)
    );
}

fn run_write(outcomes: &[bool]) -> (Vec<WriteCommand>, WriteStage) {
    let mut commands = Vec::new();
    let (mut stage, mut command) = next_write_stage(WriteStage::Received, true);
    commands.push(command);
    for outcome in outcomes {
        (stage, command) = next_write_stage(stage, *outcome);
        commands.push(command);
    }
    (commands, stage)
}

#[test]
fn a_write_is_acknowledged_only_after_every_step() {
    let (commands, stage) = run_write(&[true; 7]);
    assert_eq!(stage, WriteStage::Acknowledged);
    assert_eq!(
        commands,
        vec![
            WriteCommand::Admit,
            WriteCommand::CheckResources,
            WriteCommand::Validate,
            WriteCommand::Append,
            WriteCommand::Sync,
            WriteCommand::Apply,
            WriteCommand::UpdateIndexes,
            WriteCommand::Acknowledge,
        ]
    );
    // A write that is not admitted, finds the resources short or does not
    // fit its schema is refused before anything is appended.
    for refused_at in 0..3 {
        let mut outcomes = vec![true; refused_at];
        outcomes.push(false);
        let (commands, stage) = run_write(&outcomes);
        assert_eq!(stage, WriteStage::Refused);
        assert_eq!(commands.last(), Some(&WriteCommand::ReportRefusal));
        assert!(!commands.contains(&WriteCommand::Append));
    }
    // A failure of the append or of the sync poisons the log and is never
    // acknowledged.
    for failed_at in 3..5 {
        let mut outcomes = vec![true; failed_at];
        outcomes.push(false);
        outcomes.push(true);
        let (commands, stage) = run_write(&outcomes);
        assert_eq!(stage, WriteStage::Failed);
        assert_eq!(
            &commands[commands.len() - 2..],
            &[WriteCommand::PoisonLogAndEnterReadOnly, WriteCommand::ReportFailure]
        );
        assert!(!commands.contains(&WriteCommand::Acknowledge));
        assert!(!commands.contains(&WriteCommand::Apply));
    }
    let (commands, stage) = run_write(&[true, true, true, true, true, false, true]);
    assert_eq!(stage, WriteStage::Failed);
    assert_eq!(
        &commands[commands.len() - 2..],
        &[WriteCommand::EnterReadOnly, WriteCommand::ReportFailure]
    );
    // What has ended stays as it is.
    for ended in [WriteStage::Acknowledged, WriteStage::Refused, WriteStage::Failed] {
        assert_eq!(next_write_stage(ended, true).0, ended);
        assert_eq!(next_write_stage(ended, false).0, ended);
    }
}

#[test]
fn a_checkpoint_that_names_a_later_lsn_is_refused() {
    let record = |lsn: u64, names: u64| WalRecord {
        kind: RecordKind::Checkpoint,
        lsn,
        txn_id: 0,
        payload: encode_checkpoint(names),
    };
    let mut store = PageStore::new();
    assert_eq!(store.apply(&record(1, 2)), aerodb::storage::ApplyOutcome::Malformed);
    assert_eq!(store.checkpoint_lsn(), 0);
    assert_eq!(store.last_lsn_applied(), 0);
    assert_eq!(store.apply(&record(1, 1)), aerodb::storage::ApplyOutcome::Applied);
    assert_eq!(store.checkpoint_lsn(), 1);
    assert_eq!(store.apply(&record(5, 3)), aerodb::storage::ApplyOutcome::Applied);
    assert_eq!(store.checkpoint_lsn(), 3);
    assert_eq!(store.last_lsn_applied(), 5);
    // In a log, such a record is a consistency violation.
    let mut log = encode_frame(&record(1, 1)).unwrap();
    log.extend_from_slice(&encode_frame(&record(2, 9)).unwrap());
    let mut store = PageStore::new();
    assert_eq!(recover(&log, &mut store), Err(RecoveryError::ConsistencyViolation { lsn: 2 }));
}
