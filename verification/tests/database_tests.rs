use aerodb::database::recover_database;
use aerodb::index::{scan_where, Index, IndexManager};
use aerodb::recovery::RecoveryError;
use aerodb::schema::{decode_names, decode_op, encode_op, SchemaLoader, SchemaOp};
use aerodb::storage::PageStore;
use aerodb::wal::frame::{encode_frame, RecordKind, WalRecord};
use aerodb::wal::payload::{encode_delete, encode_put};
use aerodb::wal::reader::LogEnd;

fn record(lsn: u64, kind: RecordKind, payload: Vec<u8>) -> WalRecord {
    WalRecord { kind, lsn, txn_id: 0, payload }
}

fn put(lsn: u64, collection: &[u8], pk: &[u8], doc: &str) -> WalRecord {
    record(lsn, RecordKind::Put, encode_put(collection, pk, doc.as_bytes()).unwrap())
}

fn delete(lsn: u64, collection: &[u8], pk: &[u8]) -> WalRecord {
    record(lsn, RecordKind::Delete, encode_delete(collection, pk).unwrap())
}

fn schema(lsn: u64, op: &SchemaOp) -> WalRecord {
    record(lsn, RecordKind::Schema, encode_op(op).unwrap())
}

fn create(collection: &[u8], required: &[&[u8]]) -> SchemaOp {
    SchemaOp::Create {
        collection: collection.to_vec(),
        required: required.iter().map(|f| f.to_vec()).collect(),
    }
}

fn log_of(records: &[WalRecord]) -> Vec<u8> {
    let mut out = Vec::new();
    for r in records {
        out.extend_from_slice(&encode_frame(r).unwrap());
    }
    out
}

fn filled(records: &[WalRecord]) -> PageStore {
    let mut store = PageStore::new();
    for r in records {
        store.apply(r);
    }
    store
}

// Schema operations

#[test]
fn schema_payloads_are_as_documented() {
    let op = create(b"users", &[b"email", b"id"]);
    let mut expected = vec![1u8];
    expected.extend_from_slice(&5u32.to_le_bytes());
    expected.extend_from_slice(b"users");
    expected.extend_from_slice(&0u32.to_le_bytes());
    expected.extend_from_slice(&5u32.to_le_bytes());
    expected.extend_from_slice(b"email");
    expected.extend_from_slice(&2u32.to_le_bytes());
    expected.extend_from_slice(b"id");
    assert_eq!(encode_op(&op).unwrap(), expected);

    let mut drop_payload = vec![2u8];
    drop_payload.extend_from_slice(&5u32.to_le_bytes());
    drop_payload.extend_from_slice(b"users");
    drop_payload.extend_from_slice(&0u32.to_le_bytes());
    assert_eq!(encode_op(&SchemaOp::Drop { collection: b"users".to_vec() }).unwrap(), drop_payload);

    let mut rename = vec![3u8];
    rename.extend_from_slice(&1u32.to_le_bytes());
    rename.extend_from_slice(b"a");
    rename.extend_from_slice(&2u32.to_le_bytes());
    rename.extend_from_slice(b"bc");
    assert_eq!(
        encode_op(&SchemaOp::Rename { from: b"a".to_vec(), to: b"bc".to_vec() }).unwrap(),
        rename
    );
}

#[test]
fn reading_a_schema_operation_undoes_writing_it() {
    let ops = [
        create(b"users", &[b"email", b"id"]),
        create(b"", &[]),
        create(b"c", &[b""]),
        SchemaOp::Drop { collection: b"users".to_vec() },
        SchemaOp::Rename { from: b"users".to_vec(), to: b"people".to_vec() },
    ];
    for op in &ops {
        let payload = encode_op(op).unwrap();
        assert_eq!(decode_op(&payload).as_ref(), Some(op));
        // A payload that is cut short or goes on is no operation, but for a
        // creation, whose list of fields may end earlier.
        let mut longer = payload.clone();
        longer.push(0);
        assert_eq!(decode_op(&longer), None);
    }
    assert_eq!(decode_op(&[]), None);
    assert_eq!(decode_op(&[9, 0, 0, 0, 0, 0, 0, 0, 0]), None);
    assert_eq!(decode_op(&[2, 1, 0, 0, 0, b'a', 1, 0, 0, 0, b'b']), None);
    assert_eq!(decode_names(&[]), Some(vec![]));
    assert_eq!(decode_names(&[1, 0, 0, 0]), None);
    assert_eq!(decode_names(&[1, 0, 0]), None);
    assert_eq!(decode_names(&[1, 0, 0, 0, b'x', 0, 0, 0, 0]), Some(vec![b"x".to_vec(), vec![]]));
}

#[test]
fn schema_operations_that_are_not_valid_change_nothing() {
    let mut schemas = SchemaLoader::new();
    assert!(!schemas.apply(&SchemaOp::Drop { collection: b"users".to_vec() }));
    assert!(schemas.apply(&create(b"users", &[b"email"])));
    assert!(!schemas.apply(&create(b"users", &[])));
    assert_eq!(schemas.len(), 1);
    assert!(schemas.has_collection(b"users"));

    assert!(!schemas.apply(&SchemaOp::Rename { from: b"nobody".to_vec(), to: b"x".to_vec() }));
    assert!(schemas.apply(&create(b"posts", &[])));
    assert!(!schemas.apply(&SchemaOp::Rename { from: b"users".to_vec(), to: b"posts".to_vec() }));
    assert!(schemas.apply(&SchemaOp::Rename { from: b"users".to_vec(), to: b"people".to_vec() }));
    assert!(!schemas.has_collection(b"users"));
    // The renamed collection keeps its required fields.
    assert!(!schemas.validate(b"people", b"{}"));
    assert!(schemas.validate(b"people", b"{\"email\":\"a@b.c\"}"));

    assert!(schemas.apply(&SchemaOp::Drop { collection: b"people".to_vec() }));
    assert!(schemas.validate(b"people", b"{}"));
    assert_eq!(schemas.len(), 1);
}

#[test]
fn documents_are_checked_against_the_schema_of_their_collection() {
    let mut schemas = SchemaLoader::new();
    // Without a schema everything fits, even what is no JSON.
    assert!(schemas.validate(b"users", b"not json"));
    schemas.apply(&create(b"users", &[b"id", b"email"]));
    assert!(schemas.validate(b"users", b"{\"id\":1,\"email\":null,\"more\":true}"));
    assert!(!schemas.validate(b"users", b"{\"id\":1}"));
    assert!(!schemas.validate(b"users", b"{\"email\":\"x\"}"));
    assert!(!schemas.validate(b"users", b"[1,2]"));
    assert!(!schemas.validate(b"users", b"not json"));
    assert!(schemas.validate(b"posts", b"not json"));
    schemas.apply(&create(b"open", &[]));
    assert!(schemas.validate(b"open", b"not json"));
}

// Indexes

#[test]
fn an_index_is_rebuilt_from_the_store() {
    let store = filled(&[
        put(1, b"users", b"a", "{\"city\":\"Oslo\",\"n\":1}"),
        put(2, b"users", b"b", "{\"city\":\"Rome\"}"),
        put(3, b"users", b"c", "{\"city\":\"Oslo\"}"),
        put(4, b"users", b"d", "{\"town\":\"Oslo\"}"),
        put(5, b"posts", b"a", "{\"city\":\"Oslo\"}"),
        put(6, b"users", b"b", "{\"city\":\"Oslo\"}"),
        delete(7, b"users", b"c"),
        put(8, b"users", b"e", "no json"),
    ]);
    let mut index = Index::new(b"users", b"city");
    assert!(!index.check(&store));
    index.rebuild(&store);
    assert!(index.check(&store));
    assert_eq!(index.len(), 2);
    // Values are entered as JSON writes them.
    assert_eq!(index.find("\"Oslo\""), vec![b"a".to_vec(), b"b".to_vec()]);
    assert!(index.find("\"Rome\"").is_empty());
    assert!(index.find("Oslo").is_empty());

    let mut numbers = Index::new(b"users", b"n");
    numbers.rebuild(&store);
    assert_eq!(numbers.find("1"), vec![b"a".to_vec()]);
    assert!(numbers.check(&store));
}

#[test]
fn a_scan_with_a_filter_gives_the_documents_whose_field_has_the_value() {
    let store = filled(&[
        put(1, b"users", b"a", "{\"city\":\"Oslo\",\"n\":1}"),
        put(2, b"users", b"b", "{\"city\":\"Rome\"}"),
        put(3, b"users", b"c", "{\"city\":\"Oslo\"}"),
        put(4, b"posts", b"a", "{\"city\":\"Oslo\"}"),
        put(5, b"users", b"d", "{\"city\":\"Oslo\"}"),
        delete(6, b"users", b"c"),
        put(7, b"users", b"b", "{\"city\":\"Oslo\"}"),
        put(8, b"users", b"d", "{\"city\":\"Bonn\"}"),
    ]);
    let pks = |found: Vec<aerodb::storage::DocumentVersion>| -> Vec<Vec<u8>> {
        found.into_iter().map(|v| v.pk).collect()
    };
    assert_eq!(
        pks(scan_where(&store, b"users", b"city", "\"Oslo\"")),
        vec![b"a".to_vec(), b"b".to_vec()]
    );
    assert_eq!(pks(scan_where(&store, b"users", b"city", "\"Bonn\"")), vec![b"d".to_vec()]);
    assert_eq!(pks(scan_where(&store, b"users", b"n", "1")), vec![b"a".to_vec()]);
    assert!(scan_where(&store, b"users", b"city", "Oslo").is_empty());
    assert!(scan_where(&store, b"users", b"town", "\"Oslo\"").is_empty());
    assert!(scan_where(&store, b"nobody", b"city", "\"Oslo\"").is_empty());
    let found = scan_where(&store, b"posts", b"city", "\"Oslo\"");
    assert_eq!(found.len(), 1);
    assert_eq!(found[0].doc, b"{\"city\":\"Oslo\"}".to_vec());
    assert_eq!(found[0].lsn, 4);
}

#[test]
fn an_index_that_lags_behind_the_store_is_found_out() {
    let mut records = vec![
        put(1, b"users", b"a", "{\"city\":\"Oslo\"}"),
        put(2, b"users", b"b", "{\"city\":\"Rome\"}"),
    ];
    let mut index = Index::new(b"users", b"city");
    index.rebuild(&filled(&records));

    // A document whose value has changed.
    records.push(put(3, b"users", b"a", "{\"city\":\"Bonn\"}"));
    assert!(!index.check(&filled(&records)));
    // A document that is gone.
    records.pop();
    records.push(delete(3, b"users", b"b"));
    assert!(!index.check(&filled(&records)));
    // A document that is not entered.
    records.pop();
    records.push(put(3, b"users", b"c", "{\"city\":\"Oslo\"}"));
    assert!(!index.check(&filled(&records)));
    // A change that does not touch the field.
    records.pop();
    records.push(put(3, b"users", b"a", "{\"city\":\"Oslo\",\"n\":2}"));
    records.push(put(4, b"posts", b"z", "{\"city\":\"Oslo\"}"));
    assert!(index.check(&filled(&records)));
}

#[test]
fn the_manager_rebuilds_and_checks_every_index() {
    let store = filled(&[
        put(1, b"users", b"a", "{\"city\":\"Oslo\"}"),
        put(2, b"posts", b"p", "{\"title\":\"Hi\"}"),
    ]);
    let mut indexes = IndexManager::new();
    assert_eq!(indexes.check(&store), None);
    indexes.add_index(b"users", b"city");
    indexes.add_index(b"posts", b"title");
    indexes.add_index(b"posts", b"missing");
    assert_eq!(indexes.len(), 3);
    assert_eq!(indexes.check(&store), Some(0));
    assert_eq!(indexes.rebuild(&store), 3);
    assert_eq!(indexes.check(&store), None);
    assert_eq!(indexes.index(1).unwrap().find("\"Hi\""), vec![b"p".to_vec()]);
    assert_eq!(indexes.index(2).unwrap().len(), 0);
    assert!(indexes.index(3).is_none());
}

// Recovery of the database

#[test]
fn recovery_replays_schemas_and_documents_and_rebuilds_the_indexes() {
    let log = log_of(&[
        schema(1, &create(b"users", &[b"city"])),
        put(2, b"users", b"a", "{\"city\":\"Oslo\"}"),
        put(3, b"notes", b"n", "free text"),
        schema(4, &SchemaOp::Drop { collection: b"nobody".to_vec() }),
        schema(5, &SchemaOp::Rename { from: b"users".to_vec(), to: b"people".to_vec() }),
        put(6, b"users", b"b", "{}"),
        put(7, b"people", b"c", "{\"city\":\"Rome\"}"),
        record(8, RecordKind::Schema, vec![7, 7, 7]),
    ]);
    let mut store = PageStore::new();
    let mut schemas = SchemaLoader::new();
    let mut indexes = IndexManager::new();
    indexes.add_index(b"users", b"city");
    indexes.add_index(b"people", b"city");
    let done = recover_database(&log, &mut store, &mut schemas, &mut indexes).unwrap();
    assert_eq!(done.state.last_lsn, 8);
    assert_eq!(done.state.records_replayed, 8);
    assert_eq!(done.state.indexes_rebuilt, 2);
    assert_eq!(done.state.valid_len, log.len());
    assert_eq!(done.state.end, LogEnd::Clean);
    // The drop of a collection that is not there, and the operation that
    // cannot be read, are warned of; replay goes on.
    assert_eq!(done.schema_warnings, 2);
    assert!(schemas.has_collection(b"people"));
    assert!(!schemas.has_collection(b"users"));
    assert_eq!(store.get(b"users", b"b"), Some(b"{}".to_vec()));
    assert_eq!(indexes.check(&store), None);
    assert_eq!(indexes.index(0).unwrap().find("\"Oslo\""), vec![b"a".to_vec()]);
    assert_eq!(indexes.index(1).unwrap().find("\"Rome\""), vec![b"c".to_vec()]);

    // Recovering again changes nothing.
    let before = store.snapshot();
    let again = recover_database(&log, &mut store, &mut schemas, &mut indexes).unwrap();
    assert_eq!(again.state.records_replayed, 0);
    assert_eq!(again.schema_warnings, 0);
    assert_eq!(store.snapshot(), before);
}

#[test]
fn a_replayed_document_that_does_not_fit_its_schema_is_fatal() {
    let log = log_of(&[
        schema(1, &create(b"users", &[b"city"])),
        put(2, b"users", b"a", "{\"city\":\"Oslo\"}"),
        put(3, b"users", b"b", "{\"town\":\"Oslo\"}"),
        put(4, b"users", b"c", "{\"city\":\"Rome\"}"),
    ]);
    let mut store = PageStore::new();
    let mut schemas = SchemaLoader::new();
    let mut indexes = IndexManager::new();
    indexes.add_index(b"users", b"city");
    let result = recover_database(&log, &mut store, &mut schemas, &mut indexes);
    assert_eq!(result, Err(RecoveryError::ConsistencyViolation { lsn: 3 }));
    // What came before the violation was applied, nothing after it.
    assert_eq!(store.last_lsn_applied(), 2);
    assert!(store.contains(b"users", b"a"));
    assert!(!store.contains(b"users", b"b"));
    assert!(!store.contains(b"users", b"c"));
    assert!(schemas.has_collection(b"users"));
    assert_eq!(indexes.index(0).unwrap().len(), 0);

    // The schema as of the LSN decides: before the collection has a schema,
    // the same document is fine.
    let log = log_of(&[
        put(1, b"users", b"b", "{\"town\":\"Oslo\"}"),
        schema(2, &create(b"users", &[b"city"])),
    ]);
    let mut store = PageStore::new();
    let mut schemas = SchemaLoader::new();
    assert!(recover_database(&log, &mut store, &mut schemas, &mut IndexManager::new()).is_ok());
}

#[test]
fn recovery_of_a_database_passes_over_what_was_applied_and_drops_a_torn_tail() {
    let records = [
        schema(1, &create(b"users", &[b"city"])),
        put(2, b"users", b"a", "{\"city\":\"Oslo\"}"),
        put(3, b"users", b"b", "{\"city\":\"Rome\"}"),
    ];
    let whole = log_of(&records);
    let torn = encode_frame(&put(4, b"users", b"c", "{\"city\":\"Bonn\"}")).unwrap();
    for n in 1..torn.len() {
        let mut bytes = whole.clone();
        bytes.extend_from_slice(&torn[..n]);
        // The store holds the first two records already, as after a restart
        // from its page.
        let mut store = filled(&records[..2]);
        let mut schemas = SchemaLoader::new();
        schemas.apply(&create(b"users", &[b"city"]));
        let mut indexes = IndexManager::new();
        indexes.add_index(b"users", b"city");
        let done = recover_database(&bytes, &mut store, &mut schemas, &mut indexes).unwrap();
        assert_eq!(done.state.records_replayed, 1);
        assert_eq!(done.state.last_lsn, 3);
        assert_eq!(done.state.valid_len, whole.len());
        assert_eq!(done.state.end, LogEnd::TornTail);
        assert_eq!(done.schema_warnings, 0);
        assert!(!store.contains(b"users", b"c"));
        assert_eq!(indexes.index(0).unwrap().len(), 2);
    }
}
