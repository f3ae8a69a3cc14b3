//! Recovery of the whole database: the store, the schemas and the indexes.
//!
//! Replay goes through the records of the log's recoverable prefix in LSN
//! order. A record at or below the last checkpoint, or at or below the last
//! LSN that the store has applied, is passed over. A schema operation is
//! applied to the schemas; one that is not valid under the schemas as they
//! stand is counted as a warning and replay goes on, for schema operations
//! are authoritative in the log. A put is checked against the schemas as of
//! its LSN: a document that does not fit them, like a record that cannot be
//! applied, is a consistency violation, which is fatal. After replay every
//! index is rebuilt from the store.

use vstd::prelude::*;
use vstd::slice::*;
use crate::index::IndexManager;
use crate::recovery::{RecoveryError, RecoveryState};
use crate::schema::{
    decode_op,
    document_is_valid,
    op_is_valid,
    parse_op,
    schemas_after,
    SchemaLoader,
    SchemaModel,
};
use crate::storage::{
    apply_model,
    empty_store,
    is_applicable,
    lemma_checkpoint_is_not_above_last_lsn,
    lemma_snapshot_plus_tail_is_current_state,
    put_parts,
    replay_model,
    ApplyOutcome,
    PageStore,
    StoreModel,
};
use crate::wal::frame::{RecordKind, RecordModel, WalRecord};
use crate::wal::payload::decode_key;
use crate::wal::reader::{log_end, log_records, models, read_log, valid_len};

verus! {

/// The state that replay works on.
pub struct DatabaseModel {
    pub store: StoreModel,
    pub schemas: Seq<SchemaModel>,
    /// The schema operations that were not valid.
    pub warnings: nat,
}

/// Whether replay passes a record over: its LSN is at or below the
/// checkpoint, or at or below the last LSN applied.
pub open spec fn is_passed_over(s: DatabaseModel, r: RecordModel, checkpoint: u64) -> bool {
    r.lsn <= checkpoint || r.lsn <= s.store.last_lsn
}

/// The state after replay has taken a record, or nothing for a record that
/// is a consistency violation.
pub open spec fn step_model(s: DatabaseModel, r: RecordModel, checkpoint: u64) -> Option<
    DatabaseModel,
> {
    if is_passed_over(s, r, checkpoint) {
        Some(s)
    } else if !is_applicable(r) {
        None
    } else {
        match r.kind {
            RecordKind::Schema => match parse_op(r.payload) {
                Some(op) => Some(
                    DatabaseModel {
                        store: apply_model(s.store, r),
                        schemas: schemas_after(s.schemas, op),
                        warnings: if op_is_valid(s.schemas, op) {
                            s.warnings
                        } else {
                            s.warnings + 1
                        },
                    },
                ),
                None => Some(
                    DatabaseModel {
                        store: apply_model(s.store, r),
                        schemas: s.schemas,
                        warnings: s.warnings + 1,
                    },
                ),
            },
            RecordKind::Put => if document_is_valid(
                s.schemas,
                put_parts(r.payload).0.collection,
                put_parts(r.payload).1,
            ) {
                Some(DatabaseModel { store: apply_model(s.store, r), ..s })
            } else {
                None
            },
            _ => Some(DatabaseModel { store: apply_model(s.store, r), ..s }),
        }
    }
}

/// The state after replay has taken the records in order, or nothing where
/// one of them is a consistency violation.
pub open spec fn replay_database(s: DatabaseModel, records: Seq<RecordModel>, checkpoint: u64)
    -> Option<DatabaseModel>
    decreases records.len(),
{
    if records.len() == 0 {
        Some(s)
    } else {
        match replay_database(s, records.drop_last(), checkpoint) {
            None => None,
            Some(mid) => step_model(mid, records.last(), checkpoint),
        }
    }
}

/// The position of the first record that is a consistency violation, if
/// there is one.
pub open spec fn failing_record(s: DatabaseModel, records: Seq<RecordModel>, checkpoint: u64)
    -> Option<int>
    decreases records.len(),
{
    if records.len() == 0 {
        None
    } else {
        match failing_record(s, records.drop_last(), checkpoint) {
            Some(i) => Some(i),
            None => match replay_database(s, records.drop_last(), checkpoint) {
                Some(mid) => if step_model(mid, records.last(), checkpoint) is None {
                    Some(records.len() - 1)
                } else {
                    None
                },
                None => None,
            },
        }
    }
}

/// A violation among the first `n` records is the first violation of all.
proof fn lemma_failure_of_prefix(
    s: DatabaseModel,
    records: Seq<RecordModel>,
    checkpoint: u64,
    n: int,
)
    requires
        0 <= n <= records.len(),
        failing_record(s, records.take(n), checkpoint) is Some,
    ensures
        failing_record(s, records, checkpoint) == failing_record(s, records.take(n), checkpoint),
    decreases records.len() - n,
{
    if n == records.len() {
        assert(records.take(n) =~= records);
    } else {
        let next = records.take(n + 1);
        assert(next.drop_last() =~= records.take(n));
        lemma_failure_of_prefix(s, records, checkpoint, n + 1);
    }
}

/// Replay without a violation gives a state; replay with a violation gives
/// none.
pub proof fn lemma_replay_fails_at_the_failing_record(
    s: DatabaseModel,
    records: Seq<RecordModel>,
    checkpoint: u64,
)
    ensures
        replay_database(s, records, checkpoint) is Some <==> failing_record(s, records, checkpoint)
            is None,
    decreases records.len(),
{
    if records.len() > 0 {
        lemma_replay_fails_at_the_failing_record(s, records.drop_last(), checkpoint);
    }
}

/// The number of records that replay takes: those that it does not pass
/// over.
pub open spec fn taken_count(s: DatabaseModel, records: Seq<RecordModel>, checkpoint: u64) -> nat
    decreases records.len(),
{
    if records.len() == 0 {
        0
    } else {
        let before = taken_count(s, records.drop_last(), checkpoint);
        match replay_database(s, records.drop_last(), checkpoint) {
            Some(mid) => if is_passed_over(mid, records.last(), checkpoint) {
                before
            } else {
                before + 1
            },
            None => before,
        }
    }
}

/// After a replay that succeeds, replay passes every one of its records
/// over.
pub proof fn lemma_replayed_records_are_passed_over(
    s: DatabaseModel,
    records: Seq<RecordModel>,
    checkpoint: u64,
)
    requires
        replay_database(s, records, checkpoint) is Some,
    ensures
        replay_database(s, records, checkpoint)->Some_0.store.last_lsn >= s.store.last_lsn,
        forall|i: int|
            0 <= i < records.len() ==> is_passed_over(
                replay_database(s, records, checkpoint)->Some_0,
                #[trigger] records[i],
                checkpoint,
            ),
    decreases records.len(),
{
    if records.len() > 0 {
        let before = records.drop_last();
        lemma_replayed_records_are_passed_over(s, before, checkpoint);
        let mid = replay_database(s, before, checkpoint)->Some_0;
        let end = replay_database(s, records, checkpoint)->Some_0;
        assert(end.store.last_lsn >= mid.store.last_lsn);
        assert forall|i: int| 0 <= i < records.len() implies is_passed_over(
            end,
            #[trigger] records[i],
            checkpoint,
        ) by {
            if i < before.len() {
                assert(before[i] == records[i]);
                assert(is_passed_over(mid, before[i], checkpoint));
            }
        }
    }
}

/// Records that replay passes over change nothing.
pub proof fn lemma_passed_over_records_change_nothing(
    s: DatabaseModel,
    records: Seq<RecordModel>,
    checkpoint: u64,
)
    requires
        forall|i: int| 0 <= i < records.len() ==> is_passed_over(s, #[trigger] records[i], checkpoint),
    ensures
        replay_database(s, records, checkpoint) == Some(s),
        taken_count(s, records, checkpoint) == 0,
    decreases records.len(),
{
    if records.len() > 0 {
        let before = records.drop_last();
        assert forall|i: int| 0 <= i < before.len() implies is_passed_over(
            s,
            #[trigger] before[i],
            checkpoint,
        ) by {
            assert(before[i] == records[i]);
        }
        lemma_passed_over_records_change_nothing(s, before, checkpoint);
        assert(is_passed_over(s, records.last(), checkpoint));
    }
}

/// Recovery is idempotent: replaying the same records again, on the state
/// that a replay of them has left, takes no record and changes neither the
/// store nor the schemas. The indexes, which are rebuilt from the store,
/// are the same as well.
pub proof fn lemma_recovery_is_idempotent(
    s: DatabaseModel,
    records: Seq<RecordModel>,
    checkpoint: u64,
)
    requires
        replay_database(s, records, checkpoint) is Some,
    ensures
        replay_database(replay_database(s, records, checkpoint)->Some_0, records, checkpoint)
            == replay_database(s, records, checkpoint),
        taken_count(replay_database(s, records, checkpoint)->Some_0, records, checkpoint) == 0,
{
    lemma_replayed_records_are_passed_over(s, records, checkpoint);
    lemma_passed_over_records_change_nothing(
        replay_database(s, records, checkpoint)->Some_0,
        records,
        checkpoint,
    );
}

/// Replay composes: replaying a log is replaying a prefix of it and then the
/// rest, and a violation in the prefix is a violation of the whole.
pub proof fn lemma_database_replay_of_prefix_then_rest(
    s: DatabaseModel,
    prefix: Seq<RecordModel>,
    rest: Seq<RecordModel>,
    checkpoint: u64,
)
    ensures
        replay_database(s, prefix + rest, checkpoint) == (match replay_database(
            s,
            prefix,
            checkpoint,
        ) {
            Some(mid) => replay_database(mid, rest, checkpoint),
            None => None,
        }),
    decreases rest.len(),
{
    if rest.len() == 0 {
        assert(prefix + rest =~= prefix);
    } else {
        lemma_database_replay_of_prefix_then_rest(s, prefix, rest.drop_last(), checkpoint);
        assert((prefix + rest).drop_last() =~= prefix + rest.drop_last());
        assert((prefix + rest).last() == rest.last());
    }
}

/// On a store that has applied its checkpoint, the replay of a database
/// does to the store what the replay of the store alone does, and the
/// checkpoint never runs ahead of the store.
pub proof fn lemma_database_store_is_the_replay(
    s: DatabaseModel,
    records: Seq<RecordModel>,
    checkpoint: u64,
)
    requires
        checkpoint <= s.store.last_lsn,
        s.store.checkpoint_lsn <= s.store.last_lsn,
        replay_database(s, records, checkpoint) is Some,
    ensures
        replay_database(s, records, checkpoint)->Some_0.store == replay_model(s.store, records),
        replay_database(s, records, checkpoint)->Some_0.store.last_lsn >= s.store.last_lsn,
        replay_database(s, records, checkpoint)->Some_0.store.checkpoint_lsn <= replay_database(
            s,
            records,
            checkpoint,
        )->Some_0.store.last_lsn,
    decreases records.len(),
{
    if records.len() > 0 {
        lemma_database_store_is_the_replay(s, records.drop_last(), checkpoint);
    }
}

/// Which checkpoint replay starts from makes no difference on a store that
/// has applied it: the records that it leaves out were applied before.
pub proof fn lemma_checkpoint_makes_no_difference(
    s: DatabaseModel,
    records: Seq<RecordModel>,
    one: u64,
    other: u64,
)
    requires
        one <= s.store.last_lsn,
        other <= s.store.last_lsn,
        s.store.checkpoint_lsn <= s.store.last_lsn,
    ensures
        replay_database(s, records, one) == replay_database(s, records, other),
    decreases records.len(),
{
    if records.len() > 0 {
        let before = records.drop_last();
        lemma_checkpoint_makes_no_difference(s, before, one, other);
        if replay_database(s, before, one) is Some {
            lemma_database_store_is_the_replay(s, before, one);
        }
    }
}

/// The same state but for the count of the warnings.
pub open spec fn same_data(a: Option<DatabaseModel>, b: Option<DatabaseModel>) -> bool {
    match (a, b) {
        (Some(x), Some(y)) => x.store == y.store && x.schemas == y.schemas,
        (None, None) => true,
        _ => false,
    }
}

/// The count of the warnings has no part in what replay does to the store
/// and the schemas.
pub proof fn lemma_warnings_make_no_difference(
    s: DatabaseModel,
    warnings: nat,
    records: Seq<RecordModel>,
    checkpoint: u64,
)
    ensures
        same_data(
            replay_database(DatabaseModel { warnings, ..s }, records, checkpoint),
            replay_database(s, records, checkpoint),
        ),
    decreases records.len(),
{
    if records.len() > 0 {
        lemma_warnings_make_no_difference(s, warnings, records.drop_last(), checkpoint);
    }
}

/// Replaying a prefix and then the whole log is replaying the whole log.
/// Let a database boot with a log that holds the records `prefix`, and boot
/// again, from what the first boot left, with a log that holds `prefix`
/// and then `rest`. The second boot passes the records of the prefix over
/// and applies the rest once: the store and the schemas are those of one
/// boot with the whole log, and so are the indexes, which are rebuilt from
/// the store. Each boot starts from the checkpoint of its store and counts
/// its warnings anew.
pub proof fn lemma_boot_with_a_prefix_then_with_the_whole(
    s: DatabaseModel,
    prefix: Seq<RecordModel>,
    rest: Seq<RecordModel>,
)
    requires
        s.store.checkpoint_lsn <= s.store.last_lsn,
        replay_database(s, prefix, s.store.checkpoint_lsn) is Some,
    ensures
        ({
            let first = replay_database(s, prefix, s.store.checkpoint_lsn)->Some_0;
            same_data(
                replay_database(
                    DatabaseModel { warnings: 0, ..first },
                    prefix + rest,
                    first.store.checkpoint_lsn,
                ),
                replay_database(s, prefix + rest, s.store.checkpoint_lsn),
            )
        }),
{
    let start = s.store.checkpoint_lsn;
    let first = replay_database(s, prefix, start)->Some_0;
    let again = DatabaseModel { warnings: 0, ..first };
    lemma_database_store_is_the_replay(s, prefix, start);
    // One boot with the whole log.
    lemma_database_replay_of_prefix_then_rest(s, prefix, rest, start);
    // The second boot passes the prefix over.
    lemma_replayed_records_are_passed_over(s, prefix, start);
    assert forall|i: int| 0 <= i < prefix.len() implies is_passed_over(
        first,
        #[trigger] prefix[i],
        first.store.checkpoint_lsn,
    ) by {
        assert(is_passed_over(first, prefix[i], start));
    }
    lemma_passed_over_records_change_nothing(first, prefix, first.store.checkpoint_lsn);
    lemma_database_replay_of_prefix_then_rest(first, prefix, rest, first.store.checkpoint_lsn);
    lemma_checkpoint_makes_no_difference(first, rest, first.store.checkpoint_lsn, start);
    lemma_warnings_make_no_difference(first, 0, prefix + rest, first.store.checkpoint_lsn);
}

/// A database that boots from a checkpointed store recovers what replay of
/// the whole log gives. Let the store have been written to its page after
/// the records `applied`, replayed on an empty store, and let the log hold
/// `applied` and then `later`. Where the recovery succeeds, the store is
/// the replay of the whole log on an empty store: no effect of a record of
/// the log is lost.
pub proof fn lemma_recovery_from_a_checkpoint_is_the_whole_replay(
    schemas: Seq<SchemaModel>,
    applied: Seq<RecordModel>,
    later: Seq<RecordModel>,
)
    requires
        replay_database(
            DatabaseModel {
                store: replay_model(empty_store(), applied),
                schemas,
                warnings: 0,
            },
            applied + later,
            replay_model(empty_store(), applied).checkpoint_lsn,
        ) is Some,
    ensures
        replay_database(
            DatabaseModel {
                store: replay_model(empty_store(), applied),
                schemas,
                warnings: 0,
            },
            applied + later,
            replay_model(empty_store(), applied).checkpoint_lsn,
        )->Some_0.store == replay_model(empty_store(), applied + later),
{
    let empty = empty_store();
    let page = replay_model(empty, applied);
    let start = DatabaseModel { store: page, schemas, warnings: 0 };
    lemma_checkpoint_is_not_above_last_lsn(empty, applied);
    lemma_database_store_is_the_replay(start, applied + later, page.checkpoint_lsn);
    lemma_snapshot_plus_tail_is_current_state(empty, applied, later);
}

/// What the recovery of a database did.
#[derive(Debug, Clone, Copy, PartialEq, Eq)]
pub struct DatabaseRecovery {
    /// What replay did to the store, and how the log ends.
    pub state: RecoveryState,
    /// The schema operations that were not valid: each is to be warned of.
    pub schema_warnings: u64,
}

/// Recovers a database from its log: replays the log into the store and
/// the schemas, then rebuilds every index. Recovery fails at the first
/// record that is a consistency violation, with the store and the schemas
/// as the records before it leave them. After a recovery that succeeds,
/// every index holds the entries that the store gives, and is consistent
/// with the store.
pub fn recover_database(
    wal: &[u8],
    store: &mut PageStore,
    schemas: &mut SchemaLoader,
    indexes: &mut IndexManager,
) -> (r: Result<DatabaseRecovery, RecoveryError>)
    ensures
        ({
            let records = log_records(wal@);
            let checkpoint = old(store)@.checkpoint_lsn;
            let start = DatabaseModel { store: old(store)@, schemas: old(schemas)@, warnings: 0 };
            match failing_record(start, records, checkpoint) {
                Some(i) => {
                    &&& r is Err
                    &&& r->Err_0 == (RecoveryError::ConsistencyViolation { lsn: records[i].lsn })
                    &&& replay_database(start, records.take(i), checkpoint) is Some
                    &&& final(store)@ == replay_database(
                        start,
                        records.take(i),
                        checkpoint,
                    )->Some_0.store
                    &&& final(schemas)@ == replay_database(
                        start,
                        records.take(i),
                        checkpoint,
                    )->Some_0.schemas
                    &&& *final(indexes) == *old(indexes)
                },
                None => {
                    &&& r is Ok
                    &&& replay_database(start, records, checkpoint) == Some(
                        DatabaseModel {
                            store: final(store)@,
                            schemas: final(schemas)@,
                            warnings: r->Ok_0.schema_warnings as nat,
                        },
                    )
                    &&& final(indexes).same_definitions(old(indexes))
                    &&& final(indexes).rebuilt_from(final(store)@.versions)
                    &&& final(indexes).consistent_with(final(store)@.versions)
                    &&& r->Ok_0.state.last_lsn == final(store)@.last_lsn
                    &&& r->Ok_0.state.records_replayed == taken_count(start, records, checkpoint)
                    &&& r->Ok_0.state.indexes_rebuilt == old(indexes).all().len()
                    &&& r->Ok_0.state.valid_len == valid_len(wal@)
                    &&& r->Ok_0.state.end == log_end(wal@)
                },
            }
        }),
{
    let scan = read_log(wal);
    let checkpoint = store.checkpoint_lsn();
    let ghost start = DatabaseModel { store: store@, schemas: schemas@, warnings: 0 };
    let ghost all = models(scan.records@);
    let mut warnings: u64 = 0;
    let mut replayed: u64 = 0;
    let mut i: usize = 0;
    proof {
        assert(all.take(0) =~= Seq::<RecordModel>::empty());
    }
    while i < scan.records.len()
        invariant
            i <= scan.records@.len(),
            all == models(scan.records@),
            all == log_records(wal@),
            start == (DatabaseModel { store: old(store)@, schemas: old(schemas)@, warnings: 0 }),
            checkpoint == start.store.checkpoint_lsn,
            *indexes == *old(indexes),
            failing_record(start, all.take(i as int), checkpoint) is None,
            replay_database(start, all.take(i as int), checkpoint) == Some(
                DatabaseModel { store: store@, schemas: schemas@, warnings: warnings as nat },
            ),
            warnings <= i,
            replayed <= i,
            replayed == taken_count(start, all.take(i as int), checkpoint),
        decreases scan.records@.len() - i,
    {
        let record = &scan.records[i];
        let ghost mid = DatabaseModel { store: store@, schemas: schemas@, warnings: warnings as nat };
        proof {
            let next = all.take(i + 1);
            assert(next.drop_last() =~= all.take(i as int));
            assert(next.last() == record@);
            assert(all[i as int] == record@);
        }
        if record.lsn > checkpoint && record.lsn > store.last_lsn_applied() {
            let fits = match record.kind {
                RecordKind::Schema => {
                    let valid = match decode_op(record.payload.as_slice()) {
                        Some(op) => schemas.apply(&op),
                        None => false,
                    };
                    if !valid {
                        warnings = warnings + 1;
                    }
                    true
                },
                RecordKind::Put => match decode_key(record.payload.as_slice()) {
                    Some(key) => {
                        let doc = slice_subrange(
                            record.payload.as_slice(),
                            key.consumed,
                            record.payload.len(),
                        );
                        assert(doc@ =~= record.payload@.skip(key.consumed as int));
                        schemas.validate(key.collection.as_slice(), doc)
                    },
                    None => false,
                },
                _ => true,
            };
            let applied = if fits {
                match store.apply(record) {
                    ApplyOutcome::Malformed => false,
                    _ => true,
                }
            } else {
                false
            };
            if !applied {
                proof {
                    assert(step_model(mid, record@, checkpoint) is None);
                    assert(failing_record(start, all.take(i + 1), checkpoint) == Some(i as int));
                    lemma_failure_of_prefix(start, all, checkpoint, i + 1);
                }
                return Err(RecoveryError::ConsistencyViolation { lsn: record.lsn });
            }
            replayed = replayed + 1;
        }
        i = i + 1;
    }
    proof {
        assert(all.take(all.len() as int) =~= all);
    }
    let rebuilt = indexes.rebuild(store);
    Ok(
        DatabaseRecovery {
            state: RecoveryState {
                last_lsn: store.last_lsn_applied(),
                records_replayed: replayed,
                indexes_rebuilt: rebuilt as u64,
                valid_len: scan.valid_len,
                end: scan.end,
            },
            schema_warnings: warnings,
        },
    )
}

} // verus!
