//! Durability: what the log writer, the log reader, the store and the
//! resource manager promise together.
//!
//! A write is acknowledged only once its record is synced. What was synced
//! is read back whatever a crash left behind it, and replaying it gives the
//! acknowledged write's effect. A failure of the log puts the system in
//! read-only mode, and nothing that was not durable before is acknowledged
//! afterwards.

use vstd::prelude::*;
use crate::recovery::{
    beyond_checkpoint,
    first_violation,
    read_only_after,
    recover,
    RecoveryError,
    RecoveryState,
};
use crate::resource_limits::ResourceManager;
use crate::storage::{
    apply_model,
    empty_store,
    is_applicable,
    lemma_checkpoint_is_not_above_last_lsn,
    lemma_replay_is_idempotent,
    lemma_replay_of_prefix_then_rest,
    lemma_snapshot_plus_tail_is_current_state,
    lemma_replay_raises_lsn,
    lookup,
    put_parts,
    replay_model,
    PageStore,
    StoreModel,
    StoreSnapshot,
};
use crate::wal::frame::{frame_status, FrameStatus, RecordKind, RecordModel, MIN_FRAME_LEN};
use crate::wal::payload::{parse_delete, KeyModel};
use crate::wal::reader::{
    all_encodable,
    lemma_read_of_written,
    lemma_short_tail_is_discarded,
    log_bytes,
    log_end,
    log_records,
    LogEnd,
};
use crate::wal::writer::{
    lemma_highest_of_consecutive,
    lsns_are_consecutive,
    resume_point,
    WalIoFailure,
    WalWriter,
};

verus! {

/// Whether a record changes the document of a key: a put or a delete of
/// the key.
pub open spec fn touches(r: RecordModel, key: KeyModel) -> bool {
    (r.kind == RecordKind::Put && is_applicable(r) && put_parts(r.payload).0 == key) || (r.kind
        == RecordKind::Delete && parse_delete(r.payload) == Some(key))
}

/// Replay does not raise the last LSN applied beyond the LSNs of the store
/// and of the records.
pub proof fn lemma_replay_lsn_bound(s: StoreModel, records: Seq<RecordModel>, bound: u64)
    requires
        s.last_lsn <= bound,
        forall|i: int| 0 <= i < records.len() ==> (#[trigger] records[i]).lsn <= bound,
    ensures
        replay_model(s, records).last_lsn <= bound,
    decreases records.len(),
{
    if records.len() > 0 {
        let before = records.drop_last();
        assert forall|i: int| 0 <= i < before.len() implies (#[trigger] before[i]).lsn
            <= bound by {
            assert(before[i] == records[i]);
        }
        lemma_replay_lsn_bound(s, before, bound);
    }
}

/// Records that do not touch a key leave its document as it is.
pub proof fn lemma_untouched_key_keeps_its_document(
    s: StoreModel,
    records: Seq<RecordModel>,
    key: KeyModel,
)
    requires
        forall|i: int| 0 <= i < records.len() ==> !touches(#[trigger] records[i], key),
    ensures
        lookup(replay_model(s, records).versions, key) == lookup(s.versions, key),
    decreases records.len(),
{
    if records.len() > 0 {
        let before = records.drop_last();
        let last = records.last();
        assert forall|i: int| 0 <= i < before.len() implies !touches(#[trigger] before[i], key) by {
            assert(before[i] == records[i]);
        }
        lemma_untouched_key_keeps_its_document(s, before, key);
        let mid = replay_model(s, before);
        let after = apply_model(mid, last);
        assert(!touches(last, key));
        if after.versions != mid.versions {
            assert(after.versions.drop_last() =~= mid.versions);
            assert(after.versions.last().key != key);
        }
    }
}

/// An acknowledged write is recovered. Let the log hold the frames of the
/// records that a writer appended to an empty log, the put at position `i`
/// among them, followed by whatever a crash left behind them that is no
/// whole frame. Then replaying what is read back from the log on an empty
/// store gives, for the put's key, the put's document, unless a later
/// record of the log puts or deletes the key.
pub proof fn lemma_acknowledged_write_is_recovered(
    records: Seq<RecordModel>,
    i: int,
    left_behind: Seq<u8>,
)
    requires
        all_encodable(records),
        lsns_are_consecutive(records, 1),
        0 <= i < records.len(),
        records[i].kind == RecordKind::Put,
        is_applicable(records[i]),
        forall|j: int|
            i < j < records.len() ==> !touches(#[trigger] records[j], put_parts(records[i].payload).0),
        frame_status(left_behind) != FrameStatus::Valid,
    ensures
        log_records(log_bytes(records) + left_behind) == records,
        lookup(
            replay_model(empty_store(), log_records(log_bytes(records) + left_behind)).versions,
            put_parts(records[i].payload).0,
        ) == Some(put_parts(records[i].payload).1),
{
    lemma_read_of_written(records, left_behind);
    assert(records + Seq::<RecordModel>::empty() =~= records);
    let key = put_parts(records[i].payload).0;
    let before = records.take(i);
    let later = records.skip(i + 1);
    let w = records[i];
    assert(records =~= before.push(w) + later);
    crate::storage::lemma_replay_of_prefix_then_rest(empty_store(), before.push(w), later);
    let s = replay_model(empty_store(), before);
    assert forall|k: int| 0 <= k < before.len() implies (#[trigger] before[k]).lsn <= (i as u64) by {
        assert(before[k] == records[k]);
    }
    lemma_replay_lsn_bound(empty_store(), before, i as u64);
    assert(w.lsn == i + 1);
    assert(before.push(w).drop_last() =~= before);
    let with_w = replay_model(empty_store(), before.push(w));
    assert(with_w == apply_model(s, w));
    assert(with_w.versions.last().key == key);
    assert(lookup(with_w.versions, key) == Some(put_parts(w.payload).1));
    assert forall|k: int| 0 <= k < later.len() implies !touches(#[trigger] later[k], key) by {
        assert(later[k] == records[i + 1 + k]);
    }
    lemma_untouched_key_keeps_its_document(with_w, later, key);
}

/// An acknowledged write is recovered by a store that boots from a
/// checkpoint. Let the log hold the records that a writer appended to an
/// empty log, and let the store have been written to its page after the
/// first `k` of them. Then the recovery of the log on that store, which
/// replays the records beyond the store's checkpoint, gives the state that
/// replaying the whole log on an empty store gives: the documents of the
/// page stay, and for the key of the put at position `i` the store holds
/// the put's document, unless a later record of the log puts or deletes
/// the key.
pub proof fn lemma_acknowledged_write_is_recovered_from_a_checkpoint(
    records: Seq<RecordModel>,
    i: int,
    k: int,
    left_behind: Seq<u8>,
)
    requires
        all_encodable(records),
        lsns_are_consecutive(records, 1),
        0 <= i < records.len(),
        0 <= k <= records.len(),
        records[i].kind == RecordKind::Put,
        is_applicable(records[i]),
        forall|j: int|
            i < j < records.len() ==> !touches(#[trigger] records[j], put_parts(records[i].payload).0),
        frame_status(left_behind) != FrameStatus::Valid,
    ensures
        ({
            let page = replay_model(empty_store(), records.take(k));
            let read = log_records(log_bytes(records) + left_behind);
            let recovered = replay_model(page, beyond_checkpoint(read, page.checkpoint_lsn));
            &&& read == records
            &&& recovered == replay_model(empty_store(), records)
            &&& lookup(recovered.versions, put_parts(records[i].payload).0) == Some(
                put_parts(records[i].payload).1,
            )
        }),
{
    lemma_acknowledged_write_is_recovered(records, i, left_behind);
    let page = replay_model(empty_store(), records.take(k));
    lemma_checkpoint_is_not_above_last_lsn(empty_store(), records.take(k));
    lemma_records_below_checkpoint_are_skipped(page, records);
    assert(records =~= records.take(k) + records.skip(k));
    lemma_snapshot_plus_tail_is_current_state(empty_store(), records.take(k), records.skip(k));
}

/// Records a write-side failure of the log: the writer is poisoned and the
/// system enters read-only mode. Nothing that was not durable before can
/// be acknowledged afterwards.
pub fn record_wal_failure(
    writer: &mut WalWriter,
    resources: &mut ResourceManager,
    failure: WalIoFailure,
)
    requires
        old(writer).wf(),
    ensures
        final(writer).wf(),
        final(writer).failure() is Some,
        final(writer).durable() == old(writer).durable(),
        final(writer).pending_records() == Seq::<RecordModel>::empty(),
        final(resources).read_only(),
        final(resources).same_counters(old(resources)),
{
    writer.mark_failed(failure);
    resources.enter_read_only_mode();
}

/// Leaving out the records at or below the checkpoint changes nothing of a
/// replay on a store that has applied its checkpoint: such records were
/// applied before.
pub proof fn lemma_records_below_checkpoint_are_skipped(s: StoreModel, records: Seq<RecordModel>)
    requires
        s.checkpoint_lsn <= s.last_lsn,
    ensures
        replay_model(s, beyond_checkpoint(records, s.checkpoint_lsn)) == replay_model(s, records),
    decreases records.len(),
{
    reveal(Seq::filter);
    if records.len() > 0 {
        let before = records.drop_last();
        let last = records.last();
        lemma_records_below_checkpoint_are_skipped(s, before);
        lemma_replay_raises_lsn(s, before);
        let kept = beyond_checkpoint(before, s.checkpoint_lsn);
        if last.lsn > s.checkpoint_lsn {
            assert(beyond_checkpoint(records, s.checkpoint_lsn) =~= kept.push(last));
            assert(kept.push(last).drop_last() =~= kept);
        } else {
            assert(beyond_checkpoint(records, s.checkpoint_lsn) =~= kept);
        }
    }
}

/// Restores a backup: the store of the archive's snapshot, with the
/// archive's log, if it holds one, recovered on it.
pub fn restore_backup(snapshot: &StoreSnapshot, archived_log: Option<&[u8]>) -> (r: Result<
    PageStore,
    RecoveryError,
>)
    ensures
        match archived_log {
            None => r is Ok && r->Ok_0@ == snapshot@,
            Some(log) => {
                let records = beyond_checkpoint(log_records(log@), snapshot@.checkpoint_lsn);
                match first_violation(snapshot@, records) {
                    None => r is Ok && r->Ok_0@ == replay_model(snapshot@, records),
                    Some(i) => r is Err && r->Err_0 == (RecoveryError::ConsistencyViolation {
                        lsn: records[i].lsn,
                    }),
                }
            },
        },
{
    let mut store = PageStore::restore(snapshot);
    match archived_log {
        None => Ok(store),
        Some(log) => match recover(log, &mut store) {
            Ok(_) => Ok(store),
            Err(e) => Err(e),
        },
    }
}

/// Backup then restore gives the state of the backup. Let a backup be taken
/// of the state after the records `up_to_cut`, replayed on a store whose
/// checkpoint is not above its last LSN, as every store is that replay has
/// made of an empty one. Restored without a log, it
/// gives that state: the records beyond the cut are not included. Restored
/// with a log that holds the records up to the cut and `included` beyond
/// it, it gives the state after all of these, whether or not the records at
/// or below the snapshot's checkpoint are replayed.
pub proof fn lemma_backup_then_restore(
    s: StoreModel,
    up_to_cut: Seq<RecordModel>,
    included: Seq<RecordModel>,
)
    requires
        s.checkpoint_lsn <= s.last_lsn,
    ensures
        replay_model(replay_model(s, up_to_cut), Seq::<RecordModel>::empty()) == replay_model(
            s,
            up_to_cut,
        ),
        replay_model(
            replay_model(s, up_to_cut),
            beyond_checkpoint(up_to_cut + included, replay_model(s, up_to_cut).checkpoint_lsn),
        ) == replay_model(s, up_to_cut + included),
{
    let snapshot = replay_model(s, up_to_cut);
    lemma_checkpoint_is_not_above_last_lsn(s, up_to_cut);
    lemma_records_below_checkpoint_are_skipped(snapshot, up_to_cut + included);
    lemma_replay_of_prefix_then_rest(snapshot, up_to_cut, included);
    lemma_replay_of_prefix_then_rest(s, up_to_cut, included);
    lemma_replay_is_idempotent(s, up_to_cut);
}

/// Torn bytes at the tail take no LSN and call for no read-only mode. Let
/// a log hold the records of the LSNs 1 to `n` and after them arbitrary
/// bytes, fewer than the shortest frame. Then the records are read back,
/// the log ends as a torn tail, a recovery that ends so does not ask for
/// read-only mode, and the writer goes on after `n`: the next write takes
/// the LSN `n + 1`.
pub proof fn lemma_torn_bytes_take_no_lsn(
    records: Seq<RecordModel>,
    tail: Seq<u8>,
    state: RecoveryState,
    checkpoint_lsn: u64,
    operator_proceeds: bool,
)
    requires
        all_encodable(records),
        lsns_are_consecutive(records, 1),
        records.len() < u64::MAX,
        1 <= tail.len() < MIN_FRAME_LEN,
        state.end == log_end(log_bytes(records) + tail),
        state.last_lsn <= records.len(),
    ensures
        log_records(log_bytes(records) + tail) == records,
        log_end(log_bytes(records) + tail) == LogEnd::TornTail,
        !read_only_after(state, checkpoint_lsn, operator_proceeds),
        resume_point(log_records(log_bytes(records) + tail), state.last_lsn) == records.len(),
{
    lemma_short_tail_is_discarded(records, tail);
    lemma_highest_of_consecutive(records);
}

} // verus!
