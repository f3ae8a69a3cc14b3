//! The document store that WAL records are applied to.
//!
//! A store holds document versions in the order they were applied, each a
//! document or a tombstone for a key, and the LSN of the last record
//! applied. Applying a record whose LSN is not above that LSN changes
//! nothing, so that replaying a log, or a part of it, twice gives the same
//! state as replaying it once.

use vstd::prelude::*;
use vstd::slice::*;
use crate::wal::frame::{RecordKind, RecordModel, WalRecord};
use crate::wal::payload::{
    decode_checkpoint,
    decode_key,
    parse_checkpoint,
    parse_delete,
    parse_key,
    parse_put,
    KeyModel,
};
use crate::page::{lemma_parse_of_page, page_bytes, page_fits, parse_page, Page, PageModel};

verus! {

/// A version of a document as a mathematical value.
pub struct VersionModel {
    pub key: KeyModel,
    pub doc: Seq<u8>,
    pub tombstone: bool,
    pub lsn: u64,
}

/// The state of a store as a mathematical value.
pub struct StoreModel {
    /// The versions in the order they were applied.
    pub versions: Seq<VersionModel>,
    /// The LSN of the last record applied; 0 when none was.
    pub last_lsn: u64,
    /// The LSN of the last checkpoint recorded; 0 when none was.
    pub checkpoint_lsn: u64,
}

/// The empty store.
pub open spec fn empty_store() -> StoreModel {
    StoreModel { versions: Seq::empty(), last_lsn: 0, checkpoint_lsn: 0 }
}

/// Whether a record can be applied: a put, a delete and a checkpoint need a
/// payload of their form, and a checkpoint names an LSN that is not above
/// its own, for it speaks of records that were written before it.
pub open spec fn is_applicable(r: RecordModel) -> bool {
    match r.kind {
        RecordKind::Put => parse_put(r.payload) is Some,
        RecordKind::Delete => parse_delete(r.payload) is Some,
        RecordKind::Checkpoint => parse_checkpoint(r.payload) is Some && parse_checkpoint(
            r.payload,
        )->0 <= r.lsn,
        _ => true,
    }
}

/// The key and the document of a put's payload.
pub open spec fn put_parts(payload: Seq<u8>) -> (KeyModel, Seq<u8>) {
    match parse_put(payload) {
        Some(parts) => parts,
        None => (KeyModel { collection: Seq::empty(), pk: Seq::empty() }, Seq::empty()),
    }
}

/// The store after a record is applied. A record whose LSN is not above the
/// last LSN applied, or that cannot be applied, changes nothing. Otherwise a
/// put adds a version of its document, a delete adds a tombstone, a
/// checkpoint records its LSN, and every record raises the last LSN applied
/// to its own.
pub open spec fn apply_model(s: StoreModel, r: RecordModel) -> StoreModel {
    if r.lsn <= s.last_lsn || !is_applicable(r) {
        s
    } else {
        match r.kind {
            RecordKind::Put => StoreModel {
                versions: s.versions.push(
                    VersionModel {
                        key: put_parts(r.payload).0,
                        doc: put_parts(r.payload).1,
                        tombstone: false,
                        lsn: r.lsn,
                    },
                ),
                last_lsn: r.lsn,
                ..s
            },
            RecordKind::Delete => StoreModel {
                versions: s.versions.push(
                    VersionModel {
                        key: parse_delete(r.payload)->0,
                        doc: Seq::empty(),
                        tombstone: true,
                        lsn: r.lsn,
                    },
                ),
                last_lsn: r.lsn,
                ..s
            },
            RecordKind::Checkpoint => StoreModel {
                last_lsn: r.lsn,
                checkpoint_lsn: parse_checkpoint(r.payload)->0,
                ..s
            },
            _ => StoreModel { last_lsn: r.lsn, ..s },
        }
    }
}

/// The store after the records are applied in order.
pub open spec fn replay_model(s: StoreModel, records: Seq<RecordModel>) -> StoreModel
    decreases records.len(),
{
    if records.len() == 0 {
        s
    } else {
        apply_model(replay_model(s, records.drop_last()), records.last())
    }
}

/// The document that the versions hold for a key: that of the last version
/// of the key, unless it is a tombstone.
pub open spec fn lookup(versions: Seq<VersionModel>, key: KeyModel) -> Option<Seq<u8>>
    decreases versions.len(),
{
    if versions.len() == 0 {
        None
    } else if versions.last().key == key {
        if versions.last().tombstone {
            None
        } else {
            Some(versions.last().doc)
        }
    } else {
        lookup(versions.drop_last(), key)
    }
}

/// Applying a record twice is applying it once.
pub proof fn lemma_apply_is_idempotent(s: StoreModel, r: RecordModel)
    ensures
        apply_model(apply_model(s, r), r) == apply_model(s, r),
{
}

/// Applying never lowers the last LSN applied.
pub proof fn lemma_replay_raises_lsn(s: StoreModel, records: Seq<RecordModel>)
    ensures
        replay_model(s, records).last_lsn >= s.last_lsn,
        forall|i: int|
            0 <= i < records.len() && is_applicable(#[trigger] records[i]) ==> records[i].lsn
                <= replay_model(s, records).last_lsn,
    decreases records.len(),
{
    if records.len() > 0 {
        let before = records.drop_last();
        lemma_replay_raises_lsn(s, before);
        assert forall|i: int|
            0 <= i < records.len() && is_applicable(#[trigger] records[i]) implies records[i].lsn
            <= replay_model(s, records).last_lsn by {
            if i < before.len() {
                assert(before[i] == records[i]);
            }
        }
    }
}

/// The checkpoint never runs ahead of the store: a store whose checkpoint is
/// not above the last LSN applied stays so under replay, for a checkpoint
/// record names no LSN above its own.
pub proof fn lemma_checkpoint_is_not_above_last_lsn(s: StoreModel, records: Seq<RecordModel>)
    requires
        s.checkpoint_lsn <= s.last_lsn,
    ensures
        replay_model(s, records).checkpoint_lsn <= replay_model(s, records).last_lsn,
    decreases records.len(),
{
    if records.len() > 0 {
        lemma_checkpoint_is_not_above_last_lsn(s, records.drop_last());
    }
}

/// Replay composes: replaying a log is replaying a prefix of it and then the
/// rest.
pub proof fn lemma_replay_of_prefix_then_rest(
    s: StoreModel,
    prefix: Seq<RecordModel>,
    rest: Seq<RecordModel>,
)
    ensures
        replay_model(s, prefix + rest) == replay_model(replay_model(s, prefix), rest),
    decreases rest.len(),
{
    if rest.len() == 0 {
        assert(prefix + rest =~= prefix);
    } else {
        lemma_replay_of_prefix_then_rest(s, prefix, rest.drop_last());
        assert((prefix + rest).drop_last() =~= prefix + rest.drop_last());
        assert((prefix + rest).last() == rest.last());
    }
}

/// Recovery is idempotent: replaying the same records twice gives the state
/// that replaying them once gives.
pub proof fn lemma_replay_is_idempotent(s: StoreModel, records: Seq<RecordModel>)
    ensures
        replay_model(replay_model(s, records), records) == replay_model(s, records),
{
    let once = replay_model(s, records);
    lemma_replay_raises_lsn(s, records);
    lemma_replay_skips_applied(once, records);
}

/// Records that are not applicable or whose LSNs are not above the last LSN
/// applied change nothing.
pub proof fn lemma_replay_skips_applied(s: StoreModel, records: Seq<RecordModel>)
    requires
        forall|i: int|
            0 <= i < records.len() ==> !is_applicable(#[trigger] records[i]) || records[i].lsn
                <= s.last_lsn,
    ensures
        replay_model(s, records) == s,
    decreases records.len(),
{
    if records.len() > 0 {
        let before = records.drop_last();
        assert forall|i: int| 0 <= i < before.len() implies !is_applicable(#[trigger] before[i])
            || before[i].lsn <= s.last_lsn by {
            assert(before[i] == records[i]);
        }
        lemma_replay_skips_applied(s, before);
    }
}

/// A snapshot with `wal-cut-lsn = L` and the log's tail beyond `L` give the
/// current state: when `snapshot` is the state after the records up to `L`,
/// replaying on it the records beyond `L` gives the state after all records;
/// and so does replaying the whole log on it.
pub proof fn lemma_snapshot_plus_tail_is_current_state(
    s: StoreModel,
    up_to_cut: Seq<RecordModel>,
    beyond_cut: Seq<RecordModel>,
)
    ensures
        replay_model(replay_model(s, up_to_cut), beyond_cut) == replay_model(
            s,
            up_to_cut + beyond_cut,
        ),
        replay_model(replay_model(s, up_to_cut), up_to_cut + beyond_cut) == replay_model(
            s,
            up_to_cut + beyond_cut,
        ),
{
    lemma_replay_of_prefix_then_rest(s, up_to_cut, beyond_cut);
    let snapshot = replay_model(s, up_to_cut);
    lemma_replay_of_prefix_then_rest(snapshot, up_to_cut, beyond_cut);
    lemma_replay_is_idempotent(s, up_to_cut);
}

/// A version of a document.
#[derive(Debug, Clone, PartialEq, Eq)]
pub struct DocumentVersion {
    pub collection: Vec<u8>,
    pub pk: Vec<u8>,
    pub doc: Vec<u8>,
    pub tombstone: bool,
    pub lsn: u64,
}

impl View for DocumentVersion {
    type V = VersionModel;

    open spec fn view(&self) -> VersionModel {
        VersionModel {
            key: KeyModel { collection: self.collection@, pk: self.pk@ },
            doc: self.doc@,
            tombstone: self.tombstone,
            lsn: self.lsn,
        }
    }
}

/// What applying a record to the store did.
#[derive(Debug, Clone, Copy, PartialEq, Eq, Structural)]
pub enum ApplyOutcome {
    /// The record was applied.
    Applied,
    /// The record's LSN is not above the last LSN applied: nothing changed.
    AlreadyApplied,
    /// The record's payload is not of the form that its type needs: nothing
    /// changed.
    Malformed,
}

/// What applying a record does to a store.
pub open spec fn outcome_of(s: StoreModel, r: RecordModel) -> ApplyOutcome {
    if r.lsn <= s.last_lsn {
        ApplyOutcome::AlreadyApplied
    } else if !is_applicable(r) {
        ApplyOutcome::Malformed
    } else {
        ApplyOutcome::Applied
    }
}

/// Whether the version at position `i` is the last of its key.
pub open spec fn is_last_of_key(versions: Seq<VersionModel>, i: int) -> bool {
    0 <= i < versions.len() && forall|j: int|
        i < j < versions.len() ==> (#[trigger] versions[j]).key != versions[i].key
}

/// Whether the version at position `i` is a live document: the last
/// version of its key, and no tombstone.
pub open spec fn is_live(versions: Seq<VersionModel>, i: int) -> bool {
    is_last_of_key(versions, i) && !versions[i].tombstone
}

/// The document of a key is that of the last version of the key: where the
/// last version of a key stands at `i`, `lookup` gives its document, or
/// nothing for a tombstone.
pub proof fn lemma_lookup_is_last_version(versions: Seq<VersionModel>, i: int)
    requires
        is_last_of_key(versions, i),
    ensures
        lookup(versions, versions[i].key) == (if versions[i].tombstone {
            None
        } else {
            Some(versions[i].doc)
        }),
    decreases versions.len(),
{
    if i < versions.len() - 1 {
        let before = versions.drop_last();
        assert(versions.last().key != versions[i].key);
        assert forall|j: int| i < j < before.len() implies (#[trigger] before[j]).key
            != before[i].key by {
            assert(before[j] == versions[j]);
        }
        lemma_lookup_is_last_version(before, i);
    }
}

/// A key that has a document has a live version.
pub proof fn lemma_document_has_live_version(versions: Seq<VersionModel>, key: KeyModel)
    requires
        lookup(versions, key) is Some,
    ensures
        exists|i: int| is_live(versions, i) && #[trigger] versions[i].key == key,
    decreases versions.len(),
{
    if versions.last().key == key {
        let i = versions.len() - 1;
        assert(is_live(versions, i) && versions[i].key == key);
    } else {
        let before = versions.drop_last();
        lemma_document_has_live_version(before, key);
        let i = choose|i: int| is_live(before, i) && #[trigger] before[i].key == key;
        assert(versions[i] == before[i]);
        assert forall|j: int| i < j < versions.len() implies (#[trigger] versions[j]).key
            != versions[i].key by {
            if j < before.len() {
                assert(before[j] == versions[j]);
            }
        }
        assert(is_live(versions, i) && versions[i].key == key);
    }
}

/// What a snapshot of a store holds: the store's versions, and as its cut
/// the last LSN that the store has applied.
pub open spec fn snapshot_model(s: StoreModel) -> StoreModel {
    StoreModel { versions: s.versions, last_lsn: s.last_lsn, checkpoint_lsn: s.checkpoint_lsn }
}

/// The store that a snapshot is restored to: it holds the snapshot's
/// versions and has applied the LSNs up to the snapshot's cut.
pub open spec fn restored_model(snapshot: StoreModel) -> StoreModel {
    StoreModel {
        versions: snapshot.versions,
        last_lsn: snapshot.last_lsn,
        checkpoint_lsn: snapshot.checkpoint_lsn,
    }
}

/// Snapshot then restore gives the state of before the snapshot, and the
/// snapshot's cut is the last LSN that this state has applied: it holds no
/// later record.
pub proof fn lemma_snapshot_then_restore(s: StoreModel)
    ensures
        restored_model(snapshot_model(s)) == s,
        snapshot_model(s).last_lsn == s.last_lsn,
{
}

/// The page that holds a store.
pub open spec fn page_of(s: StoreModel, page_id: u64) -> PageModel {
    PageModel {
        page_id,
        last_lsn: s.last_lsn,
        checkpoint_lsn: s.checkpoint_lsn,
        versions: s.versions,
    }
}

/// The store that a page holds.
pub open spec fn store_of(p: PageModel) -> StoreModel {
    StoreModel { versions: p.versions, last_lsn: p.last_lsn, checkpoint_lsn: p.checkpoint_lsn }
}

/// A store survives its page: the bytes of the page that holds a store are
/// read as that page, and the page holds that store.
pub proof fn lemma_store_survives_its_page(s: StoreModel, page_id: u64)
    requires
        page_fits(page_of(s, page_id)),
    ensures
        parse_page(page_bytes(page_of(s, page_id))) == Some(page_of(s, page_id)),
        store_of(page_of(s, page_id)) == s,
{
    lemma_parse_of_page(page_of(s, page_id));
}

/// The document store.
#[derive(Debug)]
pub struct PageStore {
    versions: Vec<DocumentVersion>,
    last_lsn_applied: u64,
    checkpoint_lsn: u64,
}

/// A point-in-time copy of a store.
#[derive(Debug, Clone, PartialEq, Eq)]
pub struct StoreSnapshot {
    versions: Vec<DocumentVersion>,
    wal_cut_lsn: u64,
    checkpoint_lsn: u64,
}

/// The positions below `n` at which the live documents of a collection
/// stand, in order.
pub open spec fn live_positions(versions: Seq<VersionModel>, collection: Seq<u8>, n: int) -> Seq<
    int,
>
    decreases n,
{
    if n <= 0 {
        Seq::<int>::empty()
    } else {
        let before = live_positions(versions, collection, n - 1);
        if is_live(versions, n - 1) && versions[n - 1].key.collection == collection {
            before.push(n - 1)
        } else {
            before
        }
    }
}

/// The documents of a collection: its live versions, in the order in which
/// they were applied.
pub open spec fn scan_model(versions: Seq<VersionModel>, collection: Seq<u8>) -> Seq<VersionModel> {
    live_positions(versions, collection, versions.len() as int).map_values(
        |i: int| versions[i],
    )
}

/// The versions as mathematical values.
pub open spec fn version_models(versions: Seq<DocumentVersion>) -> Seq<VersionModel> {
    versions.map_values(|v: DocumentVersion| v@)
}

fn same_bytes(a: &[u8], b: &[u8]) -> (r: bool)
    ensures
        r == (a@ == b@),
{
    if a.len() != b.len() {
        return false;
    }
    let mut i: usize = 0;
    while i < a.len()
        invariant
            i <= a@.len(),
            a@.len() == b@.len(),
            forall|k: int| 0 <= k < i ==> a@[k] == b@[k],
        decreases a@.len() - i,
    {
        if a[i] != b[i] {
            return false;
        }
        i = i + 1;
    }
    assert(a@ =~= b@);
    true
}

/// An equal version.
pub(crate) fn copy_version(v: &DocumentVersion) -> (r: DocumentVersion)
    ensures
        r@ == v@,
{
    DocumentVersion {
        collection: slice_to_vec(v.collection.as_slice()),
        pk: slice_to_vec(v.pk.as_slice()),
        doc: slice_to_vec(v.doc.as_slice()),
        tombstone: v.tombstone,
        lsn: v.lsn,
    }
}

fn copy_versions(versions: &Vec<DocumentVersion>) -> (r: Vec<DocumentVersion>)
    ensures
        version_models(r@) == version_models(versions@),
{
    let mut out: Vec<DocumentVersion> = Vec::new();
    let mut i: usize = 0;
    while i < versions.len()
        invariant
            i <= versions@.len(),
            out@.len() == i,
            forall|k: int| 0 <= k < i ==> out@[k]@ == versions@[k]@,
        decreases versions@.len() - i,
    {
        out.push(copy_version(&versions[i]));
        i = i + 1;
    }
    assert(version_models(out@) =~= version_models(versions@));
    out
}

impl View for PageStore {
    type V = StoreModel;

    closed spec fn view(&self) -> StoreModel {
        StoreModel {
            versions: version_models(self.versions@),
            last_lsn: self.last_lsn_applied,
            checkpoint_lsn: self.checkpoint_lsn,
        }
    }
}

impl View for StoreSnapshot {
    type V = StoreModel;

    closed spec fn view(&self) -> StoreModel {
        StoreModel {
            versions: version_models(self.versions@),
            last_lsn: self.wal_cut_lsn,
            checkpoint_lsn: self.checkpoint_lsn,
        }
    }
}

impl StoreSnapshot {
    /// The highest LSN that the snapshot includes.
    pub fn wal_cut_lsn(&self) -> (r: u64)
        ensures
            r == self@.last_lsn,
    {
        self.wal_cut_lsn
    }
}

impl PageStore {
    /// An empty store.
    pub fn new() -> (r: Self)
        ensures
            r@ == empty_store(),
    {
        let r = PageStore { versions: Vec::new(), last_lsn_applied: 0, checkpoint_lsn: 0 };
        assert(version_models(r.versions@) =~= Seq::<VersionModel>::empty());
        r
    }

    /// Applies a record: idempotent by LSN. The store changes as
    /// `apply_model` says; the outcome tells an applied record from one that
    /// was applied before and from one whose payload is malformed.
    pub fn apply(&mut self, record: &WalRecord) -> (r: ApplyOutcome)
        ensures
            final(self)@ == apply_model(old(self)@, record@),
            r == outcome_of(old(self)@, record@),
    {
        if record.lsn <= self.last_lsn_applied {
            return ApplyOutcome::AlreadyApplied;
        }
        let ghost before = self.versions@;
        match record.kind {
            RecordKind::Put => {
                let payload = record.payload.as_slice();
                match decode_key(payload) {
                    None => {
                        return ApplyOutcome::Malformed;
                    },
                    Some(key) => {
                        let doc = slice_to_vec(slice_subrange(payload, key.consumed, payload.len()));
                        assert(payload@.subrange(key.consumed as int, payload@.len() as int)
                            =~= payload@.skip(key.consumed as int));
                        let version = DocumentVersion {
                            collection: key.collection,
                            pk: key.pk,
                            doc,
                            tombstone: false,
                            lsn: record.lsn,
                        };
                        self.versions.push(version);
                        assert(version_models(self.versions@) =~= version_models(before).push(
                            version@,
                        ));
                    },
                }
            },
            RecordKind::Delete => {
                let payload = record.payload.as_slice();
                match decode_key(payload) {
                    None => {
                        return ApplyOutcome::Malformed;
                    },
                    Some(key) => {
                        if key.consumed != payload.len() {
                            return ApplyOutcome::Malformed;
                        }
                        let version = DocumentVersion {
                            collection: key.collection,
                            pk: key.pk,
                            doc: Vec::new(),
                            tombstone: true,
                            lsn: record.lsn,
                        };
                        self.versions.push(version);
                        assert(version_models(self.versions@) =~= version_models(before).push(
                            version@,
                        ));
                    },
                }
            },
            RecordKind::Checkpoint => {
                match decode_checkpoint(record.payload.as_slice()) {
                    None => {
                        return ApplyOutcome::Malformed;
                    },
                    Some(lsn) => {
                        if lsn > record.lsn {
                            return ApplyOutcome::Malformed;
                        }
                        self.checkpoint_lsn = lsn;
                    },
                }
            },
            _ => {},
        }
        self.last_lsn_applied = record.lsn;
        ApplyOutcome::Applied
    }

    /// The document of a key, if the store holds one.
    pub fn get(&self, collection: &[u8], pk: &[u8]) -> (r: Option<Vec<u8>>)
        ensures
            match lookup(self@.versions, KeyModel { collection: collection@, pk: pk@ }) {
                Some(doc) => r is Some && r->0@ == doc,
                None => r is None,
            },
    {
        let ghost key = KeyModel { collection: collection@, pk: pk@ };
        let ghost all = version_models(self.versions@);
        let mut i: usize = self.versions.len();
        assert(all.take(i as int) =~= all);
        while i > 0
            invariant
                i <= self.versions@.len(),
                all == version_models(self.versions@),
                key == (KeyModel { collection: collection@, pk: pk@ }),
                lookup(all, key) == lookup(all.take(i as int), key),
            decreases i,
        {
            let v = &self.versions[i - 1];
            proof {
                let upto = all.take(i as int);
                assert(upto.last() == all[i - 1]);
                assert(all[i - 1] == self.versions@[i - 1]@);
                assert(upto.drop_last() =~= all.take(i - 1));
                assert(v@.key == key <==> (v.collection@ == collection@ && v.pk@ == pk@));
            }
            if same_bytes(v.collection.as_slice(), collection) && same_bytes(v.pk.as_slice(), pk) {
                if v.tombstone {
                    return None;
                }
                return Some(slice_to_vec(v.doc.as_slice()));
            }
            i = i - 1;
        }
        assert(all.take(0) =~= Seq::<VersionModel>::empty());
        None
    }

    /// Whether the store holds a document for a key.
    pub fn contains(&self, collection: &[u8], pk: &[u8]) -> (r: bool)
        ensures
            r == lookup(self@.versions, KeyModel { collection: collection@, pk: pk@ }) is Some,
    {
        self.get(collection, pk).is_some()
    }

    /// The LSN of the last record applied; 0 when none was.
    pub fn last_lsn_applied(&self) -> (r: u64)
        ensures
            r == self@.last_lsn,
    {
        self.last_lsn_applied
    }

    /// The LSN of the last checkpoint recorded; 0 when none was.
    pub fn checkpoint_lsn(&self) -> (r: u64)
        ensures
            r == self@.checkpoint_lsn,
    {
        self.checkpoint_lsn
    }

    fn is_last(&self, i: usize) -> (r: bool)
        requires
            i < self.versions@.len(),
        ensures
            r == is_last_of_key(self@.versions, i as int),
    {
        let ghost all = version_models(self.versions@);
        let n = self.versions.len();
        let mut j: usize = i + 1;
        while j < self.versions.len()
            invariant
                i < j <= self.versions@.len(),
                all == version_models(self.versions@),
                forall|k: int| i < k < j ==> (#[trigger] all[k]).key != all[i as int].key,
            decreases self.versions@.len() - j,
        {
            let a = &self.versions[i];
            let b = &self.versions[j];
            if same_bytes(a.collection.as_slice(), b.collection.as_slice()) && same_bytes(
                a.pk.as_slice(),
                b.pk.as_slice(),
            ) {
                proof {
                    assert(all[j as int] == b@);
                    assert(all[i as int] == a@);
                    assert(all[j as int].key == all[i as int].key);
                }
                return false;
            }
            proof {
                assert(all[j as int] == b@);
                assert(all[i as int] == a@);
                assert(all[j as int].key != all[i as int].key) by {
                    if all[j as int].key == all[i as int].key {
                        assert(a.collection@ == b.collection@);
                        assert(a.pk@ == b.pk@);
                    }
                }
            }
            j = j + 1;
        }
        true
    }

    /// The documents of a collection: for each key of the collection that
    /// has a document, its last version, in the order in which these
    /// versions were applied. Each key occurs once.
    pub fn scan(&self, collection: &[u8]) -> (r: Vec<DocumentVersion>)
        ensures
            forall|i: int|
                0 <= i < r@.len() ==> (#[trigger] r@[i])@.key.collection == collection@
                    && !r@[i].tombstone && lookup(self@.versions, r@[i]@.key) == Some(r@[i]@.doc),
            forall|i: int, j: int| 0 <= i < j < r@.len() ==> r@[i]@.key != r@[j]@.key,
            forall|pk: Seq<u8>|
                lookup(self@.versions, KeyModel { collection: collection@, pk }) is Some
                    ==> exists|i: int|
                    0 <= i < r@.len() && (#[trigger] r@[i])@.key == (KeyModel {
                        collection: collection@,
                        pk,
                    }),
            version_models(r@) == scan_model(self@.versions, collection@),
    {
        let ghost all = version_models(self.versions@);
        let ghost mut taken: Seq<int> = Seq::empty();
        let mut out: Vec<DocumentVersion> = Vec::new();
        let mut i: usize = 0;
        while i < self.versions.len()
            invariant
                i <= self.versions@.len(),
                all == version_models(self.versions@),
                all == self@.versions,
                taken.len() == out@.len(),
                taken == live_positions(all, collection@, i as int),
                forall|k: int|
                    0 <= k < out@.len() ==> 0 <= #[trigger] taken[k] < i && out@[k]@
                        == all[taken[k]] && is_live(all, taken[k]) && all[taken[k]].key.collection
                        == collection@,
                forall|a: int, b: int| 0 <= a < b < taken.len() ==> taken[a] < taken[b],
                forall|m: int|
                    0 <= m < i && is_live(all, m) && (#[trigger] all[m]).key.collection
                        == collection@ ==> exists|k: int| 0 <= k < taken.len() && taken[k] == m,
            decreases self.versions@.len() - i,
        {
            let v = &self.versions[i];
            assert(all[i as int] == v@);
            let in_collection = same_bytes(v.collection.as_slice(), collection);
            if in_collection && !v.tombstone && self.is_last(i) {
                let ghost before = out@;
                let ghost taken_before = taken;
                out.push(copy_version(v));
                proof {
                    taken = taken.push(i as int);
                    assert forall|k: int| 0 <= k < out@.len() implies 0 <= #[trigger] taken[k] < i
                        + 1 && out@[k]@ == all[taken[k]] && is_live(all, taken[k])
                        && all[taken[k]].key.collection == collection@ by {
                        if k < before.len() {
                            assert(out@[k] == before[k]);
                            assert(taken[k] == taken_before[k]);
                        }
                    }
                    assert forall|m: int|
                        0 <= m < i + 1 && is_live(all, m) && (#[trigger] all[m]).key.collection
                            == collection@ implies exists|k: int|
                        0 <= k < taken.len() && taken[k] == m by {
                        if m < i {
                            let k = choose|k: int| 0 <= k < taken_before.len() && taken_before[k] == m;
                            assert(taken[k] == m);
                        } else {
                            assert(taken[taken.len() - 1] == m);
                        }
                    }
                }
            }
            i = i + 1;
        }
        proof {
            assert forall|k: int| 0 <= k < out@.len() implies (#[trigger] out@[k])@.key.collection
                == collection@ && !out@[k].tombstone && lookup(self@.versions, out@[k]@.key)
                == Some(out@[k]@.doc) by {
                let at = taken[k];
                lemma_lookup_is_last_version(all, at);
            }
            assert forall|a: int, b: int| 0 <= a < b < out@.len() implies out@[a]@.key
                != out@[b]@.key by {
                assert(taken[a] < taken[b]);
                assert(is_last_of_key(all, taken[a]));
            }
            assert forall|pk: Seq<u8>|
                lookup(self@.versions, KeyModel { collection: collection@, pk }) is Some implies exists|
                i: int,
            |
                0 <= i < out@.len() && (#[trigger] out@[i])@.key == (KeyModel {
                    collection: collection@,
                    pk,
                }) by {
                let key = KeyModel { collection: collection@, pk };
                lemma_document_has_live_version(all, key);
                let m = choose|m: int| is_live(all, m) && #[trigger] all[m].key == key;
                let k = choose|k: int| 0 <= k < taken.len() && taken[k] == m;
                assert(out@[k]@.key == key);
            }
            assert(version_models(out@) =~= scan_model(self@.versions, collection@));
        }
        out
    }

    /// The page that holds the store.
    pub fn to_page(&self, page_id: u64) -> (r: Page)
        ensures
            r@ == page_of(self@, page_id),
    {
        Page {
            page_id,
            last_lsn_applied: self.last_lsn_applied,
            checkpoint_lsn: self.checkpoint_lsn,
            versions: copy_versions(&self.versions),
        }
    }

    /// The store that a page holds.
    pub fn from_page(page: &Page) -> (r: Self)
        ensures
            r@ == store_of(page@),
    {
        PageStore {
            versions: copy_versions(&page.versions),
            last_lsn_applied: page.last_lsn_applied,
            checkpoint_lsn: page.checkpoint_lsn,
        }
    }

    /// A snapshot of the store: a copy that reflects the state after the last
    /// LSN applied and no later record.
    pub fn snapshot(&self) -> (r: StoreSnapshot)
        ensures
            r@ == snapshot_model(self@),
    {
        StoreSnapshot {
            versions: copy_versions(&self.versions),
            wal_cut_lsn: self.last_lsn_applied,
            checkpoint_lsn: self.checkpoint_lsn,
        }
    }

    /// The store that a snapshot holds: equal to the store that the snapshot
    /// was taken of.
    pub fn restore(snapshot: &StoreSnapshot) -> (r: Self)
        ensures
            r@ == restored_model(snapshot@),
    {
        PageStore {
            versions: copy_versions(&snapshot.versions),
            last_lsn_applied: snapshot.wal_cut_lsn,
            checkpoint_lsn: snapshot.checkpoint_lsn,
        }
    }
}

} // verus!
