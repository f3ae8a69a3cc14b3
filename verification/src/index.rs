//! Secondary indexes: for a field of a collection, the documents by the
//! field's value.
//!
//! Indexes are held in memory and are never the source of truth: they are
//! rebuilt from the store after the log has been replayed. An index is
//! consistent with a store when every entry resolves to a document whose
//! field has the entry's value, and every document whose field has a value
//! is entered, once.

use vstd::prelude::*;
use vstd::slice::*;
use vstd::string::*;
use crate::document::{field_text, json_field};
use crate::storage::{
    copy_version,
    lookup,
    scan_model,
    version_models,
    DocumentVersion,
    PageStore,
    VersionModel,
};
use crate::text::same_text;
use crate::wal::payload::KeyModel;

verus! {

/// The value that a key is indexed under: the value of the field in the
/// key's document, if the key has a document and the document the field.
pub open spec fn indexed_value(
    versions: Seq<VersionModel>,
    collection: Seq<u8>,
    field: Seq<u8>,
    pk: Seq<u8>,
) -> Option<Seq<char>> {
    match lookup(versions, KeyModel { collection, pk }) {
        Some(doc) => field_text(doc, field),
        None => None,
    }
}

/// The versions among `versions` whose document has the value given for a
/// field, in order.
pub open spec fn with_value(versions: Seq<VersionModel>, field: Seq<u8>, value: Seq<char>) -> Seq<
    VersionModel,
> {
    versions.filter(|v: VersionModel| field_text(v.doc, field) == Some(value))
}

/// The documents of a collection whose field has the value given, as JSON
/// writes it: the scan of the collection with this filter. Each key occurs
/// once, in the order of the scan.
pub fn scan_where(store: &PageStore, collection: &[u8], field: &[u8], value: &str) -> (r: Vec<
    DocumentVersion,
>)
    ensures
        forall|i: int|
            0 <= i < r@.len() ==> {
                &&& (#[trigger] r@[i])@.key.collection == collection@
                &&& !r@[i].tombstone
                &&& lookup(store@.versions, r@[i]@.key) == Some(r@[i]@.doc)
                &&& field_text(r@[i]@.doc, field@) == Some(value@)
            },
        forall|i: int, j: int| 0 <= i < j < r@.len() ==> r@[i]@.key != r@[j]@.key,
        forall|pk: Seq<u8>|
            indexed_value(store@.versions, collection@, field@, pk) == Some(value@) ==> exists|
                i: int,
            |
                0 <= i < r@.len() && (#[trigger] r@[i])@.key == (KeyModel {
                    collection: collection@,
                    pk,
                }),
        version_models(r@) == with_value(scan_model(store@.versions, collection@), field@, value@),
{
    let all = store.scan(collection);
    let ghost scanned = version_models(all@);
    let ghost mut taken: Seq<int> = Seq::empty();
    let mut out: Vec<DocumentVersion> = Vec::new();
    let mut i: usize = 0;
    proof {
        assert(scanned.take(0) =~= Seq::<VersionModel>::empty());
        reveal(Seq::filter);
        assert(version_models(out@) =~= Seq::<VersionModel>::empty());
    }
    while i < all.len()
        invariant
            i <= all@.len(),
            scanned == version_models(all@),
            version_models(out@) == with_value(scanned.take(i as int), field@, value@),
            forall|m: int|
                0 <= m < all@.len() ==> (#[trigger] all@[m])@.key.collection == collection@
                    && !all@[m].tombstone && lookup(store@.versions, all@[m]@.key) == Some(
                    all@[m]@.doc,
                ),
            forall|a: int, b: int| 0 <= a < b < all@.len() ==> all@[a]@.key != all@[b]@.key,
            taken.len() == out@.len(),
            forall|k: int|
                0 <= k < out@.len() ==> 0 <= #[trigger] taken[k] < i && out@[k]@
                    == all@[taken[k]]@ && field_text(all@[taken[k]]@.doc, field@) == Some(value@),
            forall|a: int, b: int| 0 <= a < b < taken.len() ==> taken[a] < taken[b],
            forall|m: int|
                0 <= m < i && field_text((#[trigger] all@[m])@.doc, field@) == Some(value@)
                    ==> exists|k: int| 0 <= k < taken.len() && taken[k] == m,
        decreases all@.len() - i,
    {
        let found = match json_field(all[i].doc.as_slice(), field) {
            Some(text) => same_text(text.as_str(), value),
            None => false,
        };
        proof {
            let next = scanned.take(i + 1);
            assert(next.drop_last() =~= scanned.take(i as int));
            assert(next.last() == all@[i as int]@);
            reveal(Seq::filter);
        }
        if found {
            let ghost before = out@;
            let ghost taken_before = taken;
            out.push(copy_version(&all[i]));
            proof {
                assert(version_models(out@) =~= version_models(before).push(all@[i as int]@));
                taken = taken.push(i as int);
                assert forall|k: int| 0 <= k < out@.len() implies 0 <= #[trigger] taken[k] < i + 1
                    && out@[k]@ == all@[taken[k]]@ && field_text(all@[taken[k]]@.doc, field@)
                    == Some(value@) by {
                    if k < before.len() {
                        assert(out@[k] == before[k]);
                        assert(taken[k] == taken_before[k]);
                    }
                }
                assert forall|m: int|
                    0 <= m < i + 1 && field_text((#[trigger] all@[m])@.doc, field@) == Some(
                        value@,
                    ) implies exists|k: int| 0 <= k < taken.len() && taken[k] == m by {
                    if m < i {
                        let k = choose|k: int| 0 <= k < taken_before.len() && taken_before[k] == m;
                        assert(taken[k] == m);
                    } else {
                        assert(taken[taken.len() - 1] == m);
                    }
                }
            }
        }
        i = i + 1;
    }
    proof {
        assert forall|i: int| 0 <= i < out@.len() implies {
            &&& (#[trigger] out@[i])@.key.collection == collection@
            &&& !out@[i].tombstone
            &&& lookup(store@.versions, out@[i]@.key) == Some(out@[i]@.doc)
            &&& field_text(out@[i]@.doc, field@) == Some(value@)
        } by {
            assert(out@[i]@ == all@[taken[i]]@);
            assert(!all@[taken[i]].tombstone);
        }
        assert forall|a: int, b: int| 0 <= a < b < out@.len() implies out@[a]@.key != out@[b]@.key by {
            assert(taken[a] < taken[b]);
            assert(out@[a]@ == all@[taken[a]]@);
            assert(out@[b]@ == all@[taken[b]]@);
        }
        assert forall|pk: Seq<u8>|
            indexed_value(store@.versions, collection@, field@, pk) == Some(
                value@,
            ) implies exists|i: int|
            0 <= i < out@.len() && (#[trigger] out@[i])@.key == (KeyModel {
                collection: collection@,
                pk,
            }) by {
            let key = KeyModel { collection: collection@, pk };
            assert(lookup(store@.versions, key) is Some);
            let m = choose|m: int| 0 <= m < all@.len() && (#[trigger] all@[m])@.key == key;
            assert(lookup(store@.versions, all@[m]@.key) == Some(all@[m]@.doc));
            let k = choose|k: int| 0 <= k < taken.len() && taken[k] == m;
            assert(out@[k]@.key == key);
        }
        assert(scanned.take(all@.len() as int) =~= scanned);
    }
    out
}

/// An entry of an index: a primary key under the value of its field.
#[derive(Debug, Clone, PartialEq, Eq)]
pub struct IndexEntry {
    pub value: String,
    pub pk: Vec<u8>,
}

/// An entry as a mathematical value.
pub struct EntryModel {
    pub value: Seq<char>,
    pub pk: Seq<u8>,
}

impl View for IndexEntry {
    type V = EntryModel;

    open spec fn view(&self) -> EntryModel {
        EntryModel { value: self.value@, pk: self.pk@ }
    }
}

/// The entries as mathematical values.
pub open spec fn entry_models(entries: Seq<IndexEntry>) -> Seq<EntryModel> {
    entries.map_values(|e: IndexEntry| e@)
}

/// Whether a primary key is entered.
pub open spec fn has_pk(entries: Seq<EntryModel>, pk: Seq<u8>) -> bool {
    exists|i: int| 0 <= i < entries.len() && (#[trigger] entries[i]).pk == pk
}

/// Whether the entries are consistent with the versions of a store, for a
/// field of a collection: every entry resolves to a document whose field
/// has the entry's value; every key whose document has a value for the
/// field is entered; and no key is entered twice.
pub open spec fn is_consistent(
    entries: Seq<EntryModel>,
    versions: Seq<VersionModel>,
    collection: Seq<u8>,
    field: Seq<u8>,
) -> bool {
    &&& forall|i: int|
        0 <= i < entries.len() ==> indexed_value(
            versions,
            collection,
            field,
            (#[trigger] entries[i]).pk,
        ) == Some(entries[i].value)
    &&& forall|pk: Seq<u8>| #[trigger]
        indexed_value(versions, collection, field, pk) is Some ==> has_pk(entries, pk)
    &&& forall|i: int, j: int| 0 <= i < j < entries.len() ==> entries[i].pk != entries[j].pk
}

/// The entries that versions give for a field: for each version whose
/// document has a value for the field, in order, its primary key under the
/// value.
pub open spec fn entries_of(versions: Seq<VersionModel>, field: Seq<u8>) -> Seq<EntryModel>
    decreases versions.len(),
{
    if versions.len() == 0 {
        Seq::<EntryModel>::empty()
    } else {
        let before = entries_of(versions.drop_last(), field);
        match field_text(versions.last().doc, field) {
            Some(value) => before.push(EntryModel { value, pk: versions.last().key.pk }),
            None => before,
        }
    }
}

/// The entries of an index on a field of a collection over the versions of
/// a store: those that the documents of the collection give, in the order
/// of its scan.
pub open spec fn index_of(versions: Seq<VersionModel>, collection: Seq<u8>, field: Seq<u8>) -> Seq<
    EntryModel,
> {
    entries_of(scan_model(versions, collection), field)
}

/// The primary keys entered under a value, in the order of the entries.
pub open spec fn pks_under(entries: Seq<EntryModel>, value: Seq<char>) -> Seq<Seq<u8>>
    decreases entries.len(),
{
    if entries.len() == 0 {
        Seq::<Seq<u8>>::empty()
    } else if entries.last().value == value {
        pks_under(entries.drop_last(), value).push(entries.last().pk)
    } else {
        pks_under(entries.drop_last(), value)
    }
}

/// The byte strings as mathematical values.
pub open spec fn byte_seqs(keys: Seq<Vec<u8>>) -> Seq<Seq<u8>> {
    keys.map_values(|k: Vec<u8>| k@)
}

fn same_bytes(a: &[u8], b: &[u8]) -> (r: bool)
    ensures
        r == (a@ == b@),
{
    if a.len() != b.len() {
        return false;
    }
    let mut i: usize = 0;
    while i < a.len()
        invariant
            i <= a@.len(),
            a@.len() == b@.len(),
            forall|k: int| 0 <= k < i ==> a@[k] == b@[k],
        decreases a@.len() - i,
    {
        if a[i] != b[i] {
            return false;
        }
        i = i + 1;
    }
    assert(a@ =~= b@);
    true
}

/// An index on a field of a collection.
#[derive(Debug, Clone, PartialEq, Eq)]
pub struct Index {
    collection: Vec<u8>,
    field: Vec<u8>,
    entries: Vec<IndexEntry>,
}

impl Index {
    /// The collection of the index.
    pub closed spec fn of_collection(&self) -> Seq<u8> {
        self.collection@
    }

    /// The field of the index.
    pub closed spec fn of_field(&self) -> Seq<u8> {
        self.field@
    }

    /// The entries of the index.
    pub closed spec fn listed(&self) -> Seq<EntryModel> {
        entry_models(self.entries@)
    }

    /// Whether the index is consistent with the versions of a store.
    pub open spec fn consistent_with(&self, versions: Seq<VersionModel>) -> bool {
        is_consistent(self.listed(), versions, self.of_collection(), self.of_field())
    }

    /// Whether the index holds the entries that the versions of a store
    /// give.
    pub open spec fn is_rebuilt_from(&self, versions: Seq<VersionModel>) -> bool {
        self.listed() == index_of(versions, self.of_collection(), self.of_field())
    }

    /// An empty index on a field of a collection.
    pub fn new(collection: &[u8], field: &[u8]) -> (r: Self)
        ensures
            r.of_collection() == collection@,
            r.of_field() == field@,
            r.listed() == Seq::<EntryModel>::empty(),
    {
        let r = Index { collection: slice_to_vec(collection), field: slice_to_vec(field), entries: Vec::new() };
        assert(entry_models(r.entries@) =~= Seq::<EntryModel>::empty());
        r
    }

    /// The number of entries.
    pub fn len(&self) -> (r: usize)
        ensures
            r == self.listed().len(),
    {
        self.entries.len()
    }

    /// Rebuilds the index from a store: afterwards it holds the entries
    /// that the store's documents give, whatever it held before, and is
    /// consistent with the store.
    pub fn rebuild(&mut self, store: &PageStore)
        ensures
            final(self).of_collection() == old(self).of_collection(),
            final(self).of_field() == old(self).of_field(),
            final(self).listed() == index_of(
                store@.versions,
                old(self).of_collection(),
                old(self).of_field(),
            ),
            final(self).consistent_with(store@.versions),
    {
        let docs = store.scan(self.collection.as_slice());
        let ghost versions = store@.versions;
        let ghost collection = self.collection@;
        let ghost field = self.field@;
        let ghost scanned = version_models(docs@);
        let ghost mut from: Seq<int> = Seq::empty();
        let mut entries: Vec<IndexEntry> = Vec::new();
        let mut i: usize = 0;
        proof {
            assert(scanned.take(0) =~= Seq::<VersionModel>::empty());
            assert(entry_models(entries@) =~= Seq::<EntryModel>::empty());
        }
        while i < docs.len()
            invariant
                i <= docs@.len(),
                self.collection@ == collection,
                self.field@ == field,
                scanned == version_models(docs@),
                entry_models(entries@) == entries_of(scanned.take(i as int), field),
                from.len() == entries@.len(),
                forall|k: int|
                    0 <= k < entries@.len() ==> 0 <= #[trigger] from[k] < i && entries@[k].pk@
                        == docs@[from[k]]@.key.pk && field_text(docs@[from[k]]@.doc, field)
                        == Some(entries@[k].value@),
                forall|a: int, b: int| 0 <= a < b < from.len() ==> from[a] < from[b],
                forall|m: int|
                    0 <= m < i && field_text((#[trigger] docs@[m])@.doc, field) is Some
                        ==> exists|k: int| 0 <= k < from.len() && from[k] == m,
            decreases docs@.len() - i,
        {
            let doc = &docs[i];
            proof {
                let next = scanned.take(i + 1);
                assert(next.drop_last() =~= scanned.take(i as int));
                assert(next.last() == docs@[i as int]@);
            }
            match json_field(doc.doc.as_slice(), self.field.as_slice()) {
                Some(value) => {
                    let ghost before = entries@;
                    let ghost from_before = from;
                    entries.push(IndexEntry { value, pk: slice_to_vec(doc.pk.as_slice()) });
                    proof {
                        assert(entry_models(entries@) =~= entry_models(before).push(
                            EntryModel { value: value@, pk: doc.pk@ },
                        ));
                        from = from.push(i as int);
                        assert forall|k: int| 0 <= k < entries@.len() implies 0 <= #[trigger] from[k]
                            < i + 1 && entries@[k].pk@ == docs@[from[k]]@.key.pk && field_text(
                            docs@[from[k]]@.doc,
                            field,
                        ) == Some(entries@[k].value@) by {
                            if k < before.len() {
                                assert(entries@[k] == before[k]);
                                assert(from[k] == from_before[k]);
                            }
                        }
                        assert forall|m: int|
                            0 <= m < i + 1 && field_text((#[trigger] docs@[m])@.doc, field)
                                is Some implies exists|k: int|
                            0 <= k < from.len() && from[k] == m by {
                            if m < i {
                                let k = choose|k: int|
                                    0 <= k < from_before.len() && from_before[k] == m;
                                assert(from[k] == m);
                            } else {
                                assert(from[from.len() - 1] == m);
                            }
                        }
                    }
                },
                None => {},
            }
            i = i + 1;
        }
        proof {
            assert(scanned.take(docs@.len() as int) =~= scanned);
            let listed = entry_models(entries@);
            assert forall|k: int| 0 <= k < listed.len() implies indexed_value(
                versions,
                collection,
                field,
                (#[trigger] listed[k]).pk,
            ) == Some(listed[k].value) by {
                let m = from[k];
                assert(listed[k] == entries@[k]@);
                assert(docs@[m]@.key.collection == collection);
                assert(docs@[m]@.key == (KeyModel { collection, pk: listed[k].pk }));
                assert(lookup(versions, docs@[m]@.key) == Some(docs@[m]@.doc));
            }
            assert forall|pk: Seq<u8>| #[trigger]
                indexed_value(versions, collection, field, pk) is Some implies has_pk(
                listed,
                pk,
            ) by {
                let key = KeyModel { collection, pk };
                assert(lookup(versions, key) is Some);
                let m = choose|m: int| 0 <= m < docs@.len() && (#[trigger] docs@[m])@.key == key;
                assert(lookup(versions, docs@[m]@.key) == Some(docs@[m]@.doc));
                assert(field_text(docs@[m]@.doc, field) is Some);
                let k = choose|k: int| 0 <= k < from.len() && from[k] == m;
                assert(listed[k] == entries@[k]@);
                assert(listed[k].pk == pk);
            }
            assert forall|a: int, b: int| 0 <= a < b < listed.len() implies listed[a].pk
                != listed[b].pk by {
                assert(listed[a] == entries@[a]@);
                assert(listed[b] == entries@[b]@);
                assert(from[a] < from[b]);
                assert(docs@[from[a]]@.key != docs@[from[b]]@.key);
                assert(docs@[from[a]]@.key.collection == collection);
                assert(docs@[from[b]]@.key.collection == collection);
            }
        }
        self.entries = entries;
    }

    /// The primary keys of the documents whose field has the value given,
    /// in the order of the entries.
    pub fn find(&self, value: &str) -> (r: Vec<Vec<u8>>)
        ensures
            byte_seqs(r@) == pks_under(self.listed(), value@),
    {
        let ghost listed = entry_models(self.entries@);
        let mut out: Vec<Vec<u8>> = Vec::new();
        let mut i: usize = 0;
        proof {
            assert(listed.take(0) =~= Seq::<EntryModel>::empty());
            assert(byte_seqs(out@) =~= Seq::<Seq<u8>>::empty());
        }
        while i < self.entries.len()
            invariant
                i <= self.entries@.len(),
                listed == entry_models(self.entries@),
                byte_seqs(out@) == pks_under(listed.take(i as int), value@),
            decreases self.entries@.len() - i,
        {
            proof {
                let next = listed.take(i + 1);
                assert(next.drop_last() =~= listed.take(i as int));
                assert(next.last() == self.entries@[i as int]@);
            }
            if same_text(self.entries[i].value.as_str(), value) {
                let ghost before = out@;
                out.push(slice_to_vec(self.entries[i].pk.as_slice()));
                assert(byte_seqs(out@) =~= byte_seqs(before).push(self.entries@[i as int].pk@));
            }
            i = i + 1;
        }
        assert(listed.take(self.entries@.len() as int) =~= listed);
        out
    }
}

impl Index {
    fn entries_resolve(&self, store: &PageStore) -> (r: bool)
        ensures
            r == (forall|i: int|
                0 <= i < self.listed().len() ==> indexed_value(
                    store@.versions,
                    self.of_collection(),
                    self.of_field(),
                    (#[trigger] self.listed()[i]).pk,
                ) == Some(self.listed()[i].value)),
    {
        let ghost listed = entry_models(self.entries@);
        let ghost versions = store@.versions;
        let mut i: usize = 0;
        while i < self.entries.len()
            invariant
                i <= self.entries@.len(),
                listed == entry_models(self.entries@),
                versions == store@.versions,
                forall|k: int|
                    0 <= k < i ==> indexed_value(
                        versions,
                        self.collection@,
                        self.field@,
                        (#[trigger] listed[k]).pk,
                    ) == Some(listed[k].value),
            decreases self.entries@.len() - i,
        {
            let entry = &self.entries[i];
            assert(listed[i as int] == entry@);
            let resolves = match store.get(self.collection.as_slice(), entry.pk.as_slice()) {
                Some(doc) => match json_field(doc.as_slice(), self.field.as_slice()) {
                    Some(value) => same_text(value.as_str(), entry.value.as_str()),
                    None => false,
                },
                None => false,
            };
            if !resolves {
                assert(indexed_value(versions, self.collection@, self.field@, listed[i as int].pk)
                    != Some(listed[i as int].value));
                return false;
            }
            i = i + 1;
        }
        true
    }

    fn pks_are_distinct(&self) -> (r: bool)
        ensures
            r == (forall|i: int, j: int|
                0 <= i < j < self.listed().len() ==> self.listed()[i].pk != self.listed()[j].pk),
    {
        let ghost listed = entry_models(self.entries@);
        let mut j: usize = 0;
        while j < self.entries.len()
            invariant
                j <= self.entries@.len(),
                listed == entry_models(self.entries@),
                forall|a: int, b: int| 0 <= a < b < j ==> listed[a].pk != listed[b].pk,
            decreases self.entries@.len() - j,
        {
            let mut i: usize = 0;
            while i < j
                invariant
                    i <= j < self.entries@.len(),
                    listed == entry_models(self.entries@),
                    forall|a: int| 0 <= a < i ==> (#[trigger] listed[a]).pk != listed[j as int].pk,
                decreases j - i,
            {
                assert(listed[i as int] == self.entries@[i as int]@);
                assert(listed[j as int] == self.entries@[j as int]@);
                if same_bytes(self.entries[i].pk.as_slice(), self.entries[j].pk.as_slice()) {
                    assert(self.listed()[i as int].pk == self.listed()[j as int].pk);
                    return false;
                }
                i = i + 1;
            }
            assert forall|a: int, b: int| 0 <= a < b < j + 1 implies listed[a].pk
                != listed[b].pk by {
                if b == j {
                    assert(listed[a].pk != listed[j as int].pk);
                }
            }
            j = j + 1;
        }
        true
    }

    fn holds_pk(&self, pk: &[u8]) -> (r: bool)
        ensures
            r == has_pk(self.listed(), pk@),
    {
        let ghost listed = entry_models(self.entries@);
        let mut i: usize = 0;
        while i < self.entries.len()
            invariant
                i <= self.entries@.len(),
                listed == entry_models(self.entries@),
                forall|k: int| 0 <= k < i ==> (#[trigger] listed[k]).pk != pk@,
            decreases self.entries@.len() - i,
        {
            assert(listed[i as int] == self.entries@[i as int]@);
            if same_bytes(self.entries[i].pk.as_slice(), pk) {
                return true;
            }
            i = i + 1;
        }
        false
    }

    fn documents_are_entered(&self, store: &PageStore) -> (r: bool)
        ensures
            r == (forall|pk: Seq<u8>| #[trigger]
                indexed_value(store@.versions, self.of_collection(), self.of_field(), pk) is Some
                    ==> has_pk(self.listed(), pk)),
    {
        let docs = store.scan(self.collection.as_slice());
        let ghost versions = store@.versions;
        let ghost collection = self.collection@;
        let ghost field = self.field@;
        let mut i: usize = 0;
        while i < docs.len()
            invariant
                i <= docs@.len(),
                versions == store@.versions,
                collection == self.collection@,
                field == self.field@,
                forall|m: int|
                    0 <= m < docs@.len() ==> (#[trigger] docs@[m])@.key.collection == collection
                        && lookup(versions, docs@[m]@.key) == Some(docs@[m]@.doc),
                forall|pk: Seq<u8>|
                    lookup(versions, KeyModel { collection, pk }) is Some ==> exists|m: int|
                        0 <= m < docs@.len() && (#[trigger] docs@[m])@.key == (KeyModel {
                            collection,
                            pk,
                        }),
                forall|m: int|
                    0 <= m < i && field_text((#[trigger] docs@[m])@.doc, field) is Some
                        ==> has_pk(self.listed(), docs@[m]@.key.pk),
            decreases docs@.len() - i,
        {
            let doc = &docs[i];
            if json_field(doc.doc.as_slice(), self.field.as_slice()).is_some() && !self.holds_pk(
                doc.pk.as_slice(),
            ) {
                proof {
                    let pk = doc@.key.pk;
                    assert(doc@.key.collection == collection);
                    assert(doc@.key == (KeyModel { collection, pk }));
                    assert(lookup(versions, doc@.key) == Some(doc@.doc));
                    assert(indexed_value(versions, collection, field, pk) is Some);
                    assert(!has_pk(self.listed(), pk));
                }
                return false;
            }
            i = i + 1;
        }
        proof {
            assert forall|pk: Seq<u8>| #[trigger]
                indexed_value(versions, collection, field, pk) is Some implies has_pk(
                self.listed(),
                pk,
            ) by {
                let key = KeyModel { collection, pk };
                assert(lookup(versions, key) is Some);
                let m = choose|m: int| 0 <= m < docs@.len() && (#[trigger] docs@[m])@.key == key;
                assert(lookup(versions, docs@[m]@.key) == Some(docs@[m]@.doc));
            }
        }
        true
    }

    /// Checks the index against a store: whether it is consistent with it.
    pub fn check(&self, store: &PageStore) -> (r: bool)
        ensures
            r == self.consistent_with(store@.versions),
    {
        self.entries_resolve(store) && self.documents_are_entered(store) && self.pks_are_distinct()
    }
}

/// The indexes of a database.
#[derive(Debug, Clone, PartialEq, Eq)]
pub struct IndexManager {
    indexes: Vec<Index>,
}

impl IndexManager {
    /// The indexes.
    pub closed spec fn all(&self) -> Seq<Index> {
        self.indexes@
    }

    /// Whether every index is consistent with the versions of a store.
    pub open spec fn consistent_with(&self, versions: Seq<VersionModel>) -> bool {
        forall|i: int| 0 <= i < self.all().len() ==> (#[trigger] self.all()[i]).consistent_with(
            versions,
        )
    }

    /// Whether every index holds the entries that the versions of a store
    /// give.
    pub open spec fn rebuilt_from(&self, versions: Seq<VersionModel>) -> bool {
        forall|i: int| 0 <= i < self.all().len() ==> (#[trigger] self.all()[i]).is_rebuilt_from(
            versions,
        )
    }

    /// Whether the indexes are on the same collections and fields as
    /// those of `other`.
    pub open spec fn same_definitions(&self, other: &Self) -> bool {
        &&& self.all().len() == other.all().len()
        &&& forall|i: int|
            0 <= i < self.all().len() ==> (#[trigger] self.all()[i]).of_collection()
                == other.all()[i].of_collection() && self.all()[i].of_field()
                == other.all()[i].of_field()
    }

    /// A manager without indexes.
    pub fn new() -> (r: Self)
        ensures
            r.all() == Seq::<Index>::empty(),
    {
        IndexManager { indexes: Vec::new() }
    }

    /// Adds an empty index on a field of a collection.
    pub fn add_index(&mut self, collection: &[u8], field: &[u8])
        ensures
            final(self).all().len() == old(self).all().len() + 1,
            final(self).all().drop_last() == old(self).all(),
            final(self).all().last().of_collection() == collection@,
            final(self).all().last().of_field() == field@,
            final(self).all().last().listed() == Seq::<EntryModel>::empty(),
    {
        let ghost before = self.indexes@;
        self.indexes.push(Index::new(collection, field));
        assert(self.indexes@.drop_last() =~= before);
    }

    /// The number of indexes.
    pub fn len(&self) -> (r: usize)
        ensures
            r == self.all().len(),
    {
        self.indexes.len()
    }

    /// The index at a position.
    pub fn index(&self, at: usize) -> (r: Option<&Index>)
        ensures
            at < self.all().len() ==> r is Some && *r->Some_0 == self.all()[at as int],
            at >= self.all().len() ==> r is None,
    {
        if at < self.indexes.len() {
            Some(&self.indexes[at])
        } else {
            None
        }
    }

    /// Rebuilds every index from a store and gives the number of indexes
    /// rebuilt. Afterwards every index is consistent with the store.
    pub fn rebuild(&mut self, store: &PageStore) -> (r: usize)
        ensures
            r == old(self).all().len(),
            final(self).same_definitions(old(self)),
            final(self).rebuilt_from(store@.versions),
            final(self).consistent_with(store@.versions),
    {
        let mut rebuilt: Vec<Index> = Vec::new();
        let mut i: usize = 0;
        while i < self.indexes.len()
            invariant
                i <= self.indexes@.len(),
                *self == *old(self),
                rebuilt@.len() == i,
                forall|k: int|
                    0 <= k < i ==> (#[trigger] rebuilt@[k]).consistent_with(store@.versions)
                        && rebuilt@[k].of_collection() == self.indexes@[k].of_collection()
                        && rebuilt@[k].of_field() == self.indexes@[k].of_field()
                        && rebuilt@[k].is_rebuilt_from(store@.versions),
            decreases self.indexes@.len() - i,
        {
            let mut index = Index::new(
                self.indexes[i].collection.as_slice(),
                self.indexes[i].field.as_slice(),
            );
            index.rebuild(store);
            let ghost before = rebuilt@;
            rebuilt.push(index);
            proof {
                assert forall|k: int| 0 <= k < i + 1 implies (#[trigger] rebuilt@[k]).consistent_with(
                    store@.versions,
                ) && rebuilt@[k].of_collection() == self.indexes@[k].of_collection()
                    && rebuilt@[k].of_field() == self.indexes@[k].of_field()
                    && rebuilt@[k].is_rebuilt_from(store@.versions) by {
                    if k < i {
                        assert(rebuilt@[k] == before[k]);
                    }
                }
            }
            i = i + 1;
        }
        let n = rebuilt.len();
        self.indexes = rebuilt;
        n
    }

    /// Checks every index against a store: the position of the first index
    /// that is not consistent with it, if there is one.
    pub fn check(&self, store: &PageStore) -> (r: Option<usize>)
        ensures
            match r {
                Some(at) => at < self.all().len() && !self.all()[at as int].consistent_with(
                    store@.versions,
                ) && forall|k: int|
                    0 <= k < at ==> (#[trigger] self.all()[k]).consistent_with(store@.versions),
                None => self.consistent_with(store@.versions),
            },
    {
        let mut i: usize = 0;
        while i < self.indexes.len()
            invariant
                i <= self.indexes@.len(),
                forall|k: int|
                    0 <= k < i ==> (#[trigger] self.indexes@[k]).consistent_with(store@.versions),
            decreases self.indexes@.len() - i,
        {
            if !self.indexes[i].check(store) {
                return Some(i);
            }
            i = i + 1;
        }
        None
    }
}

} // verus!
