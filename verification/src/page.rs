//! The page: the durable unit of the store, bit for bit.
//!
//! ```text
//! offset 0:   u32 magic, the bytes "AEPG"
//! offset 4:   u16 format version
//! offset 6:   u64 page id
//! offset 14:  u64 last LSN applied
//! offset 22:  u64 last checkpoint LSN
//! offset 30:  u32 number of entries
//! offset 34:  u32 length of the entries in bytes
//! offset 38:  u32 CRC-32C of the bytes [0 .. 38] and [42 ..]
//! offset 42:  entries
//! ```
//!
//! An entry is a document version: a flag byte that is 1 for a tombstone,
//! the version's LSN, the collection and the primary key, each after its
//! length, and the document after its length. Integers are little-endian.
//!
//! A page whose parts disagree is corrupt: reading it fails with an error
//! of its own, and nothing of the page is served.

use vstd::bytes::*;
use vstd::prelude::*;
use vstd::slice::*;
use crate::storage::{version_models, DocumentVersion, VersionModel};
use crate::wal::checksum::{compute_crc32c, crc32c};
use crate::wal::frame::append_bytes;
use crate::wal::payload::{
    decode_key,
    key_bytes,
    key_fits,
    lemma_parse_of_put,
    parse_key,
    put_payload,
    KeyModel,
};

verus! {

/// The first four bytes of a page.
pub const PAGE_MAGIC: u32 = 0x4750_4541;

/// The format version of the pages that this library writes.
pub const PAGE_FORMAT_VERSION: u16 = 1;

/// The bytes of a page before its entries.
pub const PAGE_HEADER_LEN: usize = 42;

/// The bytes of a page's header that the checksum covers.
pub const PAGE_CHECKED_HEADER_LEN: usize = 38;

/// The bytes of an entry before its key: the flag and the LSN.
pub const ENTRY_FIXED_LEN: usize = 9;

/// A page as a mathematical value.
pub struct PageModel {
    pub page_id: u64,
    pub last_lsn: u64,
    pub checkpoint_lsn: u64,
    pub versions: Seq<VersionModel>,
}

/// A page.
#[derive(Debug, Clone, PartialEq, Eq)]
pub struct Page {
    pub page_id: u64,
    pub last_lsn_applied: u64,
    pub checkpoint_lsn: u64,
    pub versions: Vec<DocumentVersion>,
}

impl View for Page {
    type V = PageModel;

    open spec fn view(&self) -> PageModel {
        PageModel {
            page_id: self.page_id,
            last_lsn: self.last_lsn_applied,
            checkpoint_lsn: self.checkpoint_lsn,
            versions: version_models(self.versions@),
        }
    }
}

/// Whether a version fits an entry: the lengths of its parts can be written
/// in 32 bits.
pub open spec fn entry_fits(v: VersionModel) -> bool {
    key_fits(v.key) && v.doc.len() <= u32::MAX
}

/// The flag byte of an entry.
pub open spec fn flag_byte(tombstone: bool) -> u8 {
    if tombstone {
        1
    } else {
        0
    }
}

/// The bytes of an entry.
pub open spec fn entry_bytes(v: VersionModel) -> Seq<u8> {
    seq![flag_byte(v.tombstone)] + spec_u64_to_le_bytes(v.lsn) + key_bytes(v.key)
        + spec_u32_to_le_bytes(v.doc.len() as u32) + v.doc
}

/// The entry at the start of `bytes` and the number of bytes it takes, if
/// an entry stands there.
pub open spec fn parse_entry(bytes: Seq<u8>) -> Option<(VersionModel, nat)> {
    if bytes.len() < 9 || bytes[0] > 1 {
        None
    } else {
        match parse_key(bytes.skip(9)) {
            None => None,
            Some((key, n)) => if bytes.len() < 13 + n {
                None
            } else {
                let d = spec_u32_from_le_bytes(bytes.subrange(9 + n as int, 13 + n as int)) as nat;
                if bytes.len() < 13 + n + d {
                    None
                } else {
                    Some(
                        (
                            VersionModel {
                                key,
                                doc: bytes.subrange(13 + n as int, 13 + n as int + d as int),
                                tombstone: bytes[0] == 1,
                                lsn: spec_u64_from_le_bytes(bytes.subrange(1, 9)),
                            },
                            13 + n + d,
                        ),
                    )
                }
            },
        }
    }
}

/// The bytes of some entries, one after the other.
pub open spec fn entries_bytes(versions: Seq<VersionModel>) -> Seq<u8>
    decreases versions.len(),
{
    if versions.len() == 0 {
        Seq::<u8>::empty()
    } else {
        entry_bytes(versions[0]) + entries_bytes(versions.drop_first())
    }
}

/// The `count` entries that `bytes` consists of, if it consists of so many
/// entries and nothing else.
pub open spec fn parse_entries(bytes: Seq<u8>, count: nat) -> Option<Seq<VersionModel>>
    decreases count,
{
    if count == 0 {
        if bytes.len() == 0 {
            Some(Seq::<VersionModel>::empty())
        } else {
            None
        }
    } else {
        match parse_entry(bytes) {
            None => None,
            Some((v, n)) => match parse_entries(bytes.skip(n as int), (count - 1) as nat) {
                None => None,
                Some(rest) => Some(seq![v] + rest),
            },
        }
    }
}

/// Reading an entry undoes writing it, whatever follows the entry.
pub proof fn lemma_parse_of_entry(v: VersionModel, rest: Seq<u8>)
    requires
        entry_fits(v),
    ensures
        parse_entry(entry_bytes(v) + rest) == Some((v, entry_bytes(v).len())),
{
    lemma_auto_spec_u32_to_from_le_bytes();
    lemma_auto_spec_u64_to_from_le_bytes();
    let b = entry_bytes(v) + rest;
    let doc_len = spec_u32_to_le_bytes(v.doc.len() as u32);
    let tail = doc_len + v.doc + rest;
    let k = key_bytes(v.key).len();
    assert(b[0] == flag_byte(v.tombstone));
    assert(b.subrange(1, 9) =~= spec_u64_to_le_bytes(v.lsn));
    assert(b.skip(9) =~= put_payload(v.key, tail));
    lemma_parse_of_put(v.key, tail);
    assert(parse_key(b.skip(9)) == Some((v.key, k)));
    assert(b.subrange(9 + k as int, 13 + k as int) =~= doc_len);
    assert(b.subrange(13 + k as int, 13 + k as int + v.doc.len() as int) =~= v.doc);
    assert(entry_bytes(v).len() == 13 + k + v.doc.len());
}

/// Reading entries undoes writing them.
pub proof fn lemma_parse_of_entries(versions: Seq<VersionModel>)
    requires
        forall|i: int| 0 <= i < versions.len() ==> entry_fits(#[trigger] versions[i]),
    ensures
        parse_entries(entries_bytes(versions), versions.len()) == Some(versions),
    decreases versions.len(),
{
    if versions.len() == 0 {
        assert(versions =~= Seq::<VersionModel>::empty());
    } else {
        let first = versions[0];
        let rest = versions.drop_first();
        let b = entries_bytes(versions);
        lemma_parse_of_entry(first, entries_bytes(rest));
        assert forall|i: int| 0 <= i < rest.len() implies entry_fits(#[trigger] rest[i]) by {
            assert(rest[i] == versions[i + 1]);
        }
        lemma_parse_of_entries(rest);
        assert(b.skip(entry_bytes(first).len() as int) =~= entries_bytes(rest));
        assert(seq![first] + rest =~= versions);
    }
}

/// The bytes of some entries grow by an entry's bytes when the entry is
/// added at the end.
pub proof fn lemma_entries_bytes_push(versions: Seq<VersionModel>, v: VersionModel)
    ensures
        entries_bytes(versions.push(v)) == entries_bytes(versions) + entry_bytes(v),
    decreases versions.len(),
{
    let all = versions.push(v);
    if versions.len() == 0 {
        assert(all.drop_first() =~= Seq::<VersionModel>::empty());
        assert(entries_bytes(all.drop_first()) =~= Seq::<u8>::empty());
        assert(entries_bytes(all) =~= entry_bytes(v));
        assert(entries_bytes(versions) + entry_bytes(v) =~= entry_bytes(v));
    } else {
        assert(all.drop_first() =~= versions.drop_first().push(v));
        lemma_entries_bytes_push(versions.drop_first(), v);
        assert(all[0] == versions[0]);
        assert(entries_bytes(all) =~= entries_bytes(versions) + entry_bytes(v));
    }
}

/// Whether a page can be written: every version fits an entry, and the
/// number and the length of the entries can be written in 32 bits.
pub open spec fn page_fits(p: PageModel) -> bool {
    &&& forall|i: int| 0 <= i < p.versions.len() ==> entry_fits(#[trigger] p.versions[i])
    &&& p.versions.len() <= u32::MAX
    &&& entries_bytes(p.versions).len() <= u32::MAX
}

/// The bytes of a page's header that the checksum covers.
pub open spec fn header_bytes(p: PageModel) -> Seq<u8> {
    spec_u32_to_le_bytes(PAGE_MAGIC) + spec_u16_to_le_bytes(PAGE_FORMAT_VERSION)
        + spec_u64_to_le_bytes(p.page_id) + spec_u64_to_le_bytes(p.last_lsn)
        + spec_u64_to_le_bytes(p.checkpoint_lsn) + spec_u32_to_le_bytes(p.versions.len() as u32)
        + spec_u32_to_le_bytes(entries_bytes(p.versions).len() as u32)
}

/// The bytes of a page.
pub open spec fn page_bytes(p: PageModel) -> Seq<u8> {
    header_bytes(p) + spec_u32_to_le_bytes(
        crc32c(header_bytes(p) + entries_bytes(p.versions)),
    ) + entries_bytes(p.versions)
}

/// The page that `bytes` holds, if they are a page whose parts agree: the
/// magic and the format version are right, the entries are as long as the
/// header says and as many, and the checksum is that of the header and the
/// entries.
pub open spec fn parse_page(bytes: Seq<u8>) -> Option<PageModel> {
    if bytes.len() < 42 {
        None
    } else {
        let body = bytes.skip(42);
        if spec_u32_from_le_bytes(bytes.subrange(0, 4)) != PAGE_MAGIC || spec_u16_from_le_bytes(
            bytes.subrange(4, 6),
        ) != PAGE_FORMAT_VERSION || spec_u32_from_le_bytes(bytes.subrange(34, 38)) != body.len()
            || spec_u32_from_le_bytes(bytes.subrange(38, 42)) != crc32c(
            bytes.subrange(0, 38) + body,
        ) {
            None
        } else {
            match parse_entries(body, spec_u32_from_le_bytes(bytes.subrange(30, 34)) as nat) {
                None => None,
                Some(versions) => Some(
                    PageModel {
                        page_id: spec_u64_from_le_bytes(bytes.subrange(6, 14)),
                        last_lsn: spec_u64_from_le_bytes(bytes.subrange(14, 22)),
                        checkpoint_lsn: spec_u64_from_le_bytes(bytes.subrange(22, 30)),
                        versions,
                    },
                ),
            }
        }
    }
}

/// Reading a page undoes writing it.
pub proof fn lemma_parse_of_page(p: PageModel)
    requires
        page_fits(p),
    ensures
        parse_page(page_bytes(p)) == Some(p),
{
    lemma_auto_spec_u16_to_from_le_bytes();
    lemma_auto_spec_u32_to_from_le_bytes();
    lemma_auto_spec_u64_to_from_le_bytes();
    let header = header_bytes(p);
    let body = entries_bytes(p.versions);
    let crc = spec_u32_to_le_bytes(crc32c(header + body));
    let b = page_bytes(p);
    assert(header.len() == 38);
    assert(b.len() == 42 + body.len());
    assert(b.subrange(0, 4) =~= spec_u32_to_le_bytes(PAGE_MAGIC));
    assert(b.subrange(4, 6) =~= spec_u16_to_le_bytes(PAGE_FORMAT_VERSION));
    assert(b.subrange(6, 14) =~= spec_u64_to_le_bytes(p.page_id));
    assert(b.subrange(14, 22) =~= spec_u64_to_le_bytes(p.last_lsn));
    assert(b.subrange(22, 30) =~= spec_u64_to_le_bytes(p.checkpoint_lsn));
    assert(b.subrange(30, 34) =~= spec_u32_to_le_bytes(p.versions.len() as u32));
    assert(b.subrange(34, 38) =~= spec_u32_to_le_bytes(body.len() as u32));
    assert(b.subrange(38, 42) =~= crc);
    assert(b.subrange(0, 38) =~= header);
    assert(b.skip(42) =~= body);
    lemma_parse_of_entries(p.versions);
}

fn copy_bytes(bytes: &[u8]) -> (r: Vec<u8>)
    ensures
        r@ == bytes@,
{
    slice_to_vec(bytes)
}

/// Reads the entry at the start of `bytes`.
pub fn decode_entry(bytes: &[u8]) -> (r: Option<(DocumentVersion, usize)>)
    ensures
        match r {
            Some(found) => parse_entry(bytes@) == Some((found.0@, found.1 as nat)) && found.1
                <= bytes@.len(),
            None => parse_entry(bytes@) is None,
        },
{
    if bytes.len() < ENTRY_FIXED_LEN || bytes[0] > 1 {
        return None;
    }
    let tombstone = bytes[0] == 1;
    let lsn = u64_from_le_bytes(slice_subrange(bytes, 1, 9));
    let after = slice_subrange(bytes, 9, bytes.len());
    assert(after@ =~= bytes@.skip(9));
    let key = match decode_key(after) {
        Some(key) => key,
        None => {
            return None;
        },
    };
    let n = key.consumed;
    if bytes.len() - 9 - n < 4 {
        return None;
    }
    let d = u32_from_le_bytes(slice_subrange(bytes, 9 + n, 13 + n)) as usize;
    if bytes.len() - 13 - n < d {
        return None;
    }
    let doc = copy_bytes(slice_subrange(bytes, 13 + n, 13 + n + d));
    Some(
        (
            DocumentVersion { collection: key.collection, pk: key.pk, doc, tombstone, lsn },
            13 + n + d,
        ),
    )
}

/// Appends the entry of a version to `out`. A version that does not fit an
/// entry is not written.
pub fn encode_entry(out: &mut Vec<u8>, v: &DocumentVersion) -> (r: bool)
    ensures
        r == entry_fits(v@),
        r ==> final(out)@ == old(out)@ + entry_bytes(v@),
        !r ==> final(out)@ == old(out)@,
{
    if v.collection.len() > u32::MAX as usize || v.pk.len() > u32::MAX as usize || v.doc.len()
        > u32::MAX as usize {
        return false;
    }
    let ghost start = out@;
    out.push(if v.tombstone {
        1
    } else {
        0
    });
    let lsn = u64_to_le_bytes(v.lsn);
    append_bytes(out, lsn.as_slice());
    let c = u32_to_le_bytes(v.collection.len() as u32);
    append_bytes(out, c.as_slice());
    append_bytes(out, v.collection.as_slice());
    let p = u32_to_le_bytes(v.pk.len() as u32);
    append_bytes(out, p.as_slice());
    append_bytes(out, v.pk.as_slice());
    let d = u32_to_le_bytes(v.doc.len() as u32);
    append_bytes(out, d.as_slice());
    append_bytes(out, v.doc.as_slice());
    assert(out@ =~= start + entry_bytes(v@));
    true
}

/// Writes a page. A page that cannot be written has no bytes.
pub fn encode_page(page: &Page) -> (r: Option<Vec<u8>>)
    ensures
        page_fits(page@) ==> r is Some && r->Some_0@ == page_bytes(page@),
        !page_fits(page@) ==> r is None,
{
    if page.versions.len() > u32::MAX as usize {
        return None;
    }
    let ghost all = version_models(page.versions@);
    let mut body: Vec<u8> = Vec::new();
    let mut i: usize = 0;
    proof {
        assert(all.take(0) =~= Seq::<VersionModel>::empty());
    }
    while i < page.versions.len()
        invariant
            i <= page.versions@.len(),
            all == version_models(page.versions@),
            body@ == entries_bytes(all.take(i as int)),
            forall|k: int| 0 <= k < i ==> entry_fits(#[trigger] all[k]),
        decreases page.versions@.len() - i,
    {
        proof {
            lemma_entries_bytes_push(all.take(i as int), all[i as int]);
            assert(all.take(i as int).push(all[i as int]) =~= all.take(i + 1));
        }
        if !encode_entry(&mut body, &page.versions[i]) {
            assert(!entry_fits(all[i as int]));
            return None;
        }
        i = i + 1;
    }
    assert(all.take(page.versions@.len() as int) =~= all);
    if body.len() > u32::MAX as usize {
        return None;
    }
    let mut out = u32_to_le_bytes(PAGE_MAGIC);
    let version = u16_to_le_bytes(PAGE_FORMAT_VERSION);
    append_bytes(&mut out, version.as_slice());
    let page_id = u64_to_le_bytes(page.page_id);
    append_bytes(&mut out, page_id.as_slice());
    let last = u64_to_le_bytes(page.last_lsn_applied);
    append_bytes(&mut out, last.as_slice());
    let checkpoint = u64_to_le_bytes(page.checkpoint_lsn);
    append_bytes(&mut out, checkpoint.as_slice());
    let count = u32_to_le_bytes(page.versions.len() as u32);
    append_bytes(&mut out, count.as_slice());
    let length = u32_to_le_bytes(body.len() as u32);
    append_bytes(&mut out, length.as_slice());
    assert(out@ =~= header_bytes(page@));
    let mut checked: Vec<u8> = copy_bytes(out.as_slice());
    append_bytes(&mut checked, body.as_slice());
    let crc = u32_to_le_bytes(compute_crc32c(checked.as_slice()));
    append_bytes(&mut out, crc.as_slice());
    append_bytes(&mut out, body.as_slice());
    assert(out@ =~= page_bytes(page@));
    Some(out)
}

/// Reads a page. Bytes that are no page whose parts agree give nothing.
pub fn decode_page(bytes: &[u8]) -> (r: Option<Page>)
    ensures
        match r {
            Some(page) => parse_page(bytes@) == Some(page@),
            None => parse_page(bytes@) is None,
        },
{
    if bytes.len() < PAGE_HEADER_LEN {
        return None;
    }
    let magic = u32_from_le_bytes(slice_subrange(bytes, 0, 4));
    let version = u16_from_le_bytes(slice_subrange(bytes, 4, 6));
    let page_id = u64_from_le_bytes(slice_subrange(bytes, 6, 14));
    let last_lsn_applied = u64_from_le_bytes(slice_subrange(bytes, 14, 22));
    let checkpoint_lsn = u64_from_le_bytes(slice_subrange(bytes, 22, 30));
    let count = u32_from_le_bytes(slice_subrange(bytes, 30, 34)) as usize;
    let length = u32_from_le_bytes(slice_subrange(bytes, 34, 38)) as usize;
    let crc = u32_from_le_bytes(slice_subrange(bytes, 38, 42));
    let body = slice_subrange(bytes, 42, bytes.len());
    assert(body@ =~= bytes@.skip(42));
    if magic != PAGE_MAGIC || version != PAGE_FORMAT_VERSION || length != body.len() {
        return None;
    }
    let mut checked: Vec<u8> = copy_bytes(slice_subrange(bytes, 0, 38));
    append_bytes(&mut checked, body);
    if crc != compute_crc32c(checked.as_slice()) {
        return None;
    }
    let mut versions: Vec<DocumentVersion> = Vec::new();
    let mut offset: usize = 0;
    let mut k: usize = 0;
    proof {
        assert(body@.skip(0) =~= body@);
        assert(version_models(versions@) =~= Seq::<VersionModel>::empty());
    }
    while k < count
        invariant
            k <= count,
            offset <= body@.len(),
            bytes@.len() >= 42,
            body@ == bytes@.skip(42),
            count == spec_u32_from_le_bytes(bytes@.subrange(30, 34)),
            spec_u32_from_le_bytes(bytes@.subrange(0, 4)) == PAGE_MAGIC,
            spec_u16_from_le_bytes(bytes@.subrange(4, 6)) == PAGE_FORMAT_VERSION,
            spec_u32_from_le_bytes(bytes@.subrange(34, 38)) == body@.len(),
            spec_u32_from_le_bytes(bytes@.subrange(38, 42)) == crc32c(
                bytes@.subrange(0, 38) + body@,
            ),
            page_id == spec_u64_from_le_bytes(bytes@.subrange(6, 14)),
            last_lsn_applied == spec_u64_from_le_bytes(bytes@.subrange(14, 22)),
            checkpoint_lsn == spec_u64_from_le_bytes(bytes@.subrange(22, 30)),
            parse_entries(body@, count as nat) == (match parse_entries(
                body@.skip(offset as int),
                (count - k) as nat,
            ) {
                Some(rest) => Some(version_models(versions@) + rest),
                None => None,
            }),
        decreases count - k,
    {
        let rest = slice_subrange(body, offset, body.len());
        assert(rest@ =~= body@.skip(offset as int));
        match decode_entry(rest) {
            None => {
                return None;
            },
            Some(found) => {
                let ghost before = versions@;
                let ghost tail = parse_entries(
                    body@.skip(offset as int).skip(found.1 as int),
                    (count - k - 1) as nat,
                );
                let n = found.1;
                versions.push(found.0);
                proof {
                    assert(body@.skip(offset as int).skip(n as int) =~= body@.skip(offset + n));
                    assert(version_models(versions@) =~= version_models(before) + seq![
                        versions@.last()@,
                    ]);
                    match tail {
                        Some(more) => {
                            assert(version_models(before) + (seq![versions@.last()@] + more)
                                =~= version_models(versions@) + more);
                        },
                        None => {},
                    }
                }
                offset = offset + n;
                k = k + 1;
            },
        }
    }
    if offset != body.len() {
        return None;
    }
    proof {
        assert(body@.skip(offset as int) =~= Seq::<u8>::empty());
        assert(version_models(versions@) + Seq::<VersionModel>::empty() =~= version_models(
            versions@,
        ));
    }
    Some(Page { page_id, last_lsn_applied, checkpoint_lsn, versions })
}

/// An error of the store.
#[derive(Debug, Clone, PartialEq, Eq)]
pub enum StorageError {
    /// A page's parts disagree. The page is not served until an operator
    /// has stepped in; the error names the page and the collection that
    /// was asked for.
    PageCorrupt { page_id: u64, collection: Vec<u8> },
}

impl StorageError {
    /// The stable code of the error.
    pub fn code(&self) -> (r: &'static str)
        ensures
            r@ == "AERO_STORAGE_PAGE_CORRUPT"@,
    {
        "AERO_STORAGE_PAGE_CORRUPT"
    }
}

/// Reads the page with the identifier given for a read in a collection.
/// Bytes that are no page whose parts agree, and a page with another
/// identifier, fail the read with the error of a corrupt page.
pub fn read_page(bytes: &[u8], page_id: u64, collection: &[u8]) -> (r: Result<Page, StorageError>)
    ensures
        match parse_page(bytes@) {
            Some(p) if p.page_id == page_id => r is Ok && r->Ok_0@ == p,
            _ => r is Err && r->Err_0->page_id == page_id && r->Err_0->collection@ == collection@,
        },
{
    match decode_page(bytes) {
        Some(page) => {
            if page.page_id == page_id {
                Ok(page)
            } else {
                Err(StorageError::PageCorrupt { page_id, collection: copy_bytes(collection) })
            }
        },
        None => Err(StorageError::PageCorrupt { page_id, collection: copy_bytes(collection) }),
    }
}

} // verus!
