use aerodb::page::{
    decode_entry, decode_page, encode_entry, encode_page, read_page, Page, StorageError,
    PAGE_HEADER_LEN,
};
use aerodb::storage::{DocumentVersion, PageStore};
use aerodb::wal::checksum::compute_crc32c;
use aerodb::wal::frame::{RecordKind, WalRecord};
use aerodb::wal::payload::{encode_checkpoint, encode_delete, encode_put};

fn version(collection: &[u8], pk: &[u8], doc: &[u8], tombstone: bool, lsn: u64) -> DocumentVersion {
    DocumentVersion {
        collection: collection.to_vec(),
        pk: pk.to_vec(),
        doc: doc.to_vec(),
        tombstone,
        lsn,
    }
}

fn sample_page() -> Page {
    Page {
        page_id: 7,
        last_lsn_applied: 42,
        checkpoint_lsn: 40,
        versions: vec![
            version(b"users", b"alice", b"{\"v\":1}", false, 40),
            version(b"users", b"bob", b"", true, 41),
            version(b"", b"", b"", false, 42),
        ],
    }
}

#[test]
fn page_layout_is_as_documented() {
    let page = Page {
        page_id: 0x0102030405060708,
        last_lsn_applied: 9,
        checkpoint_lsn: 8,
        versions: vec![version(b"c", b"k", b"doc", false, 9)],
    };
    let bytes = encode_page(&page).unwrap();
    assert_eq!(PAGE_HEADER_LEN, 42);
    assert_eq!(&bytes[0..4], b"AEPG");
    assert_eq!(&bytes[4..6], &1u16.to_le_bytes());
    assert_eq!(&bytes[6..14], &0x0102030405060708u64.to_le_bytes());
    assert_eq!(&bytes[14..22], &9u64.to_le_bytes());
    assert_eq!(&bytes[22..30], &8u64.to_le_bytes());
    assert_eq!(&bytes[30..34], &1u32.to_le_bytes());
    let body = &bytes[42..];
    assert_eq!(&bytes[34..38], &(body.len() as u32).to_le_bytes());
    let mut checked = bytes[0..38].to_vec();
    checked.extend_from_slice(body);
    assert_eq!(&bytes[38..42], &compute_crc32c(&checked).to_le_bytes());

    let mut entry = vec![0u8];
    entry.extend_from_slice(&9u64.to_le_bytes());
    entry.extend_from_slice(&1u32.to_le_bytes());
    entry.extend_from_slice(b"c");
    entry.extend_from_slice(&1u32.to_le_bytes());
    entry.extend_from_slice(b"k");
    entry.extend_from_slice(&3u32.to_le_bytes());
    entry.extend_from_slice(b"doc");
    assert_eq!(body, &entry[..]);
}

#[test]
fn reading_a_page_undoes_writing_it() {
    let page = sample_page();
    let bytes = encode_page(&page).unwrap();
    assert_eq!(decode_page(&bytes), Some(page.clone()));
    assert_eq!(read_page(&bytes, 7, b"users"), Ok(page));

    let empty = Page { page_id: 1, last_lsn_applied: 0, checkpoint_lsn: 0, versions: vec![] };
    let bytes = encode_page(&empty).unwrap();
    assert_eq!(bytes.len(), 42);
    assert_eq!(decode_page(&bytes), Some(empty));
}

#[test]
fn a_page_whose_parts_disagree_is_corrupt() {
    let bytes = encode_page(&sample_page()).unwrap();
    for at in 0..bytes.len() {
        let mut bad = bytes.clone();
        bad[at] ^= 0x01;
        assert_eq!(decode_page(&bad), None, "at {}", at);
    }
    for n in 0..bytes.len() {
        assert_eq!(decode_page(&bytes[..n]), None, "cut at {}", n);
    }
    let mut longer = bytes.clone();
    longer.push(0);
    assert_eq!(decode_page(&longer), None);

    let corrupt = StorageError::PageCorrupt { page_id: 7, collection: b"users".to_vec() };
    let mut bad = bytes.clone();
    bad[50] ^= 0x80;
    assert_eq!(read_page(&bad, 7, b"users"), Err(corrupt.clone()));
    assert_eq!(corrupt.code(), "AERO_STORAGE_PAGE_CORRUPT");
    // A page that is whole but is not the page that was asked for is not served.
    assert_eq!(
        read_page(&bytes, 8, b"users"),
        Err(StorageError::PageCorrupt { page_id: 8, collection: b"users".to_vec() })
    );
}

#[test]
fn entries_are_read_one_after_the_other() {
    let first = version(b"users", b"alice", b"doc", false, 5);
    let second = version(b"users", b"bob", b"", true, 6);
    let mut bytes = Vec::new();
    assert!(encode_entry(&mut bytes, &first));
    let first_len = bytes.len();
    assert!(encode_entry(&mut bytes, &second));
    assert_eq!(decode_entry(&bytes), Some((first, first_len)));
    assert_eq!(decode_entry(&bytes[first_len..]), Some((second, bytes.len() - first_len)));
    assert_eq!(decode_entry(&bytes[..first_len - 1]), None);
    assert_eq!(decode_entry(&[]), None);
    // The flag is 0 or 1.
    let mut bad = bytes.clone();
    bad[0] = 2;
    assert_eq!(decode_entry(&bad), None);
}

#[test]
fn a_store_survives_its_page() {
    let mut store = PageStore::new();
    let put = |lsn: u64, pk: &[u8], doc: &[u8]| WalRecord {
        kind: RecordKind::Put,
        lsn,
        txn_id: 0,
        payload: encode_put(b"c", pk, doc).unwrap(),
    };
    store.apply(&put(1, b"a", b"1"));
    store.apply(&put(2, b"b", b"2"));
    store.apply(&WalRecord {
        kind: RecordKind::Delete,
        lsn: 3,
        txn_id: 0,
        payload: encode_delete(b"c", b"a").unwrap(),
    });
    store.apply(&WalRecord {
        kind: RecordKind::Checkpoint,
        lsn: 4,
        txn_id: 0,
        payload: encode_checkpoint(3),
    });
    let page = store.to_page(1);
    assert_eq!(page.page_id, 1);
    assert_eq!(page.last_lsn_applied, 4);
    assert_eq!(page.checkpoint_lsn, 3);
    let bytes = encode_page(&page).unwrap();
    let restored = PageStore::from_page(&read_page(&bytes, 1, b"c").unwrap());
    assert_eq!(restored.snapshot(), store.snapshot());
    assert_eq!(restored.get(b"c", b"a"), None);
    assert_eq!(restored.get(b"c", b"b"), Some(b"2".to_vec()));
    assert_eq!(restored.last_lsn_applied(), 4);
    assert_eq!(restored.checkpoint_lsn(), 3);
}
