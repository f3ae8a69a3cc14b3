//! The payloads of the records that change documents.
//!
//! A put carries the collection, the primary key and the document, the first
//! two each after its length in 32 bits, little-endian; the document is the
//! rest. A delete carries the collection and the primary key in the same
//! way. A checkpoint carries an LSN in 64 bits, little-endian.

use vstd::bytes::*;
use vstd::prelude::*;
use vstd::slice::*;
use crate::wal::frame::append_bytes;

verus! {

/// The key of a document: its collection and its primary key.
pub struct KeyModel {
    pub collection: Seq<u8>,
    pub pk: Seq<u8>,
}

/// Whether a key fits a payload: both lengths can be written in 32 bits.
pub open spec fn key_fits(key: KeyModel) -> bool {
    key.collection.len() <= u32::MAX && key.pk.len() <= u32::MAX
}

/// The bytes of a key: collection and primary key, each after its length.
pub open spec fn key_bytes(key: KeyModel) -> Seq<u8> {
    spec_u32_to_le_bytes(key.collection.len() as u32) + key.collection + spec_u32_to_le_bytes(
        key.pk.len() as u32,
    ) + key.pk
}

/// The payload of a put.
pub open spec fn put_payload(key: KeyModel, doc: Seq<u8>) -> Seq<u8> {
    key_bytes(key) + doc
}

/// The payload of a delete.
pub open spec fn delete_payload(key: KeyModel) -> Seq<u8> {
    key_bytes(key)
}

/// The key at the start of a payload and the number of bytes it takes, if a
/// key stands there.
pub open spec fn parse_key(payload: Seq<u8>) -> Option<(KeyModel, nat)> {
    if payload.len() < 4 {
        None
    } else {
        let c = spec_u32_from_le_bytes(payload.subrange(0, 4)) as nat;
        if payload.len() < 8 + c {
            None
        } else {
            let p = spec_u32_from_le_bytes(payload.subrange(4 + c as int, 8 + c as int)) as nat;
            if payload.len() < 8 + c + p {
                None
            } else {
                Some(
                    (
                        KeyModel {
                            collection: payload.subrange(4, 4 + c as int),
                            pk: payload.subrange(8 + c as int, 8 + c as int + p as int),
                        },
                        8 + c + p,
                    ),
                )
            }
        }
    }
}

/// The key and the document of a put's payload, if the payload is one.
pub open spec fn parse_put(payload: Seq<u8>) -> Option<(KeyModel, Seq<u8>)> {
    match parse_key(payload) {
        Some((key, n)) => Some((key, payload.skip(n as int))),
        None => None,
    }
}

/// The key of a delete's payload, if the payload is one: a key and nothing
/// after it.
pub open spec fn parse_delete(payload: Seq<u8>) -> Option<KeyModel> {
    match parse_key(payload) {
        Some((key, n)) => if n == payload.len() {
            Some(key)
        } else {
            None
        },
        None => None,
    }
}

/// The LSN of a checkpoint's payload, if the payload is one: eight bytes.
pub open spec fn parse_checkpoint(payload: Seq<u8>) -> Option<u64> {
    if payload.len() == 8 {
        Some(spec_u64_from_le_bytes(payload))
    } else {
        None
    }
}

/// Reading a put's payload undoes writing it.
pub proof fn lemma_parse_of_put(key: KeyModel, doc: Seq<u8>)
    requires
        key_fits(key),
    ensures
        parse_put(put_payload(key, doc)) == Some((key, doc)),
        parse_key(put_payload(key, doc)) == Some((key, key_bytes(key).len())),
{
    lemma_auto_spec_u32_to_from_le_bytes();
    let payload = put_payload(key, doc);
    let c = key.collection.len();
    let p = key.pk.len();
    assert(payload.subrange(0, 4) =~= spec_u32_to_le_bytes(c as u32));
    assert(payload.subrange(4 + c as int, 8 + c as int) =~= spec_u32_to_le_bytes(p as u32));
    assert(payload.subrange(4, 4 + c as int) =~= key.collection);
    assert(payload.subrange(8 + c as int, 8 + c as int + p as int) =~= key.pk);
    assert(payload.skip(8 + c as int + p as int) =~= doc);
}

/// Reading a delete's payload undoes writing it.
pub proof fn lemma_parse_of_delete(key: KeyModel)
    requires
        key_fits(key),
    ensures
        parse_delete(delete_payload(key)) == Some(key),
{
    lemma_parse_of_put(key, Seq::<u8>::empty());
    assert(put_payload(key, Seq::<u8>::empty()) =~= delete_payload(key));
}

/// Writes the payload of a put. A key whose parts are too long has none.
pub fn encode_put(collection: &[u8], pk: &[u8], doc: &[u8]) -> (r: Option<Vec<u8>>)
    ensures
        key_fits(KeyModel { collection: collection@, pk: pk@ }) ==> r is Some && r->0@
            == put_payload(KeyModel { collection: collection@, pk: pk@ }, doc@),
        !key_fits(KeyModel { collection: collection@, pk: pk@ }) ==> r is None,
{
    if collection.len() > u32::MAX as usize || pk.len() > u32::MAX as usize {
        return None;
    }
    let mut out = u32_to_le_bytes(collection.len() as u32);
    append_bytes(&mut out, collection);
    let pk_len = u32_to_le_bytes(pk.len() as u32);
    append_bytes(&mut out, pk_len.as_slice());
    append_bytes(&mut out, pk);
    append_bytes(&mut out, doc);
    Some(out)
}

/// Writes the payload of a delete. A key whose parts are too long has none.
pub fn encode_delete(collection: &[u8], pk: &[u8]) -> (r: Option<Vec<u8>>)
    ensures
        key_fits(KeyModel { collection: collection@, pk: pk@ }) ==> r is Some && r->0@
            == delete_payload(KeyModel { collection: collection@, pk: pk@ }),
        !key_fits(KeyModel { collection: collection@, pk: pk@ }) ==> r is None,
{
    if collection.len() > u32::MAX as usize || pk.len() > u32::MAX as usize {
        return None;
    }
    let mut out = u32_to_le_bytes(collection.len() as u32);
    append_bytes(&mut out, collection);
    let pk_len = u32_to_le_bytes(pk.len() as u32);
    append_bytes(&mut out, pk_len.as_slice());
    append_bytes(&mut out, pk);
    Some(out)
}

/// Writes the payload of a checkpoint.
pub fn encode_checkpoint(lsn: u64) -> (r: Vec<u8>)
    ensures
        r@ == spec_u64_to_le_bytes(lsn),
        parse_checkpoint(r@) == Some(lsn),
{
    proof {
        lemma_auto_spec_u64_to_from_le_bytes();
    }
    u64_to_le_bytes(lsn)
}

/// A key read from a payload, with the number of bytes it takes.
pub struct ParsedKey {
    pub collection: Vec<u8>,
    pub pk: Vec<u8>,
    pub consumed: usize,
}

/// Reads the key at the start of a payload.
pub fn decode_key(payload: &[u8]) -> (r: Option<ParsedKey>)
    ensures
        match r {
            Some(found) => parse_key(payload@) == Some(
                (KeyModel { collection: found.collection@, pk: found.pk@ }, found.consumed as nat),
            ) && found.consumed <= payload@.len(),
            None => parse_key(payload@) is None,
        },
{
    if payload.len() < 4 {
        return None;
    }
    let c = u32_from_le_bytes(slice_subrange(payload, 0, 4)) as usize;
    if payload.len() - 4 < 4 || payload.len() - 8 < c {
        return None;
    }
    let p = u32_from_le_bytes(slice_subrange(payload, 4 + c, 8 + c)) as usize;
    if payload.len() - 8 - c < p {
        return None;
    }
    let collection = slice_to_vec(slice_subrange(payload, 4, 4 + c));
    let pk = slice_to_vec(slice_subrange(payload, 8 + c, 8 + c + p));
    Some(ParsedKey { collection, pk, consumed: 8 + c + p })
}

/// Reads the LSN of a checkpoint's payload.
pub fn decode_checkpoint(payload: &[u8]) -> (r: Option<u64>)
    ensures
        r == parse_checkpoint(payload@),
{
    if payload.len() != 8 {
        return None;
    }
    Some(u64_from_le_bytes(payload))
}

} // verus!
