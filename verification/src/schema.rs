//! Schemas: which collections there are and which fields their documents
//! have to hold.
//!
//! Collections are created, renamed and dropped by schema operations, which
//! are records of the log. The payload of a schema record is a byte for
//! the operation (1 create, 2 drop, 3 rename) and then, in the form of the
//! payloads of documents, the collection's name; a creation carries the
//! names of the required fields after it, each after its length, and a
//! renaming the new name.
//!
//! A document fits the schemas when its collection has no schema or the
//! document holds every required field of its collection's schema.

use vstd::bytes::*;
use vstd::prelude::*;
use vstd::slice::*;
use crate::document::{field_text, json_field};
use crate::seqs::{first_where, lemma_first_where, lemma_first_where_is, lemma_first_where_none};
use crate::wal::frame::append_bytes;
use crate::wal::payload::{
    decode_key,
    encode_delete,
    key_bytes,
    key_fits,
    lemma_parse_of_put,
    parse_key,
    put_payload,
    KeyModel,
};

verus! {

/// The byte of a creation.
pub const OP_CREATE: u8 = 1;

/// The byte of a drop.
pub const OP_DROP: u8 = 2;

/// The byte of a renaming.
pub const OP_RENAME: u8 = 3;

/// A schema operation as a mathematical value.
pub enum SchemaOpModel {
    Create { collection: Seq<u8>, required: Seq<Seq<u8>> },
    Drop { collection: Seq<u8> },
    Rename { from: Seq<u8>, to: Seq<u8> },
}

/// A schema operation.
#[derive(Debug, Clone, PartialEq, Eq)]
pub enum SchemaOp {
    /// Creates a collection whose documents have to hold the fields named.
    Create { collection: Vec<u8>, required: Vec<Vec<u8>> },
    /// Drops a collection.
    Drop { collection: Vec<u8> },
    /// Renames a collection.
    Rename { from: Vec<u8>, to: Vec<u8> },
}

/// The byte strings as mathematical values.
pub open spec fn names_of(names: Seq<Vec<u8>>) -> Seq<Seq<u8>> {
    names.map_values(|n: Vec<u8>| n@)
}

impl View for SchemaOp {
    type V = SchemaOpModel;

    open spec fn view(&self) -> SchemaOpModel {
        match *self {
            SchemaOp::Create { collection, required } => SchemaOpModel::Create {
                collection: collection@,
                required: names_of(required@),
            },
            SchemaOp::Drop { collection } => SchemaOpModel::Drop { collection: collection@ },
            SchemaOp::Rename { from, to } => SchemaOpModel::Rename { from: from@, to: to@ },
        }
    }
}

/// The bytes of some names, each after its length in 32 bits.
pub open spec fn names_bytes(names: Seq<Seq<u8>>) -> Seq<u8>
    decreases names.len(),
{
    if names.len() == 0 {
        Seq::<u8>::empty()
    } else {
        spec_u32_to_le_bytes(names[0].len() as u32) + names[0] + names_bytes(names.drop_first())
    }
}

/// The names that `bytes` consists of, if it consists of names after their
/// lengths and nothing else.
pub open spec fn parse_names(bytes: Seq<u8>) -> Option<Seq<Seq<u8>>>
    decreases bytes.len(),
{
    if bytes.len() == 0 {
        Some(Seq::<Seq<u8>>::empty())
    } else if bytes.len() < 4 {
        None
    } else {
        let n = spec_u32_from_le_bytes(bytes.subrange(0, 4)) as nat;
        if bytes.len() < 4 + n {
            None
        } else {
            match parse_names(bytes.skip(4 + n as int)) {
                None => None,
                Some(rest) => Some(seq![bytes.subrange(4, 4 + n as int)] + rest),
            }
        }
    }
}

/// Whether an operation can be written: the lengths of its names can be
/// written in 32 bits.
pub open spec fn op_fits(op: SchemaOpModel) -> bool {
    match op {
        SchemaOpModel::Create { collection, required } => collection.len() <= u32::MAX
            && forall|i: int| 0 <= i < required.len() ==> (#[trigger] required[i]).len() <= u32::MAX,
        SchemaOpModel::Drop { collection } => collection.len() <= u32::MAX,
        SchemaOpModel::Rename { from, to } => from.len() <= u32::MAX && to.len() <= u32::MAX,
    }
}

/// The name of a collection alone, in the form of a document's key.
pub open spec fn name_key(collection: Seq<u8>) -> KeyModel {
    KeyModel { collection, pk: Seq::<u8>::empty() }
}

/// The payload of a schema record.
pub open spec fn op_payload(op: SchemaOpModel) -> Seq<u8> {
    match op {
        SchemaOpModel::Create { collection, required } => seq![OP_CREATE] + put_payload(
            name_key(collection),
            names_bytes(required),
        ),
        SchemaOpModel::Drop { collection } => seq![OP_DROP] + key_bytes(name_key(collection)),
        SchemaOpModel::Rename { from, to } => seq![OP_RENAME] + key_bytes(
            KeyModel { collection: from, pk: to },
        ),
    }
}

/// The operation of a schema record's payload, if the payload is one.
pub open spec fn parse_op(payload: Seq<u8>) -> Option<SchemaOpModel> {
    if payload.len() == 0 {
        None
    } else {
        match parse_key(payload.skip(1)) {
            None => None,
            Some((key, n)) => if payload[0] == OP_CREATE {
                if key.pk.len() != 0 {
                    None
                } else {
                    match parse_names(payload.skip(1).skip(n as int)) {
                        None => None,
                        Some(required) => Some(
                            SchemaOpModel::Create { collection: key.collection, required },
                        ),
                    }
                }
            } else if payload[0] == OP_DROP {
                if key.pk.len() != 0 || n != payload.len() - 1 {
                    None
                } else {
                    Some(SchemaOpModel::Drop { collection: key.collection })
                }
            } else if payload[0] == OP_RENAME {
                if n != payload.len() - 1 {
                    None
                } else {
                    Some(SchemaOpModel::Rename { from: key.collection, to: key.pk })
                }
            } else {
                None
            },
        }
    }
}

/// Reading names undoes writing them.
pub proof fn lemma_parse_of_names(names: Seq<Seq<u8>>)
    requires
        forall|i: int| 0 <= i < names.len() ==> (#[trigger] names[i]).len() <= u32::MAX,
    ensures
        parse_names(names_bytes(names)) == Some(names),
    decreases names.len(),
{
    lemma_auto_spec_u32_to_from_le_bytes();
    if names.len() == 0 {
        assert(names =~= Seq::<Seq<u8>>::empty());
    } else {
        let first = names[0];
        let rest = names.drop_first();
        let b = names_bytes(names);
        assert forall|i: int| 0 <= i < rest.len() implies (#[trigger] rest[i]).len()
            <= u32::MAX by {
            assert(rest[i] == names[i + 1]);
        }
        lemma_parse_of_names(rest);
        assert(b.subrange(0, 4) =~= spec_u32_to_le_bytes(first.len() as u32));
        assert(b.subrange(4, 4 + first.len() as int) =~= first);
        assert(b.skip(4 + first.len() as int) =~= names_bytes(rest));
        assert(seq![first] + rest =~= names);
    }
}

/// Reading a schema record's payload undoes writing it.
pub proof fn lemma_parse_of_op(op: SchemaOpModel)
    requires
        op_fits(op),
    ensures
        parse_op(op_payload(op)) == Some(op),
{
    lemma_auto_spec_u32_to_from_le_bytes();
    let payload = op_payload(op);
    match op {
        SchemaOpModel::Create { collection, required } => {
            let tail = names_bytes(required);
            lemma_parse_of_put(name_key(collection), tail);
            lemma_parse_of_names(required);
            assert(payload.skip(1) =~= put_payload(name_key(collection), tail));
            assert(payload.skip(1).skip(key_bytes(name_key(collection)).len() as int) =~= tail);
        },
        SchemaOpModel::Drop { collection } => {
            lemma_parse_of_put(name_key(collection), Seq::<u8>::empty());
            assert(payload.skip(1) =~= put_payload(name_key(collection), Seq::<u8>::empty()));
        },
        SchemaOpModel::Rename { from, to } => {
            let key = KeyModel { collection: from, pk: to };
            lemma_parse_of_put(key, Seq::<u8>::empty());
            assert(payload.skip(1) =~= put_payload(key, Seq::<u8>::empty()));
        },
    }
}

/// The bytes of some names grow by a name after its length when the name
/// is added at the end.
pub proof fn lemma_names_bytes_push(names: Seq<Seq<u8>>, name: Seq<u8>)
    ensures
        names_bytes(names.push(name)) == names_bytes(names) + spec_u32_to_le_bytes(
            name.len() as u32,
        ) + name,
    decreases names.len(),
{
    let all = names.push(name);
    let last = spec_u32_to_le_bytes(name.len() as u32) + name;
    if names.len() == 0 {
        assert(all.drop_first() =~= Seq::<Seq<u8>>::empty());
        assert(names_bytes(all.drop_first()) =~= Seq::<u8>::empty());
        assert(names_bytes(all) =~= last);
        assert(names_bytes(names) + spec_u32_to_le_bytes(name.len() as u32) + name =~= last);
    } else {
        assert(all.drop_first() =~= names.drop_first().push(name));
        lemma_names_bytes_push(names.drop_first(), name);
        assert(all[0] == names[0]);
        assert(names_bytes(all) =~= names_bytes(names) + spec_u32_to_le_bytes(name.len() as u32)
            + name);
    }
}

fn copy_bytes(bytes: &[u8]) -> (r: Vec<u8>)
    ensures
        r@ == bytes@,
{
    slice_to_vec(bytes)
}

/// Writes the payload of a schema record. An operation that cannot be
/// written has none.
pub fn encode_op(op: &SchemaOp) -> (r: Option<Vec<u8>>)
    ensures
        op_fits(op@) ==> r is Some && r->Some_0@ == op_payload(op@),
        !op_fits(op@) ==> r is None,
{
    match op {
        SchemaOp::Create { collection, required } => {
            let mut out: Vec<u8> = Vec::new();
            out.push(OP_CREATE);
            let key = match encode_delete(collection.as_slice(), &[]) {
                Some(key) => key,
                None => {
                    return None;
                },
            };
            append_bytes(&mut out, key.as_slice());
            let ghost names = names_of(required@);
            let ghost head = out@;
            let mut i: usize = 0;
            proof {
                assert(names.take(0) =~= Seq::<Seq<u8>>::empty());
                assert(head + names_bytes(names.take(0)) =~= head);
            }
            while i < required.len()
                invariant
                    i <= required@.len(),
                    names == names_of(required@),
                    op@ == (SchemaOpModel::Create { collection: collection@, required: names }),
                    collection@.len() <= u32::MAX,
                    head == seq![OP_CREATE] + key_bytes(name_key(collection@)),
                    out@ == head + names_bytes(names.take(i as int)),
                    forall|k: int| 0 <= k < i ==> (#[trigger] names[k]).len() <= u32::MAX,
                decreases required@.len() - i,
            {
                let name = &required[i];
                assert(names[i as int] == name@);
                if name.len() > u32::MAX as usize {
                    proof {
                        let model = op@;
                        assert(model->Create_required[i as int].len() > u32::MAX);
                        assert(!op_fits(model));
                    }
                    return None;
                }
                proof {
                    lemma_names_bytes_push(names.take(i as int), name@);
                    assert(names.take(i as int).push(name@) =~= names.take(i + 1));
                }
                let length = u32_to_le_bytes(name.len() as u32);
                append_bytes(&mut out, length.as_slice());
                append_bytes(&mut out, name.as_slice());
                assert(out@ =~= head + names_bytes(names.take(i + 1)));
                i = i + 1;
            }
            assert(names.take(required@.len() as int) =~= names);
            assert(out@ =~= op_payload(op@));
            Some(out)
        },
        SchemaOp::Drop { collection } => {
            let mut out: Vec<u8> = Vec::new();
            out.push(OP_DROP);
            match encode_delete(collection.as_slice(), &[]) {
                Some(key) => {
                    append_bytes(&mut out, key.as_slice());
                    assert(out@ =~= op_payload(op@));
                    Some(out)
                },
                None => None,
            }
        },
        SchemaOp::Rename { from, to } => {
            let mut out: Vec<u8> = Vec::new();
            out.push(OP_RENAME);
            match encode_delete(from.as_slice(), to.as_slice()) {
                Some(key) => {
                    append_bytes(&mut out, key.as_slice());
                    assert(out@ =~= op_payload(op@));
                    Some(out)
                },
                None => None,
            }
        },
    }
}

/// Reads names after their lengths.
pub fn decode_names(bytes: &[u8]) -> (r: Option<Vec<Vec<u8>>>)
    ensures
        match r {
            Some(names) => parse_names(bytes@) == Some(names_of(names@)),
            None => parse_names(bytes@) is None,
        },
{
    let mut names: Vec<Vec<u8>> = Vec::new();
    let mut offset: usize = 0;
    proof {
        assert(bytes@.skip(0) =~= bytes@);
        assert(names_of(names@) =~= Seq::<Seq<u8>>::empty());
    }
    while offset < bytes.len()
        invariant
            offset <= bytes@.len(),
            parse_names(bytes@) == (match parse_names(bytes@.skip(offset as int)) {
                Some(rest) => Some(names_of(names@) + rest),
                None => None,
            }),
        decreases bytes@.len() - offset,
    {
        let rest = slice_subrange(bytes, offset, bytes.len());
        assert(rest@ =~= bytes@.skip(offset as int));
        if rest.len() < 4 {
            return None;
        }
        let n = u32_from_le_bytes(slice_subrange(rest, 0, 4)) as usize;
        if rest.len() - 4 < n {
            return None;
        }
        let ghost before = names@;
        let ghost tail = parse_names(rest@.skip(4 + n as int));
        names.push(copy_bytes(slice_subrange(rest, 4, 4 + n)));
        proof {
            assert(bytes@.skip(offset as int).skip(4 + n as int) =~= bytes@.skip(offset + 4 + n));
            assert(names_of(names@) =~= names_of(before) + seq![names@.last()@]);
            match tail {
                Some(more) => {
                    assert(names_of(before) + (seq![names@.last()@] + more) =~= names_of(names@)
                        + more);
                },
                None => {},
            }
        }
        offset = offset + 4 + n;
    }
    proof {
        assert(bytes@.skip(offset as int) =~= Seq::<u8>::empty());
        assert(names_of(names@) + Seq::<Seq<u8>>::empty() =~= names_of(names@));
    }
    Some(names)
}

/// Reads the operation of a schema record's payload.
pub fn decode_op(payload: &[u8]) -> (r: Option<SchemaOp>)
    ensures
        match r {
            Some(op) => parse_op(payload@) == Some(op@),
            None => parse_op(payload@) is None,
        },
{
    if payload.len() == 0 {
        return None;
    }
    let rest = slice_subrange(payload, 1, payload.len());
    assert(rest@ =~= payload@.skip(1));
    let key = match decode_key(rest) {
        Some(key) => key,
        None => {
            return None;
        },
    };
    let op = payload[0];
    if op == OP_CREATE {
        if key.pk.len() != 0 {
            return None;
        }
        let tail = slice_subrange(rest, key.consumed, rest.len());
        assert(tail@ =~= payload@.skip(1).skip(key.consumed as int));
        match decode_names(tail) {
            Some(required) => Some(SchemaOp::Create { collection: key.collection, required }),
            None => None,
        }
    } else if op == OP_DROP {
        if key.pk.len() != 0 || key.consumed != rest.len() {
            return None;
        }
        Some(SchemaOp::Drop { collection: key.collection })
    } else if op == OP_RENAME {
        if key.consumed != rest.len() {
            return None;
        }
        Some(SchemaOp::Rename { from: key.collection, to: key.pk })
    } else {
        None
    }
}

/// The schema of a collection: its name and the fields that its documents
/// have to hold.
#[derive(Debug, Clone, PartialEq, Eq)]
pub struct CollectionSchema {
    pub name: Vec<u8>,
    pub required: Vec<Vec<u8>>,
}

/// A schema as a mathematical value.
pub struct SchemaModel {
    pub name: Seq<u8>,
    pub required: Seq<Seq<u8>>,
}

impl View for CollectionSchema {
    type V = SchemaModel;

    open spec fn view(&self) -> SchemaModel {
        SchemaModel { name: self.name@, required: names_of(self.required@) }
    }
}

/// The schemas as mathematical values.
pub open spec fn schema_models(schemas: Seq<CollectionSchema>) -> Seq<SchemaModel> {
    schemas.map_values(|s: CollectionSchema| s@)
}

/// The position of the schema of a collection, if it has one.
pub open spec fn schema_at(schemas: Seq<SchemaModel>, name: Seq<u8>) -> Option<int> {
    first_where(schemas, |s: SchemaModel| s.name == name)
}

/// Whether a schema operation is valid under the schemas: a creation needs
/// a name that is free, a drop a collection that is there, a renaming a
/// collection that is there and a new name that is free.
pub open spec fn op_is_valid(schemas: Seq<SchemaModel>, op: SchemaOpModel) -> bool {
    match op {
        SchemaOpModel::Create { collection, required } => schema_at(schemas, collection) is None,
        SchemaOpModel::Drop { collection } => schema_at(schemas, collection) is Some,
        SchemaOpModel::Rename { from, to } => schema_at(schemas, from) is Some && schema_at(
            schemas,
            to,
        ) is None,
    }
}

/// The schemas after a schema operation. An operation that is not valid
/// changes nothing.
pub open spec fn schemas_after(schemas: Seq<SchemaModel>, op: SchemaOpModel) -> Seq<SchemaModel> {
    if !op_is_valid(schemas, op) {
        schemas
    } else {
        match op {
            SchemaOpModel::Create { collection, required } => schemas.push(
                SchemaModel { name: collection, required },
            ),
            SchemaOpModel::Drop { collection } => schemas.remove(
                schema_at(schemas, collection)->Some_0,
            ),
            SchemaOpModel::Rename { from, to } => schemas.update(
                schema_at(schemas, from)->Some_0,
                SchemaModel { name: to, required: schemas[schema_at(schemas, from)->Some_0].required },
            ),
        }
    }
}

/// Whether a document holds every one of the fields named.
pub open spec fn holds_fields(doc: Seq<u8>, required: Seq<Seq<u8>>) -> bool {
    forall|k: int| 0 <= k < required.len() ==> field_text(doc, #[trigger] required[k]) is Some
}

/// Whether a document fits the schemas: its collection has no schema, or
/// the document holds every required field of its collection's schema.
pub open spec fn document_is_valid(schemas: Seq<SchemaModel>, collection: Seq<u8>, doc: Seq<u8>)
    -> bool {
    match schema_at(schemas, collection) {
        None => true,
        Some(i) => holds_fields(doc, schemas[i].required),
    }
}

fn same_name(a: &[u8], b: &[u8]) -> (r: bool)
    ensures
        r == (a@ == b@),
{
    if a.len() != b.len() {
        return false;
    }
    let mut i: usize = 0;
    while i < a.len()
        invariant
            i <= a@.len(),
            a@.len() == b@.len(),
            forall|k: int| 0 <= k < i ==> a@[k] == b@[k],
        decreases a@.len() - i,
    {
        if a[i] != b[i] {
            return false;
        }
        i = i + 1;
    }
    assert(a@ =~= b@);
    true
}

fn copy_names(names: &Vec<Vec<u8>>) -> (r: Vec<Vec<u8>>)
    ensures
        names_of(r@) == names_of(names@),
{
    let mut out: Vec<Vec<u8>> = Vec::new();
    let mut i: usize = 0;
    while i < names.len()
        invariant
            i <= names@.len(),
            out@.len() == i,
            forall|k: int| 0 <= k < i ==> out@[k]@ == names@[k]@,
        decreases names@.len() - i,
    {
        out.push(copy_bytes(names[i].as_slice()));
        i = i + 1;
    }
    assert(names_of(out@) =~= names_of(names@));
    out
}

/// The schemas of a database.
#[derive(Debug, Clone, PartialEq, Eq)]
pub struct SchemaLoader {
    schemas: Vec<CollectionSchema>,
}

impl View for SchemaLoader {
    type V = Seq<SchemaModel>;

    closed spec fn view(&self) -> Seq<SchemaModel> {
        schema_models(self.schemas@)
    }
}

impl SchemaLoader {
    /// No schemas.
    pub fn new() -> (r: Self)
        ensures
            r@ == Seq::<SchemaModel>::empty(),
    {
        let r = SchemaLoader { schemas: Vec::new() };
        assert(schema_models(r.schemas@) =~= Seq::<SchemaModel>::empty());
        r
    }

    /// The number of schemas.
    pub fn len(&self) -> (r: usize)
        ensures
            r == self@.len(),
    {
        self.schemas.len()
    }

    /// The schema at a position, in the order in which the collections were
    /// created.
    pub fn schema(&self, at: usize) -> (r: Option<&CollectionSchema>)
        ensures
            r is Some == (at < self@.len()),
            r is Some ==> r->Some_0@ == self@[at as int],
    {
        if at < self.schemas.len() {
            assert(schema_models(self.schemas@)[at as int] == self.schemas@[at as int]@);
            Some(&self.schemas[at])
        } else {
            None
        }
    }

    fn position(&self, name: &[u8]) -> (r: Option<usize>)
        ensures
            match r {
                Some(i) => i < self@.len() && schema_at(self@, name@) == Some(i as int),
                None => schema_at(self@, name@) is None,
            },
    {
        let ghost all = schema_models(self.schemas@);
        let ghost p = |s: SchemaModel| s.name == name@;
        let mut i: usize = 0;
        while i < self.schemas.len()
            invariant
                i <= self.schemas@.len(),
                all == schema_models(self.schemas@),
                p == (|s: SchemaModel| s.name == name@),
                forall|k: int| 0 <= k < i ==> !p(#[trigger] all[k]),
            decreases self.schemas@.len() - i,
        {
            assert(all[i as int] == self.schemas@[i as int]@);
            if same_name(self.schemas[i].name.as_slice(), name) {
                proof {
                    assert(p(all[i as int]));
                    lemma_first_where_is(all, p, i as int);
                }
                return Some(i);
            }
            i = i + 1;
        }
        proof {
            lemma_first_where_none(all, p);
        }
        None
    }

    /// Whether a collection has a schema.
    pub fn has_collection(&self, name: &[u8]) -> (r: bool)
        ensures
            r == schema_at(self@, name@) is Some,
    {
        self.position(name).is_some()
    }

    /// Applies a schema operation and says whether it was valid. An
    /// operation that is not valid changes nothing: it is for the caller to
    /// warn of it and go on.
    pub fn apply(&mut self, op: &SchemaOp) -> (r: bool)
        ensures
            r == op_is_valid(old(self)@, op@),
            final(self)@ == schemas_after(old(self)@, op@),
    {
        let ghost before = schema_models(self.schemas@);
        match op {
            SchemaOp::Create { collection, required } => {
                if self.position(collection.as_slice()).is_some() {
                    return false;
                }
                self.schemas.push(
                    CollectionSchema {
                        name: copy_bytes(collection.as_slice()),
                        required: copy_names(required),
                    },
                );
                assert(schema_models(self.schemas@) =~= before.push(
                    SchemaModel { name: collection@, required: names_of(required@) },
                ));
                true
            },
            SchemaOp::Drop { collection } => {
                match self.position(collection.as_slice()) {
                    Some(i) => {
                        self.schemas.remove(i);
                        assert(schema_models(self.schemas@) =~= before.remove(i as int));
                        true
                    },
                    None => false,
                }
            },
            SchemaOp::Rename { from, to } => {
                let at = match self.position(from.as_slice()) {
                    Some(i) => i,
                    None => {
                        return false;
                    },
                };
                if self.position(to.as_slice()).is_some() {
                    return false;
                }
                let required = copy_names(&self.schemas[at].required);
                self.schemas.set(at, CollectionSchema { name: copy_bytes(to.as_slice()), required });
                assert(schema_models(self.schemas@) =~= before.update(
                    at as int,
                    SchemaModel { name: to@, required: before[at as int].required },
                ));
                true
            },
        }
    }

    /// Whether a document fits the schemas.
    pub fn validate(&self, collection: &[u8], doc: &[u8]) -> (r: bool)
        ensures
            r == document_is_valid(self@, collection@, doc@),
    {
        let at = match self.position(collection) {
            Some(i) => i,
            None => {
                return true;
            },
        };
        let schema = &self.schemas[at];
        let ghost required = names_of(schema.required@);
        assert(schema_models(self.schemas@)[at as int] == schema@);
        let mut k: usize = 0;
        while k < schema.required.len()
            invariant
                k <= schema.required@.len(),
                required == names_of(schema.required@),
                schema_at(self@, collection@) == Some(at as int),
                self@[at as int].required == required,
                forall|j: int| 0 <= j < k ==> field_text(doc@, #[trigger] required[j]) is Some,
            decreases schema.required@.len() - k,
        {
            assert(required[k as int] == schema.required@[k as int]@);
            if json_field(doc, schema.required[k].as_slice()).is_none() {
                assert(!holds_fields(doc@, required));
                return false;
            }
            k = k + 1;
        }
        true
    }
}

} // verus!
