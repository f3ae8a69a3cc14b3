//! The execution of migration operations.

use vstd::prelude::*;
use vstd::string::*;
use crate::migrations::errors::{MigrationError, MigrationResult};
use crate::migrations::MigrationOperation;
use crate::text::{insert_text, owned, position_of_text, remove_text, text_set};

verus! {

/// What carries out the operations of a migration.
pub trait OperationExecutor {
    /// Carries out one operation.
    fn execute(&mut self, operation: &MigrationOperation) -> MigrationResult<()>;

    /// Whether a collection exists.
    fn collection_exists(&self, name: &str) -> MigrationResult<bool>;

    /// Whether an index exists on a collection.
    fn index_exists(&self, collection: &str, name: &str) -> MigrationResult<bool>;
}

/// The texts joined by underscores.
pub open spec fn joined_by_underscore(parts: Seq<String>) -> Seq<char>
    decreases parts.len(),
{
    if parts.len() == 0 {
        Seq::<char>::empty()
    } else if parts.len() == 1 {
        parts[0]@
    } else {
        joined_by_underscore(parts.drop_last()) + "_"@ + parts.last()@
    }
}

/// The name of an index: the name given, else its fields joined by
/// underscores.
pub open spec fn index_name_of(name: Option<String>, fields: Seq<String>) -> Seq<char> {
    match name {
        Some(n) => n@,
        None => joined_by_underscore(fields),
    }
}

/// The key under which an index is kept: the collection, a dot, the name.
pub open spec fn index_key(collection: Seq<char>, name: Seq<char>) -> Seq<char> {
    collection + "."@ + name
}

/// What an executor in memory knows: the names of the collections and the
/// keys of the indexes.
pub struct ExecutorModel {
    pub collections: Set<Seq<char>>,
    pub indexes: Set<Seq<char>>,
}

/// Why an operation fails: the operation's name and the reason.
pub struct Refusal {
    pub operation: Seq<char>,
    pub reason: Seq<char>,
}

/// The message that a collection exists already.
pub open spec fn exists_already(name: Seq<char>) -> Seq<char> {
    "Collection '"@ + name + "' already exists"@
}

/// The message that a collection does not exist.
pub open spec fn does_not_exist(name: Seq<char>) -> Seq<char> {
    "Collection '"@ + name + "' does not exist"@
}

/// What an operation does to an executor in memory: the state after it, or
/// why it fails. Collections are created unless they exist, dropped and
/// renamed only if they exist; indexes likewise; operations on fields need
/// their collection; a raw operation does nothing.
pub open spec fn executed(s: ExecutorModel, op: MigrationOperation) -> Result<
    ExecutorModel,
    Refusal,
> {
    match op {
        MigrationOperation::CreateCollection { name, schema } => if s.collections.contains(name@) {
            Err(Refusal { operation: "create_collection"@, reason: exists_already(name@) })
        } else {
            Ok(ExecutorModel { collections: s.collections.insert(name@), ..s })
        },
        MigrationOperation::DropCollection { name } => if !s.collections.contains(name@) {
            Err(Refusal { operation: "drop_collection"@, reason: does_not_exist(name@) })
        } else {
            Ok(ExecutorModel { collections: s.collections.remove(name@), ..s })
        },
        MigrationOperation::CreateIndex { collection, fields, unique, name } => {
            let index = index_name_of(name, fields@);
            if s.indexes.contains(index_key(collection@, index)) {
                Err(
                    Refusal {
                        operation: "create_index"@,
                        reason: "Index '"@ + index + "' already exists on '"@ + collection@ + "'"@,
                    },
                )
            } else {
                Ok(ExecutorModel { indexes: s.indexes.insert(index_key(collection@, index)), ..s })
            }
        },
        MigrationOperation::DropIndex { collection, name } => if !s.indexes.contains(
            index_key(collection@, name@),
        ) {
            Err(
                Refusal {
                    operation: "drop_index"@,
                    reason: "Index '"@ + name@ + "' does not exist on '"@ + collection@ + "'"@,
                },
            )
        } else {
            Ok(ExecutorModel { indexes: s.indexes.remove(index_key(collection@, name@)), ..s })
        },
        MigrationOperation::AddField { collection, field, field_type, required, default } => if !s.collections.contains(
            collection@,
        ) {
            Err(Refusal { operation: "add_field"@, reason: does_not_exist(collection@) })
        } else {
            Ok(s)
        },
        MigrationOperation::RemoveField { collection, field } => if !s.collections.contains(
            collection@,
        ) {
            Err(Refusal { operation: "remove_field"@, reason: does_not_exist(collection@) })
        } else {
            Ok(s)
        },
        MigrationOperation::RenameField { collection, from, to } => if !s.collections.contains(
            collection@,
        ) {
            Err(Refusal { operation: "rename_field"@, reason: does_not_exist(collection@) })
        } else {
            Ok(s)
        },
        MigrationOperation::RenameCollection { from, to } => if !s.collections.contains(from@) {
            Err(Refusal { operation: "rename_collection"@, reason: does_not_exist(from@) })
        } else if s.collections.contains(to@) {
            Err(Refusal { operation: "rename_collection"@, reason: exists_already(to@) })
        } else {
            Ok(ExecutorModel { collections: s.collections.remove(from@).insert(to@), ..s })
        },
        MigrationOperation::Raw { operation } => Ok(s),
    }
}

/// Whether `r` reports the refusal given.
pub open spec fn is_refusal(r: MigrationResult<()>, refusal: Refusal) -> bool {
    &&& r is Err
    &&& r->Err_0 is ExecutionFailed
    &&& r->Err_0->ExecutionFailed_version == 0
    &&& r->Err_0->ExecutionFailed_operation@ == refusal.operation
    &&& r->Err_0->ExecutionFailed_reason@ == refusal.reason
}

/// In-memory executor, for tests and for runs that change no database.
#[derive(Debug)]
pub struct InMemoryExecutor {
    collections: Vec<String>,
    indexes: Vec<String>,
}

fn join_underscore(parts: &Vec<String>) -> (r: String)
    ensures
        r@ == joined_by_underscore(parts@),
{
    let mut out = String::new();
    let mut i: usize = 0;
    assert(parts@.take(0) =~= Seq::<String>::empty());
    while i < parts.len()
        invariant
            i <= parts@.len(),
            out@ == joined_by_underscore(parts@.take(i as int)),
        decreases parts@.len() - i,
    {
        if i > 0 {
            out.append("_");
        }
        out.append(parts[i].as_str());
        proof {
            let next = parts@.take(i + 1);
            assert(next.drop_last() =~= parts@.take(i as int));
            assert(next.last() == parts@[i as int]);
            if i == 0 {
                assert(next[0] == parts@[0]);
                assert(out@ =~= parts@[0]@);
            }
        }
        i = i + 1;
    }
    assert(parts@.take(parts@.len() as int) =~= parts@);
    out
}

fn key_of(collection: &str, name: &str) -> (r: String)
    ensures
        r@ == index_key(collection@, name@),
{
    let mut key = owned(collection);
    key.append(".");
    key.append(name);
    key
}

fn refuse(operation: &str, reason: String) -> (r: MigrationResult<()>)
    ensures
        is_refusal(r, Refusal { operation: operation@, reason: reason@ }),
{
    Err(MigrationError::ExecutionFailed { version: 0, operation: owned(operation), reason })
}

fn missing(name: &str) -> (r: String)
    ensures
        r@ == does_not_exist(name@),
{
    let mut out = owned("Collection '");
    out.append(name);
    out.append("' does not exist");
    out
}

fn present(name: &str) -> (r: String)
    ensures
        r@ == exists_already(name@),
{
    let mut out = owned("Collection '");
    out.append(name);
    out.append("' already exists");
    out
}

impl InMemoryExecutor {
    /// What the executor knows.
    pub closed spec fn model(&self) -> ExecutorModel {
        ExecutorModel {
            collections: text_set(self.collections@),
            indexes: text_set(self.indexes@),
        }
    }

    /// An executor that knows no collection and no index.
    pub fn new() -> (r: Self)
        ensures
            r.model().collections == Set::<Seq<char>>::empty(),
            r.model().indexes == Set::<Seq<char>>::empty(),
    {
        let r = InMemoryExecutor { collections: Vec::new(), indexes: Vec::new() };
        assert(text_set(r.collections@) =~= Set::<Seq<char>>::empty());
        assert(text_set(r.indexes@) =~= Set::<Seq<char>>::empty());
        r
    }

    fn needs_collection(&self, operation: &str, collection: &str) -> (r: MigrationResult<()>)
        ensures
            self.model().collections.contains(collection@) ==> r is Ok,
            !self.model().collections.contains(collection@) ==> is_refusal(
                r,
                Refusal { operation: operation@, reason: does_not_exist(collection@) },
            ),
    {
        if position_of_text(&self.collections, collection).is_none() {
            return refuse(operation, missing(collection));
        }
        Ok(())
    }
}

impl Default for InMemoryExecutor {
    fn default() -> (r: Self)
        ensures
            r.model().collections == Set::<Seq<char>>::empty(),
            r.model().indexes == Set::<Seq<char>>::empty(),
    {
        InMemoryExecutor::new()
    }
}

impl OperationExecutor for InMemoryExecutor {
    fn execute(&mut self, operation: &MigrationOperation) -> (r: MigrationResult<()>)
        ensures
            match executed(old(self).model(), *operation) {
                Ok(after) => r is Ok && final(self).model() == after,
                Err(refusal) => is_refusal(r, refusal) && final(self).model() == old(self).model(),
            },
    {
        match operation {
            MigrationOperation::CreateCollection { name, schema } => {
                if position_of_text(&self.collections, name.as_str()).is_some() {
                    return refuse("create_collection", present(name.as_str()));
                }
                insert_text(&mut self.collections, name.clone());
                Ok(())
            },
            MigrationOperation::DropCollection { name } => {
                if position_of_text(&self.collections, name.as_str()).is_none() {
                    return refuse("drop_collection", missing(name.as_str()));
                }
                remove_text(&mut self.collections, name.as_str());
                Ok(())
            },
            MigrationOperation::CreateIndex { collection, fields, unique, name } => {
                let index_name = match name {
                    Some(n) => n.clone(),
                    None => join_underscore(fields),
                };
                let key = key_of(collection.as_str(), index_name.as_str());
                if position_of_text(&self.indexes, key.as_str()).is_some() {
                    let mut reason = owned("Index '");
                    reason.append(index_name.as_str());
                    reason.append("' already exists on '");
                    reason.append(collection.as_str());
                    reason.append("'");
                    return refuse("create_index", reason);
                }
                insert_text(&mut self.indexes, key);
                Ok(())
            },
            MigrationOperation::DropIndex { collection, name } => {
                let key = key_of(collection.as_str(), name.as_str());
                if position_of_text(&self.indexes, key.as_str()).is_none() {
                    let mut reason = owned("Index '");
                    reason.append(name.as_str());
                    reason.append("' does not exist on '");
                    reason.append(collection.as_str());
                    reason.append("'");
                    return refuse("drop_index", reason);
                }
                remove_text(&mut self.indexes, key.as_str());
                Ok(())
            },
            MigrationOperation::AddField { collection, field, field_type, required, default } => {
                self.needs_collection("add_field", collection.as_str())
            },
            MigrationOperation::RemoveField { collection, field } => {
                self.needs_collection("remove_field", collection.as_str())
            },
            MigrationOperation::RenameField { collection, from, to } => {
                self.needs_collection("rename_field", collection.as_str())
            },
            MigrationOperation::RenameCollection { from, to } => {
                if position_of_text(&self.collections, from.as_str()).is_none() {
                    return refuse("rename_collection", missing(from.as_str()));
                }
                if position_of_text(&self.collections, to.as_str()).is_some() {
                    return refuse("rename_collection", present(to.as_str()));
                }
                remove_text(&mut self.collections, from.as_str());
                insert_text(&mut self.collections, to.clone());
                Ok(())
            },
            MigrationOperation::Raw { operation } => Ok(()),
        }
    }

    fn collection_exists(&self, name: &str) -> (r: MigrationResult<bool>)
        ensures
            r == Ok::<bool, MigrationError>(self.model().collections.contains(name@)),
    {
        Ok(position_of_text(&self.collections, name).is_some())
    }

    fn index_exists(&self, collection: &str, name: &str) -> (r: MigrationResult<bool>)
        ensures
            r == Ok::<bool, MigrationError>(
                self.model().indexes.contains(index_key(collection@, name@)),
            ),
    {
        let key = key_of(collection, name);
        Ok(position_of_text(&self.indexes, key.as_str()).is_some())
    }
}

} // verus!
