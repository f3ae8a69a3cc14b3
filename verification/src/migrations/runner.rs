//! The runner of migrations: it applies what is pending, in the order of the
//! versions, and rolls the last migration back.
//!
//! Migration files are read and parsed by the caller. The runner checks
//! them, decides what is pending, carries the operations out through the
//! executor and keeps the state.

use std::collections::BTreeMap;
use std::time::Instant;
use vstd::prelude::*;
use vstd::std_specs::btree::*;
use vstd::std_specs::iter::IteratorSpec;
use vstd::string::*;
use crate::migrations::checksum::{file_checksum, generate_checksum_for_file};
use crate::migrations::errors::{MigrationError, MigrationResult};
use crate::migrations::operations::OperationExecutor;
use crate::migrations::state::{
    is_highest_applied,
    MigrationRecord,
    MigrationState,
    MigrationStatus,
};
use crate::migrations::{invalid_reason, Migration, MigrationOperation, MigrationVersion};
use crate::seqs::lemma_increasing_numbers;
use crate::text::{char_count, decimal, find_char, owned, push_decimal, same_text, slice_chars};

verus! {

broadcast use vstd::std_specs::btree::group_btree_axioms;

/// A point in time on the monotonic clock.
#[verifier::external_type_specification]
#[verifier::external_body]
pub struct ExInstant(Instant);

/// Reads the monotonic clock with `Instant::now`.
#[verifier::external_body]
fn timer_start() -> (r: Instant) {
    Instant::now()
}

/// The whole milliseconds since `start`, from `Instant::elapsed`, reduced to
/// 64 bits. Nothing is claimed of them.
#[verifier::external_body]
fn elapsed_ms(start: &Instant) -> (r: u64) {
    start.elapsed().as_millis() as u64
}

/// A migration that was applied.
#[derive(Debug, Clone, PartialEq, Eq)]
pub struct AppliedMigration {
    pub version: MigrationVersion,
    pub name: String,
    pub duration_ms: u64,
}

/// A migration that failed.
#[derive(Debug, Clone, PartialEq, Eq)]
pub struct FailedMigration {
    pub version: MigrationVersion,
    pub name: String,
    pub error: String,
}

/// Report of a migration run.
#[derive(Debug, Clone, PartialEq, Eq)]
pub struct MigrationRunReport {
    pub applied: Vec<AppliedMigration>,
    pub failed: Option<FailedMigration>,
}

/// Report on the status of the migrations.
#[derive(Debug)]
pub struct MigrationStatusReport {
    pub current_version: MigrationVersion,
    pub total_migrations: usize,
    pub applied_count: usize,
    pub pending_count: usize,
    pub pending: Vec<Migration>,
}

/// The name that a file's stem gives a migration: what follows the first
/// underscore, or the whole stem where it holds none.
pub open spec fn name_from_stem(stem: Seq<char>) -> Seq<char> {
    if exists|i: int| 0 <= i < stem.len() && stem[i] == '_' {
        let i = choose|i: int|
            0 <= i < stem.len() && stem[i] == '_' && forall|j: int| 0 <= j < i ==> stem[j] != '_';
        stem.skip(i + 1)
    } else {
        stem
    }
}

/// The name that a file's stem gives a migration.
pub fn name_of_stem(stem: &str) -> (r: String)
    ensures
        r@ == name_from_stem(stem@),
{
    match find_char(stem, '_') {
        Some(i) => {
            let n = char_count(stem);
            let tail = slice_chars(stem, i + 1, n);
            proof {
                assert(stem@.subrange(i + 1, n as int) =~= stem@.skip(i + 1));
                let w = choose|w: int|
                    0 <= w < stem@.len() && stem@[w] == '_' && forall|j: int|
                        0 <= j < w ==> stem@[j] != '_';
                assert(w == i) by {
                    if w < i {
                        assert(stem@[w] != '_');
                    }
                    if i < w {
                        assert(stem@[i as int] != '_');
                    }
                }
            }
            owned(tail)
        },
        None => owned(stem),
    }
}

/// Checks a migration that was parsed from a file: a migration without a
/// name takes it from the file's stem; a migration whose checksum is not
/// that of the file's content is refused, unless it has none; and the
/// migration has to be valid.
pub fn check_loaded(migration: Migration, path: &str, stem: &str, content: &str) -> (r:
    MigrationResult<Migration>)
    ensures
        ({
            let name = if migration.name@.len() == 0 {
                name_from_stem(stem@)
            } else {
                migration.name@
            };
            if migration.checksum@.len() != 0 && migration.checksum@ != file_checksum(content@) {
                &&& r is Err
                &&& r->Err_0 is ChecksumMismatch
                &&& r->Err_0->ChecksumMismatch_migration@ == name
                &&& r->Err_0->ChecksumMismatch_expected@ == migration.checksum@
                &&& r->Err_0->ChecksumMismatch_actual@ == file_checksum(content@)
            } else {
                match invalid_reason(migration) {
                    Some(reason) => r is Err && r->Err_0 is InvalidMigration
                        && r->Err_0->InvalidMigration_reason@ == reason,
                    None => {
                        &&& r is Ok
                        &&& r->Ok_0.version == migration.version
                        &&& r->Ok_0.name@ == name
                        &&& r->Ok_0.checksum == migration.checksum
                        &&& r->Ok_0.timestamp == migration.timestamp
                        &&& r->Ok_0.file_path is Some
                        &&& r->Ok_0.file_path->0@ == path@
                        &&& r->Ok_0.up == migration.up
                        &&& r->Ok_0.down == migration.down
                    },
                }
            }
        }),
{
    let mut migration = migration;
    migration.file_path = Some(owned(path));
    if migration.name.as_str().is_empty() {
        migration.name = name_of_stem(stem);
    }
    let computed = generate_checksum_for_file(content);
    if !migration.checksum.as_str().is_empty() && !same_text(
        migration.checksum.as_str(),
        computed.as_str(),
    ) {
        return Err(
            MigrationError::ChecksumMismatch {
                migration: migration.name.clone(),
                expected: migration.checksum.clone(),
                actual: computed,
            },
        );
    }
    match migration.validate() {
        Ok(_) => Ok(migration),
        Err(e) => Err(e),
    }
}

/// The error of an operation that failed while a migration was applied.
pub fn apply_failure(version: MigrationVersion, index: usize, cause: &str) -> (r: MigrationError)
    ensures
        r is ExecutionFailed,
        r->ExecutionFailed_version == version,
        r->ExecutionFailed_operation@ == "operation["@ + decimal(index as nat) + "]"@,
        r->ExecutionFailed_reason@ == cause@,
{
    let mut operation = owned("operation[");
    push_decimal(&mut operation, index as u64);
    operation.append("]");
    MigrationError::ExecutionFailed { version, operation, reason: owned(cause) }
}

/// The text that is recorded for an operation that failed.
pub fn failure_note(index: usize, cause: &str) -> (r: String)
    ensures
        r@ == "Operation "@ + decimal(index as nat) + " failed: "@ + cause@,
{
    let mut note = owned("Operation ");
    push_decimal(&mut note, index as u64);
    note.append(" failed: ");
    note.append(cause);
    note
}

/// The error of an operation that failed while a migration was rolled back.
pub fn rollback_failure(version: MigrationVersion, index: usize, cause: &str) -> (r:
    MigrationError)
    ensures
        r is CannotRollback,
        r->CannotRollback_version == version,
        r->CannotRollback_reason@ == "Down operation "@ + decimal(index as nat) + " failed: "@
            + cause@,
{
    let mut reason = owned("Down operation ");
    push_decimal(&mut reason, index as u64);
    reason.append(" failed: ");
    reason.append(cause);
    MigrationError::CannotRollback { version, reason }
}

/// Whether two of the migrations have the version given.
pub open spec fn occurs_twice(loaded: Seq<Migration>, v: MigrationVersion) -> bool {
    exists|i: int, j: int|
        0 <= i < j < loaded.len() && (#[trigger] loaded[i]).version == v && (
        #[trigger] loaded[j]).version == v
}

/// Whether every migration is kept under its own version, as the runner
/// keeps what it has loaded.
pub open spec fn keyed_by_version(all: Map<MigrationVersion, Migration>) -> bool {
    forall|k: MigrationVersion| all.dom().contains(k) ==> (#[trigger] all[k]).version == k
}

/// Whether the migration of a version is applied.
pub open spec fn is_applied_in(
    records: Map<MigrationVersion, MigrationRecord>,
    v: MigrationVersion,
) -> bool {
    records.dom().contains(v) && records[v].status == MigrationStatus::Applied
}

/// Whether the migration of a version is chosen: it is not applied, and its
/// version is above the floor, where there is one.
pub open spec fn is_chosen(
    records: Map<MigrationVersion, MigrationRecord>,
    floor: Option<MigrationVersion>,
    v: MigrationVersion,
) -> bool {
    !is_applied_in(records, v) && (floor is Some ==> v > floor->Some_0)
}

/// Whether a migration of the version given is among `list`.
pub open spec fn has_version(list: Seq<Migration>, v: MigrationVersion) -> bool {
    exists|i: int| 0 <= i < list.len() && (#[trigger] list[i]).version == v
}

/// Whether `list` holds the chosen migrations of `all`, each once, in the
/// order of their versions. Of a migration in the list the version and the
/// name are those of the migration that `all` holds.
pub open spec fn lists_chosen(
    list: Seq<Migration>,
    all: Map<MigrationVersion, Migration>,
    records: Map<MigrationVersion, MigrationRecord>,
    floor: Option<MigrationVersion>,
) -> bool {
    &&& forall|i: int, j: int| 0 <= i < j < list.len() ==> list[i].version < list[j].version
    &&& forall|i: int|
        0 <= i < list.len() ==> {
            &&& all.dom().contains((#[trigger] list[i]).version)
            &&& is_chosen(records, floor, list[i].version)
            &&& list[i].name == all[list[i].version].name
        }
    &&& forall|v: MigrationVersion|
        all.dom().contains(v) && is_chosen(records, floor, v) ==> #[trigger] has_version(list, v)
}

/// Whether `list` holds the pending migrations of `all` in the order of
/// their versions: those that are not applied and whose version is above
/// the current version, the highest that is applied.
pub open spec fn lists_pending(
    list: Seq<Migration>,
    all: Map<MigrationVersion, Migration>,
    records: Map<MigrationVersion, MigrationRecord>,
) -> bool {
    exists|current: MigrationVersion|
        #[trigger] is_highest_applied(current, records) && lists_chosen(
            list,
            all,
            records,
            Some(current),
        )
}

/// Whether the record of a version is the same in both: there is none, or
/// both hold the same.
pub open spec fn same_at(
    after: Map<MigrationVersion, MigrationRecord>,
    before: Map<MigrationVersion, MigrationRecord>,
    v: MigrationVersion,
) -> bool {
    after.dom().contains(v) == before.dom().contains(v) && (before.dom().contains(v) ==> after[v]
        == before[v])
}

/// Whether the migration of the version given is among the first `n` of
/// `list`.
pub open spec fn is_attempted(list: Seq<Migration>, n: int, v: MigrationVersion) -> bool {
    exists|i: int| 0 <= i < n && i < list.len() && (#[trigger] list[i]).version == v
}

/// Whether a report fits a run over the pending migrations. The migrations
/// are taken in order. Those that succeeded are reported as applied and
/// recorded as such; the first that fails is reported and recorded as
/// failed, and ends the run. Without a failure every pending migration was
/// applied. The records of other versions are as they were.
pub open spec fn run_fits(
    report: MigrationRunReport,
    pending: Seq<Migration>,
    before: Map<MigrationVersion, MigrationRecord>,
    after: Map<MigrationVersion, MigrationRecord>,
) -> bool {
    let n = report.applied@.len() as int;
    &&& n <= pending.len()
    &&& forall|i: int|
        0 <= i < n ==> {
            &&& (#[trigger] report.applied@[i]).version == pending[i].version
            &&& report.applied@[i].name == pending[i].name
            &&& is_applied_in(after, pending[i].version)
        }
    &&& match report.failed {
        None => n == pending.len(),
        Some(failed) => {
            &&& n < pending.len()
            &&& failed.version == pending[n].version
            &&& failed.name == pending[n].name
            &&& after.dom().contains(failed.version)
            &&& after[failed.version].status == MigrationStatus::Failed
        },
    }
    &&& forall|v: MigrationVersion|
        !is_attempted(pending, n + 1, v) ==> #[trigger] same_at(after, before, v)
}

/// Whether the result of a rollback fits the state before it. With no
/// migration applied nothing is done. The migration of the current version
/// has to be among `all`. When each of its operations back succeeds, the
/// migration is reported and recorded as rolled back; when one of them
/// fails, the rollback is refused and the records are as they were.
pub open spec fn rollback_fits(
    result: MigrationResult<Option<AppliedMigration>>,
    current: MigrationVersion,
    all: Map<MigrationVersion, Migration>,
    before: Map<MigrationVersion, MigrationRecord>,
    after: Map<MigrationVersion, MigrationRecord>,
) -> bool {
    if current == 0 {
        result == Ok::<Option<AppliedMigration>, MigrationError>(None) && after == before
    } else if !all.dom().contains(current) {
        result == Err::<Option<AppliedMigration>, MigrationError>(
            MigrationError::MigrationNotFound { version: current },
        ) && after == before
    } else {
        match result {
            Ok(Some(done)) => {
                &&& done.version == all[current].version
                &&& done.name == all[current].name
                &&& after == if before.dom().contains(current) {
                    before.insert(
                        current,
                        MigrationRecord {
                            status: MigrationStatus::RolledBack,
                            ..before[current]
                        },
                    )
                } else {
                    before
                }
            },
            Ok(None) => false,
            Err(e) => {
                &&& e is CannotRollback
                &&& e->CannotRollback_version == all[current].version
                &&& after == before
            },
        }
    }
}

/// Migration runner.
pub struct MigrationRunner<E: OperationExecutor> {
    migrations_dir: String,
    state: MigrationState,
    executor: E,
}

impl<E: OperationExecutor> MigrationRunner<E> {
    /// The directory of the migration files.
    pub closed spec fn spec_dir(&self) -> Seq<char> {
        self.migrations_dir@
    }

    /// The state of the migrations.
    pub closed spec fn spec_state(&self) -> MigrationState {
        self.state
    }

    /// A runner whose state holds the records that were read from the state
    /// file in the data directory.
    pub fn new(migrations_dir: String, data_dir: &str, executor: E, saved: Vec<MigrationRecord>)
        -> (r: Self)
        ensures
            r.spec_dir() == migrations_dir@,
            r.spec_state().records() == crate::migrations::state::records_of(saved@),
            r.spec_state().lock() is None,
    {
        let mut state = MigrationState::new(data_dir);
        state.load(saved);
        MigrationRunner { migrations_dir, state, executor }
    }

    /// The state of the migrations.
    pub fn state(&self) -> (r: &MigrationState)
        ensures
            *r == self.spec_state(),
    {
        &self.state
    }

    /// The executor.
    pub closed spec fn spec_executor(&self) -> E {
        self.executor
    }

    /// The executor.
    pub fn executor(&self) -> (r: &E)
        ensures
            *r == self.spec_executor(),
    {
        &self.executor
    }

    /// Puts the migrations that were read from the directory in the order of
    /// their versions. A directory that does not exist and two migrations of
    /// one version are refused.
    pub fn load_migrations(&self, dir_exists: bool, loaded: Vec<Migration>) -> (r: MigrationResult<
        BTreeMap<MigrationVersion, Migration>,
    >)
        ensures
            !dir_exists ==> r is Err && r->Err_0 is DirectoryNotFound
                && r->Err_0->DirectoryNotFound_path@ == self.spec_dir(),
            dir_exists && (exists|i: int, j: int|
                0 <= i < j < loaded@.len() && loaded@[i].version == loaded@[j].version) ==> r
                is Err && r->Err_0 is DuplicateVersion && occurs_twice(
                loaded@,
                r->Err_0->DuplicateVersion_version,
            ),
            dir_exists && (forall|i: int, j: int|
                0 <= i < j < loaded@.len() ==> loaded@[i].version != loaded@[j].version) ==> {
                &&& r is Ok
                &&& keyed_by_version(r->Ok_0@)
                &&& forall|i: int|
                    0 <= i < loaded@.len() ==> r->Ok_0@.dom().contains(
                        (#[trigger] loaded@[i]).version,
                    ) && r->Ok_0@[loaded@[i].version] == loaded@[i]
                &&& forall|v: MigrationVersion|
                    r->Ok_0@.dom().contains(v) ==> exists|i: int|
                        0 <= i < loaded@.len() && (#[trigger] loaded@[i]).version == v
            },
    {
        if !dir_exists {
            return Err(MigrationError::DirectoryNotFound { path: self.migrations_dir.clone() });
        }
        let ghost all = loaded@;
        let mut rest = loaded;
        let mut migrations: BTreeMap<MigrationVersion, Migration> = BTreeMap::new();
        while rest.len() > 0
            invariant
                dir_exists,
                all == loaded@,
                rest@.len() <= all.len(),
                rest@ == all.take(rest@.len() as int),
                forall|i: int|
                    rest@.len() <= i < all.len() ==> migrations@.dom().contains(
                        (#[trigger] all[i]).version,
                    ) && migrations@[all[i].version] == all[i],
                forall|v: MigrationVersion|
                    migrations@.dom().contains(v) ==> exists|i: int|
                        rest@.len() <= i < all.len() && (#[trigger] all[i]).version == v,
                forall|i: int, j: int|
                    rest@.len() <= i < j < all.len() ==> all[i].version != all[j].version,
                keyed_by_version(migrations@),
            decreases rest@.len(),
        {
            let ghost n = rest@.len() as int;
            let migration = rest.pop().unwrap();
            assert(migration == all[n - 1]);
            assert(rest@ =~= all.take(n - 1));
            if migrations.contains_key(&migration.version) {
                proof {
                    let j = choose|j: int|
                        n <= j < all.len() && (#[trigger] all[j]).version == migration.version;
                    assert(all[n - 1].version == all[j].version);
                    assert(loaded@[n - 1].version == loaded@[j].version);
                    assert(occurs_twice(loaded@, migration.version));
                }
                return Err(MigrationError::DuplicateVersion { version: migration.version });
            }
            let ghost before = migrations@;
            migrations.insert(migration.version, migration);
            proof {
                assert forall|i: int| n - 1 <= i < all.len() implies migrations@.dom().contains(
                    (#[trigger] all[i]).version,
                ) && migrations@[all[i].version] == all[i] by {
                    if i >= n {
                        assert(before.dom().contains(all[i].version));
                        if all[i].version == all[n - 1].version {
                            assert(false);
                        }
                    }
                }
                assert forall|v: MigrationVersion| migrations@.dom().contains(v) implies exists|
                    i: int,
                | n - 1 <= i < all.len() && (#[trigger] all[i]).version == v by {
                    if v == all[n - 1].version {
                        assert(all[n - 1].version == v);
                    } else {
                        assert(before.dom().contains(v));
                        let i = choose|i: int| n <= i < all.len() && (#[trigger] all[i]).version == v;
                        assert(all[i].version == v);
                    }
                }
                assert forall|i: int, j: int| n - 1 <= i < j < all.len() implies all[i].version
                    != all[j].version by {
                    if i == n - 1 {
                        assert(before.dom().contains(all[j].version));
                    }
                }
            }
        }
        assert(rest@.len() == 0);
        Ok(migrations)
    }

    /// The chosen migrations of `all`, in the order of their versions.
    fn select(&self, all: &BTreeMap<MigrationVersion, Migration>, floor: Option<MigrationVersion>)
        -> (r: Vec<Migration>)
        ensures
            keyed_by_version(all@) ==> lists_chosen(r@, all@, self.spec_state().records(), floor),
    {
        let mut out: Vec<Migration> = Vec::new();
        let values = all.values();
        let ghost listed = values.remaining();
        let ghost records = self.state.records();
        let ghost keys = choose|keys: Seq<MigrationVersion>|
            {
                &&& increasing_seq(keys)
                &&& keys.to_set() == all@.dom()
                &&& keys.no_duplicates()
                &&& listed == keys.map(|i: int, k: MigrationVersion| &all@[k])
            };
        proof {
            assert forall|k: int| 0 <= k < keys.len() implies all@.dom().contains(
                #[trigger] keys[k],
            ) by {
                assert(keys.to_set().contains(keys[k]));
            }
            lemma_increasing_numbers(keys);
        }
        for migration in it: values
            invariant
                it.seq() == listed,
                records == self.state.records(),
                forall|i: int, j: int| 0 <= i < j < keys.len() ==> keys[i] < keys[j],
                listed == keys.map(|i: int, k: MigrationVersion| &all@[k]),
                forall|k: int| 0 <= k < keys.len() ==> all@.dom().contains(#[trigger] keys[k]),
                keyed_by_version(all@) ==> {
                    &&& forall|i: int, j: int|
                        0 <= i < j < out@.len() ==> out@[i].version < out@[j].version
                    &&& forall|i: int|
                        0 <= i < out@.len() ==> {
                            &&& all@.dom().contains((#[trigger] out@[i]).version)
                            &&& is_chosen(records, floor, out@[i].version)
                            &&& out@[i].name == all@[out@[i].version].name
                            &&& exists|k: int| 0 <= k < it.index() && keys[k] == out@[i].version
                        }
                    &&& forall|k: int|
                        0 <= k < it.index() && is_chosen(records, floor, #[trigger] keys[k])
                            ==> has_version(out@, keys[k])
                },
        {
            let ghost at = it.index();
            assert(*migration == all@[keys[at]]);
            let above = match floor {
                Some(f) => migration.version > f,
                None => true,
            };
            if above && !self.state.is_applied(migration.version) {
                let ghost before = out@;
                let copy = copy_migration(migration);
                out.push(copy);
                proof {
                    if keyed_by_version(all@) {
                        assert(migration.version == keys[at]);
                        assert forall|i: int, j: int| 0 <= i < j < out@.len() implies out@[i].version
                            < out@[j].version by {
                            assert(out@[i] == before[i]);
                            if j < before.len() {
                                assert(out@[j] == before[j]);
                            } else {
                                let k = choose|k: int| 0 <= k < at && keys[k] == before[i].version;
                                assert(keys[k] < keys[at]);
                            }
                        }
                        assert forall|i: int| 0 <= i < out@.len() implies {
                            &&& all@.dom().contains((#[trigger] out@[i]).version)
                            &&& is_chosen(records, floor, out@[i].version)
                            &&& out@[i].name == all@[out@[i].version].name
                            &&& exists|k: int| 0 <= k < at + 1 && keys[k] == out@[i].version
                        } by {
                            if i < before.len() {
                                assert(out@[i] == before[i]);
                                let k = choose|k: int| 0 <= k < at && keys[k] == before[i].version;
                                assert(keys[k] == out@[i].version);
                            } else {
                                assert(keys[at] == out@[i].version);
                            }
                        }
                        assert forall|k: int|
                            0 <= k < at + 1 && is_chosen(
                                records,
                                floor,
                                #[trigger] keys[k],
                            ) implies has_version(out@, keys[k]) by {
                            if k < at {
                                assert(has_version(before, keys[k]));
                                let i = choose|i: int|
                                    0 <= i < before.len() && (#[trigger] before[i]).version
                                        == keys[k];
                                assert(out@[i].version == keys[k]);
                            } else {
                                assert(out@[before.len() as int].version == keys[k]);
                            }
                        }
                    }
                }
            } else {
                proof {
                    if keyed_by_version(all@) {
                        assert(migration.version == keys[at]);
                        assert(!is_chosen(records, floor, keys[at]));
                    }
                }
            }
        }
        proof {
            if keyed_by_version(all@) {
                assert forall|v: MigrationVersion|
                    all@.dom().contains(v) && is_chosen(
                        records,
                        floor,
                        v,
                    ) implies #[trigger] has_version(out@, v) by {
                    assert(keys.to_set().contains(v));
                    let k = choose|k: int| 0 <= k < keys.len() && keys[k] == v;
                    assert(has_version(out@, keys[k]));
                }
            }
        }
        out
    }

    /// The migrations that are pending, in the order of their versions:
    /// those above the current version that are not applied.
    pub fn get_pending(&self, all: &BTreeMap<MigrationVersion, Migration>) -> (r: Vec<Migration>)
        ensures
            keyed_by_version(all@) ==> lists_pending(r@, all@, self.spec_state().records()),
    {
        let current = self.state.current_version();
        self.select(all, Some(current))
    }

    /// The status of the migrations: the current version, how many
    /// migrations there are, how many are applied, and which are not.
    pub fn status(&self, all: &BTreeMap<MigrationVersion, Migration>) -> (r:
        MigrationStatusReport)
        ensures
            is_highest_applied(r.current_version, self.spec_state().records()),
            r.total_migrations == all@.dom().len(),
            r.pending_count == r.pending@.len(),
            keyed_by_version(all@) ==> lists_chosen(
                r.pending@,
                all@,
                self.spec_state().records(),
                None,
            ),
    {
        let applied = self.state.get_applied();
        let current = self.state.current_version();
        let pending = self.select(all, None);
        MigrationStatusReport {
            current_version: current,
            total_migrations: all.len(),
            applied_count: applied.len(),
            pending_count: pending.len(),
            pending,
        }
    }

    /// Applies the pending migrations in the order of their versions, under
    /// the lock, and stops at the first that fails. A lock that is held is
    /// an error; a migration that fails is part of the report.
    pub fn migrate_up(
        &mut self,
        all: &BTreeMap<MigrationVersion, Migration>,
        holder: String,
        now: &str,
    ) -> (r: MigrationResult<MigrationRunReport>)
        ensures
            final(self).spec_dir() == old(self).spec_dir(),
            final(self).spec_state().spec_state_file() == old(self).spec_state().spec_state_file(),
            match old(self).spec_state().lock() {
                Some(held) => {
                    &&& r == Err::<MigrationRunReport, MigrationError>(
                        MigrationError::MigrationLocked { holder: held.0, since: held.1 },
                    )
                    &&& final(self).spec_state().lock() == old(self).spec_state().lock()
                    &&& final(self).spec_state().records() == old(self).spec_state().records()
                },
                None => {
                    &&& r is Ok
                    &&& final(self).spec_state().lock() is None
                    &&& keyed_by_version(all@) ==> exists|pending: Seq<Migration>|
                        {
                            &&& #[trigger] lists_pending(
                                pending,
                                all@,
                                old(self).spec_state().records(),
                            )
                            &&& run_fits(
                                r->Ok_0,
                                pending,
                                old(self).spec_state().records(),
                                final(self).spec_state().records(),
                            )
                        }
                },
            },
    {
        match self.state.acquire_lock(holder, owned(now)) {
            Err(e) => {
                return Err(e);
            },
            Ok(_) => {},
        }
        let report = self.migrate_up_internal(all, now);
        self.state.release_lock();
        Ok(report)
    }

    fn migrate_up_internal(&mut self, all: &BTreeMap<MigrationVersion, Migration>, now: &str) -> (r:
        MigrationRunReport)
        ensures
            final(self).spec_dir() == old(self).spec_dir(),
            final(self).spec_state().same_frame(&old(self).spec_state()),
            keyed_by_version(all@) ==> exists|pending: Seq<Migration>|
                {
                    &&& #[trigger] lists_pending(pending, all@, old(self).spec_state().records())
                    &&& run_fits(
                        r,
                        pending,
                        old(self).spec_state().records(),
                        final(self).spec_state().records(),
                    )
                },
    {
        let pending = self.get_pending(all);
        let ghost before = self.state.records();
        let mut applied: Vec<AppliedMigration> = Vec::new();
        let mut i: usize = 0;
        while i < pending.len()
            invariant
                i <= pending@.len(),
                applied@.len() == i,
                self.spec_dir() == old(self).spec_dir(),
                self.spec_state().same_frame(&old(self).spec_state()),
                before == old(self).spec_state().records(),
                keyed_by_version(all@) ==> lists_pending(pending@, all@, before),
                forall|k: int|
                    0 <= k < i ==> {
                        &&& (#[trigger] applied@[k]).version == pending@[k].version
                        &&& applied@[k].name == pending@[k].name
                    },
                keyed_by_version(all@) ==> forall|k: int|
                    0 <= k < i ==> is_applied_in(
                        self.spec_state().records(),
                        (#[trigger] pending@[k]).version,
                    ),
                forall|v: MigrationVersion|
                    !is_attempted(pending@, i as int, v) ==> #[trigger] same_at(
                        self.spec_state().records(),
                        before,
                        v,
                    ),
            decreases pending@.len() - i,
        {
            let ghost was = self.state.records();
            let ghost done = applied@;
            let outcome = self.apply_migration(&pending[i], now);
            proof {
                let now_records = self.state.records();
                let version = pending@[i as int].version;
                assert(is_attempted(pending@, i + 1, version));
                assert forall|v: MigrationVersion|
                    !is_attempted(pending@, i + 1, v) implies #[trigger] same_at(
                    now_records,
                    before,
                    v,
                ) by {
                    assert(v != version);
                    if is_attempted(pending@, i as int, v) {
                        let k = choose|k: int|
                            0 <= k < i && k < pending@.len() && (#[trigger] pending@[k]).version
                                == v;
                        assert(is_attempted(pending@, i + 1, pending@[k].version));
                    }
                    assert(same_at(was, before, v));
                    assert(same_at(now_records, was, v));
                }
                if keyed_by_version(all@) {
                    assert forall|k: int| 0 <= k < i implies is_applied_in(
                        now_records,
                        (#[trigger] pending@[k]).version,
                    ) by {
                        let c = choose|c: MigrationVersion|
                            #[trigger] is_highest_applied(c, before) && lists_chosen(
                                pending@,
                                all@,
                                before,
                                Some(c),
                            );
                        assert(lists_chosen(pending@, all@, before, Some(c)));
                        assert(pending@[k].version < pending@[i as int].version);
                        assert(is_applied_in(was, pending@[k].version));
                        assert(same_at(now_records, was, pending@[k].version));
                    }
                }
            }
            match outcome {
                Ok(duration_ms) => {
                    applied.push(
                        AppliedMigration {
                            version: pending[i].version,
                            name: pending[i].name.clone(),
                            duration_ms,
                        },
                    );
                    proof {
                        assert forall|k: int| 0 <= k < i + 1 implies {
                            &&& (#[trigger] applied@[k]).version == pending@[k].version
                            &&& applied@[k].name == pending@[k].name
                        } by {
                            if k < i {
                                assert(applied@[k] == done[k]);
                            }
                        }
                    }
                },
                Err(e) => {
                    let report = MigrationRunReport {
                        applied,
                        failed: Some(
                            FailedMigration {
                                version: pending[i].version,
                                name: pending[i].name.clone(),
                                error: e.to_string(),
                            },
                        ),
                    };
                    proof {
                        if keyed_by_version(all@) {
                            assert(run_fits(report, pending@, before, self.state.records()));
                        }
                    }
                    return report;
                },
            }
            i = i + 1;
        }
        let report = MigrationRunReport { applied, failed: None };
        proof {
            if keyed_by_version(all@) {
                assert forall|v: MigrationVersion|
                    !is_attempted(pending@, i + 1, v) implies #[trigger] same_at(
                    self.state.records(),
                    before,
                    v,
                ) by {
                    if is_attempted(pending@, i as int, v) {
                        let k = choose|k: int|
                            0 <= k < i && k < pending@.len() && (#[trigger] pending@[k]).version
                                == v;
                        assert(is_attempted(pending@, i + 1, pending@[k].version));
                    }
                }
                assert(run_fits(report, pending@, before, self.state.records()));
            }
        }
        report
    }

    /// Applies one migration: it is recorded as running, its operations
    /// forward are carried out in order, and it is recorded as applied, or
    /// as failed at the first operation that the executor refuses.
    fn apply_migration(&mut self, migration: &Migration, now: &str) -> (r: MigrationResult<u64>)
        ensures
            final(self).spec_dir() == old(self).spec_dir(),
            final(self).spec_state().same_frame(&old(self).spec_state()),
            forall|v: MigrationVersion|
                v != migration.version ==> #[trigger] same_at(
                    final(self).spec_state().records(),
                    old(self).spec_state().records(),
                    v,
                ),
            final(self).spec_state().records().dom().contains(migration.version),
            final(self).spec_state().records()[migration.version].status == if r is Ok {
                MigrationStatus::Applied
            } else {
                MigrationStatus::Failed
            },
    {
        let start = timer_start();
        self.state.record_start(
            migration.version,
            migration.name.clone(),
            migration.checksum.clone(),
            owned(now),
        );
        let ghost started = self.state.records();
        assert forall|v: MigrationVersion| v != migration.version implies #[trigger] same_at(
            started,
            old(self).spec_state().records(),
            v,
        ) by {}
        let mut i: usize = 0;
        while i < migration.up.len()
            invariant
                i <= migration.up@.len(),
                self.spec_dir() == old(self).spec_dir(),
                self.spec_state().same_frame(&old(self).spec_state()),
                self.spec_state().records() == started,
                started.dom().contains(migration.version),
                forall|v: MigrationVersion|
                    v != migration.version ==> #[trigger] same_at(
                        started,
                        old(self).spec_state().records(),
                        v,
                    ),
            decreases migration.up@.len() - i,
        {
            match self.executor.execute(&migration.up[i]) {
                Ok(_) => {},
                Err(e) => {
                    let duration_ms = elapsed_ms(&start);
                    let cause = e.to_string();
                    self.state.record_failure(
                        migration.version,
                        failure_note(i, cause.as_str()),
                        duration_ms,
                    );
                    proof {
                        let ended = self.state.records();
                        assert forall|v: MigrationVersion|
                            v != migration.version implies #[trigger] same_at(
                            ended,
                            old(self).spec_state().records(),
                            v,
                        ) by {
                            assert(same_at(started, old(self).spec_state().records(), v));
                        }
                    }
                    return Err(apply_failure(migration.version, i, cause.as_str()));
                },
            }
            i = i + 1;
        }
        let duration_ms = elapsed_ms(&start);
        self.state.record_success(migration.version, duration_ms);
        proof {
            let ended = self.state.records();
            assert forall|v: MigrationVersion| v != migration.version implies #[trigger] same_at(
                ended,
                old(self).spec_state().records(),
                v,
            ) by {
                assert(same_at(started, old(self).spec_state().records(), v));
            }
        }
        Ok(duration_ms)
    }

    /// Rolls the current migration back, under the lock: nothing when no
    /// migration is applied.
    pub fn migrate_down(
        &mut self,
        all: &BTreeMap<MigrationVersion, Migration>,
        holder: String,
        now: &str,
    ) -> (r: MigrationResult<Option<AppliedMigration>>)
        ensures
            final(self).spec_dir() == old(self).spec_dir(),
            final(self).spec_state().spec_state_file() == old(self).spec_state().spec_state_file(),
            match old(self).spec_state().lock() {
                Some(held) => {
                    &&& r == Err::<Option<AppliedMigration>, MigrationError>(
                        MigrationError::MigrationLocked { holder: held.0, since: held.1 },
                    )
                    &&& final(self).spec_state().lock() == old(self).spec_state().lock()
                    &&& final(self).spec_state().records() == old(self).spec_state().records()
                },
                None => {
                    &&& final(self).spec_state().lock() is None
                    &&& exists|current: MigrationVersion|
                        {
                            &&& #[trigger] is_highest_applied(
                                current,
                                old(self).spec_state().records(),
                            )
                            &&& rollback_fits(
                                r,
                                current,
                                all@,
                                old(self).spec_state().records(),
                                final(self).spec_state().records(),
                            )
                        }
                },
            },
    {
        match self.state.acquire_lock(holder, owned(now)) {
            Err(e) => {
                return Err(e);
            },
            Ok(_) => {},
        }
        let result = self.migrate_down_internal(all);
        self.state.release_lock();
        result
    }

    fn migrate_down_internal(&mut self, all: &BTreeMap<MigrationVersion, Migration>) -> (r:
        MigrationResult<Option<AppliedMigration>>)
        ensures
            final(self).spec_dir() == old(self).spec_dir(),
            final(self).spec_state().same_frame(&old(self).spec_state()),
            exists|current: MigrationVersion|
                {
                    &&& #[trigger] is_highest_applied(current, old(self).spec_state().records())
                    &&& rollback_fits(
                        r,
                        current,
                        all@,
                        old(self).spec_state().records(),
                        final(self).spec_state().records(),
                    )
                },
    {
        let ghost before = self.state.records();
        let current = self.state.current_version();
        if current == 0 {
            let r = Ok(None);
            assert(is_highest_applied(current, old(self).spec_state().records()));
            assert(rollback_fits(r, current, all@, before, self.state.records()));
            return r;
        }
        let migration = match all.get(&current) {
            Some(m) => m,
            None => {
                let r = Err(MigrationError::MigrationNotFound { version: current });
                assert(rollback_fits(r, current, all@, before, self.state.records()));
                return r;
            },
        };
        assert(all@.dom().contains(current) && *migration == all@[current]);
        let start = timer_start();
        let mut i: usize = 0;
        while i < migration.down.len()
            invariant
                i <= migration.down@.len(),
                self.spec_dir() == old(self).spec_dir(),
                self.spec_state() == old(self).spec_state(),
                before == old(self).spec_state().records(),
                current != 0,
                is_highest_applied(current, before),
                all@.dom().contains(current),
                *migration == all@[current],
            decreases migration.down@.len() - i,
        {
            match self.executor.execute(&migration.down[i]) {
                Ok(_) => {},
                Err(e) => {
                    let cause = e.to_string();
                    let r = Err(rollback_failure(migration.version, i, cause.as_str()));
                    assert(rollback_fits(r, current, all@, before, self.state.records()));
                    return r;
                },
            }
            i = i + 1;
        }
        let duration_ms = elapsed_ms(&start);
        self.state.record_rollback(current);
        let r = Ok(
            Some(
                AppliedMigration {
                    version: migration.version,
                    name: migration.name.clone(),
                    duration_ms,
                },
            ),
        );
        assert(rollback_fits(r, current, all@, before, self.state.records()));
        r
    }
}

/// A copy of a migration, with its version and its name.
fn copy_migration(migration: &Migration) -> (r: Migration)
    ensures
        r.version == migration.version,
        r.name == migration.name,
{
    let mut copy = migration.clone();
    copy.version = migration.version;
    copy.name = migration.name.clone();
    copy
}

} // verus!
