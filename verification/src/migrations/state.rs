//! The state of migrations: which were applied, and who runs them now.

use std::collections::BTreeMap;
use vstd::prelude::*;
use vstd::std_specs::btree::*;
use vstd::std_specs::iter::IteratorSpec;
use crate::migrations::errors::{MigrationError, MigrationResult};
use crate::migrations::MigrationVersion;

verus! {

broadcast use vstd::std_specs::btree::group_btree_axioms;

/// Status of a migration.
#[derive(Debug, Clone, Copy, PartialEq, Eq, Structural)]
pub enum MigrationStatus {
    Pending,
    Running,
    Applied,
    Failed,
    RolledBack,
}

/// Record of a migration that was run. Times are texts in RFC 3339 form.
#[derive(Debug, Clone, PartialEq, Eq)]
pub struct MigrationRecord {
    pub version: MigrationVersion,
    pub name: String,
    pub checksum: String,
    pub status: MigrationStatus,
    pub applied_at: Option<String>,
    pub duration_ms: Option<u64>,
    pub error: Option<String>,
    pub applied_by: Option<String>,
}

fn copy_text(text: &Option<String>) -> (r: Option<String>)
    ensures
        r == *text,
{
    match text {
        Some(s) => Some(s.clone()),
        None => None,
    }
}

impl MigrationRecord {
    /// An equal record.
    pub fn duplicate(&self) -> (r: Self)
        ensures
            r == *self,
    {
        MigrationRecord {
            version: self.version,
            name: self.name.clone(),
            checksum: self.checksum.clone(),
            status: self.status,
            applied_at: copy_text(&self.applied_at),
            duration_ms: self.duration_ms,
            error: copy_text(&self.error),
            applied_by: copy_text(&self.applied_by),
        }
    }
}

/// The records by their versions; of two records of one version the later
/// stays.
pub open spec fn records_of(saved: Seq<MigrationRecord>) -> Map<MigrationVersion, MigrationRecord>
    decreases saved.len(),
{
    if saved.len() == 0 {
        Map::empty()
    } else {
        records_of(saved.drop_last()).insert(saved.last().version, saved.last())
    }
}

/// Whether `v` is the highest version among the applied records of `m`, or 0
/// when none is applied.
pub open spec fn is_highest_applied(
    v: MigrationVersion,
    m: Map<MigrationVersion, MigrationRecord>,
) -> bool {
    &&& forall|k: MigrationVersion|
        m.dom().contains(k) && (#[trigger] m[k]).status == MigrationStatus::Applied
            ==> m[k].version <= v
    &&& v == 0 || exists|k: MigrationVersion|
        m.dom().contains(k) && (#[trigger] m[k]).status == MigrationStatus::Applied
            && m[k].version == v
}

/// Whether `r` lists the records of `m` in the order of their versions.
pub open spec fn is_listing(r: Seq<MigrationRecord>, m: Map<MigrationVersion, MigrationRecord>)
    -> bool {
    exists|keys: Seq<MigrationVersion>|
        {
            &&& increasing_seq(keys)
            &&& keys.to_set() == m.dom()
            &&& keys.no_duplicates()
            &&& r == keys.map(|i: int, k: MigrationVersion| m[k])
        }
}

/// The state of migrations.
#[derive(Debug)]
pub struct MigrationState {
    state_file: String,
    records: BTreeMap<MigrationVersion, MigrationRecord>,
    lock_holder: Option<(String, String)>,
}

impl MigrationState {
    /// The file in which the state is kept.
    pub closed spec fn spec_state_file(&self) -> Seq<char> {
        self.state_file@
    }

    /// The records by version.
    pub closed spec fn records(&self) -> Map<MigrationVersion, MigrationRecord> {
        self.records@
    }

    /// Who holds the lock and since when, if it is held.
    pub closed spec fn lock(&self) -> Option<(String, String)> {
        self.lock_holder
    }

    /// Everything but the records is the same in both states.
    pub open spec fn same_frame(&self, other: &Self) -> bool {
        self.spec_state_file() == other.spec_state_file() && self.lock() == other.lock()
    }

    /// A state without records, kept in `_migrations_state.json` in the data
    /// directory.
    pub fn new(data_dir: &str) -> (r: Self)
        ensures
            r.spec_state_file() == crate::text::joined_path(data_dir@, "_migrations_state.json"@),
            r.records() == Map::<MigrationVersion, MigrationRecord>::empty(),
            r.lock() is None,
    {
        MigrationState {
            state_file: crate::text::join_path(data_dir, "_migrations_state.json"),
            records: BTreeMap::new(),
            lock_holder: None,
        }
    }

    /// The file in which the state is kept.
    pub fn state_file(&self) -> (r: &str)
        ensures
            r@ == self.spec_state_file(),
    {
        self.state_file.as_str()
    }

    /// Takes the records that were read from the state file, each under its
    /// version; of two records of one version the later stays.
    pub fn load(&mut self, saved: Vec<MigrationRecord>)
        ensures
            final(self).same_frame(old(self)),
            final(self).records() == records_of(saved@),
    {
        let mut records: BTreeMap<MigrationVersion, MigrationRecord> = BTreeMap::new();
        let mut i: usize = 0;
        assert(saved@.take(0) =~= Seq::<MigrationRecord>::empty());
        while i < saved.len()
            invariant
                i <= saved@.len(),
                records@ == records_of(saved@.take(i as int)),
            decreases saved@.len() - i,
        {
            proof {
                let next = saved@.take(i + 1);
                assert(next.drop_last() =~= saved@.take(i as int));
                assert(next.last() == saved@[i as int]);
            }
            records.insert(saved[i].version, saved[i].duplicate());
            i = i + 1;
        }
        assert(saved@.take(saved@.len() as int) =~= saved@);
        self.records = records;
    }

    /// The highest version among the applied migrations; 0 when none is
    /// applied.
    pub fn current_version(&self) -> (r: MigrationVersion)
        ensures
            is_highest_applied(r, self.records()),
    {
        let mut best: MigrationVersion = 0;
        let values = self.records.values();
        let ghost all = values.remaining();
        for record in it: values
            invariant
                it.seq() == all,
                forall|k: int|
                    0 <= k < it.index() && (#[trigger] it.seq()[k]).status
                        == MigrationStatus::Applied ==> it.seq()[k].version <= best,
                best == 0 || exists|k: int|
                    0 <= k < it.index() && (#[trigger] it.seq()[k]).status
                        == MigrationStatus::Applied && it.seq()[k].version == best,
        {
            let applied = match record.status {
                MigrationStatus::Applied => true,
                _ => false,
            };
            if applied && record.version > best {
                best = record.version;
            }
        }
        proof {
            let m = self.records@;
            let keys = choose|keys: Seq<MigrationVersion>|
                {
                    &&& increasing_seq(keys)
                    &&& keys.to_set() == m.dom()
                    &&& keys.no_duplicates()
                    &&& all == keys.map(|i: int, k: MigrationVersion| &m[k])
                };
            assert forall|v: MigrationVersion|
                m.dom().contains(v) && (#[trigger] m[v]).status
                    == MigrationStatus::Applied implies m[v].version <= best by {
                assert(keys.to_set().contains(v));
                let k = choose|k: int| 0 <= k < keys.len() && keys[k] == v;
                assert(*all[k] == m[v]);
            }
            if best != 0 {
                let k = choose|k: int|
                    0 <= k < all.len() && (#[trigger] all[k]).status == MigrationStatus::Applied
                        && all[k].version == best;
                assert(keys.to_set().contains(keys[k]));
                assert(m.dom().contains(keys[k]));
                assert(*all[k] == m[keys[k]]);
            }
        }
        best
    }

    /// The applied migrations in the order of their versions.
    pub fn get_applied(&self) -> (r: Vec<MigrationRecord>)
        ensures
            exists|all: Seq<MigrationRecord>|
                is_listing(all, self.records()) && r@ == all.filter(
                    |rec: MigrationRecord| rec.status == MigrationStatus::Applied,
                ),
    {
        let all = self.get_all();
        let mut out: Vec<MigrationRecord> = Vec::new();
        let mut i: usize = 0;
        proof {
            assert(all@.take(0) =~= Seq::<MigrationRecord>::empty());
            reveal(Seq::filter);
        }
        while i < all.len()
            invariant
                i <= all@.len(),
                out@ == all@.take(i as int).filter(
                    |rec: MigrationRecord| rec.status == MigrationStatus::Applied,
                ),
            decreases all@.len() - i,
        {
            proof {
                let next = all@.take(i + 1);
                assert(next.drop_last() =~= all@.take(i as int));
                assert(next.last() == all@[i as int]);
                reveal(Seq::filter);
            }
            let applied = match all[i].status {
                MigrationStatus::Applied => true,
                _ => false,
            };
            if applied {
                out.push(all[i].duplicate());
            }
            i = i + 1;
        }
        assert(all@.take(all@.len() as int) =~= all@);
        out
    }

    /// All records in the order of their versions.
    pub fn get_all(&self) -> (r: Vec<MigrationRecord>)
        ensures
            is_listing(r@, self.records()),
    {
        let mut out: Vec<MigrationRecord> = Vec::new();
        let values = self.records.values();
        let ghost all = values.remaining();
        for record in it: values
            invariant
                out@.len() == it.index(),
                it.seq() == all,
                forall|k: int| 0 <= k < out@.len() ==> out@[k] == *it.seq()[k],
        {
            out.push(record.duplicate());
        }
        proof {
            let keys = choose|keys: Seq<MigrationVersion>|
                {
                    &&& increasing_seq(keys)
                    &&& keys.to_set() == self.records@.dom()
                    &&& keys.no_duplicates()
                    &&& all == keys.map(|i: int, k: MigrationVersion| &self.records@[k])
                };
            assert(out@ =~= keys.map(|i: int, k: MigrationVersion| self.records@[k]));
        }
        out
    }

    /// Whether the migration of a version is applied.
    pub fn is_applied(&self, version: MigrationVersion) -> (r: bool)
        ensures
            r == (self.records().dom().contains(version) && self.records()[version].status
                == MigrationStatus::Applied),
    {
        match self.records.get(&version) {
            Some(record) => match record.status {
                MigrationStatus::Applied => true,
                _ => false,
            },
            None => false,
        }
    }

    /// Records that a migration has started, by the user given.
    pub fn record_start_by(
        &mut self,
        version: MigrationVersion,
        name: String,
        checksum: String,
        now: String,
        applied_by: String,
    )
        ensures
            final(self).same_frame(old(self)),
            final(self).records() == old(self).records().insert(
                version,
                MigrationRecord {
                    version,
                    name,
                    checksum,
                    status: MigrationStatus::Running,
                    applied_at: Some(now),
                    duration_ms: None,
                    error: None,
                    applied_by: Some(applied_by),
                },
            ),
    {
        self.records.insert(
            version,
            MigrationRecord {
                version,
                name,
                checksum,
                status: MigrationStatus::Running,
                applied_at: Some(now),
                duration_ms: None,
                error: None,
                applied_by: Some(applied_by),
            },
        );
    }

    /// Records that a migration has started, by the user that runs the
    /// process.
    pub fn record_start(
        &mut self,
        version: MigrationVersion,
        name: String,
        checksum: String,
        now: String,
    )
        ensures
            final(self).same_frame(old(self)),
            final(self).records().dom() == old(self).records().dom().insert(version),
            forall|v: MigrationVersion|
                v != version && old(self).records().dom().contains(v) ==> final(self).records()[v] == old(self).records()[v],
            final(self).records()[version].status == MigrationStatus::Running,
            final(self).records()[version].version == version,
            final(self).records()[version].name == name,
            final(self).records()[version].checksum == checksum,
            final(self).records()[version].applied_at == Some(now),
            final(self).records()[version].duration_ms is None,
            final(self).records()[version].error is None,
            final(self).records()[version].applied_by is Some,
    {
        let user = current_username();
        self.record_start_by(version, name, checksum, now, user);
    }

    fn change(
        &mut self,
        version: MigrationVersion,
        status: MigrationStatus,
        error: Option<String>,
        duration_ms: Option<u64>,
    )
        ensures
            final(self).same_frame(old(self)),
            !old(self).records().dom().contains(version) ==> final(self).records() == old(self).records(),
            old(self).records().dom().contains(version) ==> final(self).records() == old(self).records().insert(
                version,
                MigrationRecord {
                    status,
                    error: if error is Some {
                        error
                    } else {
                        old(self).records()[version].error
                    },
                    duration_ms: if duration_ms is Some {
                        duration_ms
                    } else {
                        old(self).records()[version].duration_ms
                    },
                    ..old(self).records()[version]
                },
            ),
    {
        let changed = match self.records.get(&version) {
            Some(record) => {
                let mut changed = record.duplicate();
                changed.status = status;
                if error.is_some() {
                    changed.error = error;
                }
                if duration_ms.is_some() {
                    changed.duration_ms = duration_ms;
                }
                changed
            },
            None => {
                return ;
            },
        };
        self.records.insert(version, changed);
    }

    /// Records that a migration was applied. A version without a record
    /// changes nothing.
    pub fn record_success(&mut self, version: MigrationVersion, duration_ms: u64)
        ensures
            final(self).same_frame(old(self)),
            !old(self).records().dom().contains(version) ==> final(self).records() == old(self).records(),
            old(self).records().dom().contains(version) ==> final(self).records() == old(self).records().insert(
                version,
                MigrationRecord {
                    status: MigrationStatus::Applied,
                    duration_ms: Some(duration_ms),
                    ..old(self).records()[version]
                },
            ),
    {
        self.change(version, MigrationStatus::Applied, None, Some(duration_ms));
    }

    /// Records that a migration failed. A version without a record changes
    /// nothing.
    pub fn record_failure(&mut self, version: MigrationVersion, error: String, duration_ms: u64)
        ensures
            final(self).same_frame(old(self)),
            !old(self).records().dom().contains(version) ==> final(self).records() == old(self).records(),
            old(self).records().dom().contains(version) ==> final(self).records() == old(self).records().insert(
                version,
                MigrationRecord {
                    status: MigrationStatus::Failed,
                    error: Some(error),
                    duration_ms: Some(duration_ms),
                    ..old(self).records()[version]
                },
            ),
    {
        self.change(version, MigrationStatus::Failed, Some(error), Some(duration_ms));
    }

    /// Records that a migration was rolled back. A version without a record
    /// changes nothing.
    pub fn record_rollback(&mut self, version: MigrationVersion)
        ensures
            final(self).same_frame(old(self)),
            !old(self).records().dom().contains(version) ==> final(self).records() == old(self).records(),
            old(self).records().dom().contains(version) ==> final(self).records() == old(self).records().insert(
                version,
                MigrationRecord {
                    status: MigrationStatus::RolledBack,
                    ..old(self).records()[version]
                },
            ),
    {
        self.change(version, MigrationStatus::RolledBack, None, None);
    }

    /// Takes the lock for `holder` at the time `now`, unless it is held.
    pub fn acquire_lock(&mut self, holder: String, now: String) -> (r: MigrationResult<()>)
        ensures
            final(self).spec_state_file() == old(self).spec_state_file(),
            final(self).records() == old(self).records(),
            match old(self).lock() {
                Some(held) => r == Err::<(), MigrationError>(
                    MigrationError::MigrationLocked { holder: held.0, since: held.1 },
                ) && final(self).lock() == old(self).lock(),
                None => r is Ok && final(self).lock() == Some((holder, now)),
            },
    {
        match &self.lock_holder {
            Some(held) => {
                return Err(
                    MigrationError::MigrationLocked {
                        holder: held.0.clone(),
                        since: held.1.clone(),
                    },
                );
            },
            None => {},
        }
        self.lock_holder = Some((holder, now));
        Ok(())
    }

    /// Gives the lock back.
    pub fn release_lock(&mut self)
        ensures
            final(self).spec_state_file() == old(self).spec_state_file(),
            final(self).records() == old(self).records(),
            final(self).lock() is None,
    {
        self.lock_holder = None;
    }
}

/// The name of the user that runs the process, from `whoami::username`.
/// Nothing is claimed of it.
#[verifier::external_body]
fn current_username() -> (r: String) {
    whoami::username()
}

} // verus!
