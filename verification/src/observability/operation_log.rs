//! The operation log: a bounded, append-only record of applied operations.
//!
//! When logging is enabled every operation is logged; when the log is full
//! the oldest entries leave first.

use std::collections::VecDeque;
use vstd::prelude::*;
use crate::ids::random_uuid;

verus! {

/// Operation type for logging.
#[derive(Debug, Clone, Copy, PartialEq, Eq, Structural)]
pub enum OperationType {
    /// Find/query operation.
    Find,
    /// Insert operation.
    Insert,
    /// Update operation.
    Update,
    /// Delete operation.
    Delete,
    /// Count operation.
    Count,
    /// Schema operation.
    Schema,
    /// Function invocation.
    Function,
    /// Realtime subscription.
    Subscribe,
    /// File storage operation.
    Storage,
}

impl OperationType {
    /// The operation's name in lower case.
    pub open spec fn name_text(self) -> Seq<char> {
        match self {
            OperationType::Find => "find"@,
            OperationType::Insert => "insert"@,
            OperationType::Update => "update"@,
            OperationType::Delete => "delete"@,
            OperationType::Count => "count"@,
            OperationType::Schema => "schema"@,
            OperationType::Function => "function"@,
            OperationType::Subscribe => "subscribe"@,
            OperationType::Storage => "storage"@,
        }
    }

    /// Returns string representation.
    pub fn as_str(&self) -> (r: &'static str)
        ensures
            r@ == self.name_text(),
    {
        match self {
            OperationType::Find => "find",
            OperationType::Insert => "insert",
            OperationType::Update => "update",
            OperationType::Delete => "delete",
            OperationType::Count => "count",
            OperationType::Schema => "schema",
            OperationType::Function => "function",
            OperationType::Subscribe => "subscribe",
            OperationType::Storage => "storage",
        }
    }
}

/// A single operation log entry. Identifiers are the 128-bit values of UUIDs;
/// the timestamp is in milliseconds since the epoch.
#[derive(Debug, Clone, PartialEq, Eq)]
pub struct OperationLogEntry {
    /// Unique operation ID.
    pub id: u128,
    /// Timestamp of operation.
    pub timestamp_ms: u64,
    /// Collection name, if applicable.
    pub collection: Option<String>,
    /// Operation type.
    pub operation: OperationType,
    /// User ID, if authenticated.
    pub user_id: Option<u128>,
    /// Execution duration in milliseconds.
    pub duration_ms: u64,
    /// Number of documents scanned.
    pub documents_scanned: Option<usize>,
    /// Number of documents returned or affected.
    pub documents_affected: Option<usize>,
    /// Index used, if any.
    pub index_used: Option<String>,
    /// Whether the duration exceeded the slow threshold.
    pub is_slow: bool,
}

fn copy_text(text: &Option<String>) -> (r: Option<String>)
    ensures
        r == *text,
{
    match text {
        Some(s) => Some(s.clone()),
        None => None,
    }
}

impl OperationLogEntry {
    /// Create a new operation log entry builder.
    pub fn builder(operation: OperationType) -> (r: OperationLogEntryBuilder)
        ensures
            r.operation == operation,
            r.collection is None,
            r.user_id is None,
            r.duration_ms == 0,
            r.documents_scanned is None,
            r.documents_affected is None,
            r.index_used is None,
            r.slow_threshold_ms == 100,
    {
        OperationLogEntryBuilder {
            operation,
            collection: None,
            user_id: None,
            duration_ms: 0,
            documents_scanned: None,
            documents_affected: None,
            index_used: None,
            slow_threshold_ms: 100,
        }
    }

    /// An equal entry.
    pub fn duplicate(&self) -> (r: Self)
        ensures
            r == *self,
    {
        OperationLogEntry {
            id: self.id,
            timestamp_ms: self.timestamp_ms,
            collection: copy_text(&self.collection),
            operation: self.operation,
            user_id: self.user_id,
            duration_ms: self.duration_ms,
            documents_scanned: self.documents_scanned,
            documents_affected: self.documents_affected,
            index_used: copy_text(&self.index_used),
            is_slow: self.is_slow,
        }
    }
}

/// Builder for operation log entries.
#[derive(Debug)]
pub struct OperationLogEntryBuilder {
    pub operation: OperationType,
    pub collection: Option<String>,
    pub user_id: Option<u128>,
    pub duration_ms: u64,
    pub documents_scanned: Option<usize>,
    pub documents_affected: Option<usize>,
    pub index_used: Option<String>,
    pub slow_threshold_ms: u64,
}

/// The whole milliseconds in a duration of `secs` seconds and `subsec_nanos`
/// nanoseconds, reduced to 64 bits.
pub open spec fn duration_millis(secs: u64, subsec_nanos: u32) -> u64 {
    ((secs * 1000 + subsec_nanos / 1_000_000) % 0x1_0000_0000_0000_0000) as u64
}

impl OperationLogEntryBuilder {
    /// Set collection name.
    pub fn collection(self, collection: String) -> (r: Self)
        ensures
            r == (OperationLogEntryBuilder { collection: Some(collection), ..self }),
    {
        let mut b = self;
        b.collection = Some(collection);
        b
    }

    /// Set user ID.
    pub fn user_id(self, user_id: u128) -> (r: Self)
        ensures
            r == (OperationLogEntryBuilder { user_id: Some(user_id), ..self }),
    {
        let mut b = self;
        b.user_id = Some(user_id);
        b
    }

    /// Set execution duration from whole seconds and the nanoseconds beyond
    /// them.
    pub fn duration(self, secs: u64, subsec_nanos: u32) -> (r: Self)
        ensures
            r == (OperationLogEntryBuilder {
                duration_ms: duration_millis(secs, subsec_nanos),
                ..self
            }),
    {
        let total: u128 = (secs as u128) * 1000 + (subsec_nanos / 1_000_000) as u128;
        let mut b = self;
        b.duration_ms = (total % 0x1_0000_0000_0000_0000) as u64;
        b
    }

    /// Set duration in milliseconds.
    pub fn duration_ms(self, ms: u64) -> (r: Self)
        ensures
            r == (OperationLogEntryBuilder { duration_ms: ms, ..self }),
    {
        let mut b = self;
        b.duration_ms = ms;
        b
    }

    /// Set documents scanned.
    pub fn documents_scanned(self, count: usize) -> (r: Self)
        ensures
            r == (OperationLogEntryBuilder { documents_scanned: Some(count), ..self }),
    {
        let mut b = self;
        b.documents_scanned = Some(count);
        b
    }

    /// Set documents affected.
    pub fn documents_affected(self, count: usize) -> (r: Self)
        ensures
            r == (OperationLogEntryBuilder { documents_affected: Some(count), ..self }),
    {
        let mut b = self;
        b.documents_affected = Some(count);
        b
    }

    /// Set index used.
    pub fn index_used(self, index: String) -> (r: Self)
        ensures
            r == (OperationLogEntryBuilder { index_used: Some(index), ..self }),
    {
        let mut b = self;
        b.index_used = Some(index);
        b
    }

    /// Set slow query threshold.
    pub fn slow_threshold_ms(self, threshold: u64) -> (r: Self)
        ensures
            r == (OperationLogEntryBuilder { slow_threshold_ms: threshold, ..self }),
    {
        let mut b = self;
        b.slow_threshold_ms = threshold;
        b
    }

    /// Build the log entry with the identifier and the timestamp given. The
    /// entry is slow when its duration exceeds the threshold.
    pub fn build_with_id(self, id: u128, now_ms: u64) -> (r: OperationLogEntry)
        ensures
            r == (OperationLogEntry {
                id,
                timestamp_ms: now_ms,
                collection: self.collection,
                operation: self.operation,
                user_id: self.user_id,
                duration_ms: self.duration_ms,
                documents_scanned: self.documents_scanned,
                documents_affected: self.documents_affected,
                index_used: self.index_used,
                is_slow: self.duration_ms > self.slow_threshold_ms,
            }),
    {
        OperationLogEntry {
            id,
            timestamp_ms: now_ms,
            collection: self.collection,
            operation: self.operation,
            user_id: self.user_id,
            duration_ms: self.duration_ms,
            documents_scanned: self.documents_scanned,
            documents_affected: self.documents_affected,
            index_used: self.index_used,
            is_slow: self.duration_ms > self.slow_threshold_ms,
        }
    }

    /// Build the log entry with a fresh random identifier.
    pub fn build(self, now_ms: u64) -> (r: OperationLogEntry)
        ensures
            r == (OperationLogEntry { id: r.id, ..self.entry_without_id(now_ms) }),
    {
        let id = random_uuid();
        self.build_with_id(id, now_ms)
    }

    /// The entry that this builder makes at `now_ms`, with identifier zero.
    pub open spec fn entry_without_id(self, now_ms: u64) -> OperationLogEntry {
        OperationLogEntry {
            id: 0,
            timestamp_ms: now_ms,
            collection: self.collection,
            operation: self.operation,
            user_id: self.user_id,
            duration_ms: self.duration_ms,
            documents_scanned: self.documents_scanned,
            documents_affected: self.documents_affected,
            index_used: self.index_used,
            is_slow: self.duration_ms > self.slow_threshold_ms,
        }
    }
}

/// Operation log configuration.
#[derive(Debug, Clone, Copy, PartialEq, Eq, Structural)]
pub struct OperationLogConfig {
    /// Whether operation logging is enabled.
    pub enabled: bool,
    /// Slow query threshold in milliseconds.
    pub slow_threshold_ms: u64,
    /// Maximum entries to keep in memory.
    pub max_entries: usize,
}

impl Default for OperationLogConfig {
    fn default() -> (r: Self)
        ensures
            !r.enabled,
            r.slow_threshold_ms == 100,
            r.max_entries == 10000,
    {
        OperationLogConfig { enabled: false, slow_threshold_ms: 100, max_entries: 10000 }
    }
}

/// The last `n` entries of `s`, or all of `s` when it has no more than `n`.
pub open spec fn last_entries(s: Seq<OperationLogEntry>, n: nat) -> Seq<OperationLogEntry> {
    if s.len() <= n {
        s
    } else {
        s.skip(s.len() - n)
    }
}

/// The log's entries after `entry` is logged: with logging disabled nothing
/// changes; otherwise the entry is appended and the log cut down to its
/// newest `max_entries` entries.
pub open spec fn logged(
    config: OperationLogConfig,
    entries: Seq<OperationLogEntry>,
    entry: OperationLogEntry,
) -> Seq<OperationLogEntry> {
    if !config.enabled {
        entries
    } else {
        last_entries(entries.push(entry), config.max_entries as nat)
    }
}

/// The slow entries among `s`, in order.
pub open spec fn slow_entries(s: Seq<OperationLogEntry>) -> Seq<OperationLogEntry> {
    s.filter(|e: OperationLogEntry| e.is_slow)
}

/// Operation log.
#[derive(Debug)]
pub struct OperationLog {
    config: OperationLogConfig,
    entries: VecDeque<OperationLogEntry>,
}

impl OperationLog {
    /// The configuration.
    pub closed spec fn spec_config(&self) -> OperationLogConfig {
        self.config
    }

    /// The entries held, oldest first.
    pub closed spec fn spec_entries(&self) -> Seq<OperationLogEntry> {
        self.entries@
    }

    /// Create a new operation log with the given configuration.
    pub fn new(config: OperationLogConfig) -> (r: Self)
        ensures
            r.spec_config() == config,
            r.spec_entries() == Seq::<OperationLogEntry>::empty(),
    {
        OperationLog { config, entries: VecDeque::new() }
    }

    /// Create a disabled operation log.
    pub fn disabled() -> (r: Self)
        ensures
            !r.spec_config().enabled,
            r.spec_config().slow_threshold_ms == 100,
            r.spec_config().max_entries == 10000,
            r.spec_entries() == Seq::<OperationLogEntry>::empty(),
    {
        OperationLog::new(
            OperationLogConfig { enabled: false, slow_threshold_ms: 100, max_entries: 10000 },
        )
    }

    /// Check if operation logging is enabled.
    pub fn is_enabled(&self) -> (r: bool)
        ensures
            r == self.spec_config().enabled,
    {
        self.config.enabled
    }

    /// Get the slow query threshold.
    pub fn slow_threshold_ms(&self) -> (r: u64)
        ensures
            r == self.spec_config().slow_threshold_ms,
    {
        self.config.slow_threshold_ms
    }

    /// Log an operation. With logging enabled the entry is appended, and the
    /// oldest entries leave so that no more than `max_entries` are held.
    pub fn log(&mut self, entry: OperationLogEntry)
        ensures
            final(self).spec_config() == old(self).spec_config(),
            final(self).spec_entries() == logged(
                old(self).spec_config(),
                old(self).spec_entries(),
                entry,
            ),
    {
        if !self.config.enabled {
            return ;
        }
        let ghost before = self.entries@;
        let max = self.config.max_entries;
        assert(before.skip(0) =~= before);
        while self.entries.len() > 0 && self.entries.len() >= max
            invariant
                self.config == old(self).config,
                max == self.config.max_entries,
                self.entries@.len() <= before.len(),
                self.entries@.len() >= max - 1 || self.entries@.len() == before.len(),
                self.entries@ == before.skip(before.len() - self.entries@.len()),
            decreases self.entries@.len(),
        {
            let ghost n = self.entries@.len();
            self.entries.pop_front();
            assert(self.entries@ =~= before.skip(before.len() - (n - 1)));
        }
        if max > 0 {
            self.entries.push_back(entry);
        }
        proof {
            let all = before.push(entry);
            let kept = last_entries(all, max as nat);
            assert(self.entries@ =~= kept);
        }
    }

    /// Get all entries, oldest first.
    pub fn entries(&self) -> (r: Vec<OperationLogEntry>)
        ensures
            r@ == self.spec_entries(),
    {
        let mut out: Vec<OperationLogEntry> = Vec::new();
        let mut i: usize = 0;
        while i < self.entries.len()
            invariant
                i <= self.entries@.len(),
                out@ == self.entries@.take(i as int),
            decreases self.entries@.len() - i,
        {
            out.push(self.entries[i].duplicate());
            assert(out@ =~= self.entries@.take(i + 1));
            i = i + 1;
        }
        assert(self.entries@.take(self.entries@.len() as int) =~= self.entries@);
        out
    }

    /// Get slow queries only, oldest first.
    pub fn slow_queries(&self) -> (r: Vec<OperationLogEntry>)
        ensures
            r@ == slow_entries(self.spec_entries()),
    {
        let mut out: Vec<OperationLogEntry> = Vec::new();
        let mut i: usize = 0;
        assert(self.entries@.take(0) =~= Seq::<OperationLogEntry>::empty());
        while i < self.entries.len()
            invariant
                i <= self.entries@.len(),
                out@ == slow_entries(self.entries@.take(i as int)),
            decreases self.entries@.len() - i,
        {
            proof {
                let next = self.entries@.take(i + 1);
                assert(next.drop_last() =~= self.entries@.take(i as int));
                reveal(Seq::filter);
            }
            if self.entries[i].is_slow {
                out.push(self.entries[i].duplicate());
            }
            i = i + 1;
        }
        assert(self.entries@.take(self.entries@.len() as int) =~= self.entries@);
        out
    }

    /// Get entry count.
    pub fn count(&self) -> (r: usize)
        ensures
            r == self.spec_entries().len(),
    {
        self.entries.len()
    }

    /// Clear all entries.
    pub fn clear(&mut self)
        ensures
            final(self).spec_config() == old(self).spec_config(),
            final(self).spec_entries() == Seq::<OperationLogEntry>::empty(),
    {
        self.entries.clear();
    }
}

/// The log never holds more than `max_entries` entries, and with logging
/// enabled and room for at least one entry, the entry just logged is the
/// newest in the log.
pub proof fn lemma_log_is_bounded(
    config: OperationLogConfig,
    entries: Seq<OperationLogEntry>,
    entry: OperationLogEntry,
)
    requires
        entries.len() <= config.max_entries,
    ensures
        logged(config, entries, entry).len() <= config.max_entries,
        config.enabled && config.max_entries > 0 ==> logged(config, entries, entry).last()
            == entry,
{
}

} // verus!
