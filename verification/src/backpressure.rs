//! Backpressure: bounded connections, a bounded operation queue and a bound on
//! the operations in flight on one connection.
//!
//! The manager and the guards are plain state. A slot is taken by a call that
//! may refuse, and handed back by an explicit release call; the counters never
//! pass their limits. Queue waiting time is measured on a millisecond clock
//! whose readings the caller supplies.

use vstd::prelude::*;
use vstd::string::*;
use crate::seqs::{first_where, lemma_first_where_is, lemma_first_where_none};
use crate::text::{decimal, owned, push_decimal};

verus! {

/// Limits of the backpressure layer.
#[derive(Debug, Clone, Copy, PartialEq, Eq, Structural)]
pub struct BackpressureConfig {
    /// Maximum concurrent connections.
    pub max_connections: usize,
    /// Maximum pending operations in the queue.
    pub max_queue_depth: usize,
    /// Maximum concurrent operations per connection.
    pub max_ops_per_connection: usize,
    /// Longest time an operation may wait in the queue, in milliseconds.
    pub queue_timeout_ms: u64,
}

impl Default for BackpressureConfig {
    fn default() -> (r: Self)
        ensures
            r.max_connections == 1000,
            r.max_queue_depth == 10000,
            r.max_ops_per_connection == 100,
            r.queue_timeout_ms == 30000,
    {
        BackpressureConfig {
            max_connections: 1000,
            max_queue_depth: 10000,
            max_ops_per_connection: 100,
            queue_timeout_ms: 30000,
        }
    }
}

/// A refusal by the backpressure layer. Every variant is retryable.
#[derive(Debug, Clone, Copy, PartialEq, Eq, Structural)]
pub enum BackpressureError {
    /// The connection limit is reached.
    ConnectionLimitReached { current: usize, limit: usize },
    /// The operation queue is full.
    QueueFull { current: usize, limit: usize },
    /// The operation waited in the queue for longer than the timeout.
    QueueTimeout { waited_ms: u64, timeout_ms: u64 },
    /// The connection already runs as many operations as it may.
    TooManyOpsPerConnection { current: usize, limit: usize },
}

impl BackpressureError {
    /// The HTTP status that reports this refusal.
    pub open spec fn spec_http_status_code(self) -> u16 {
        match self {
            BackpressureError::ConnectionLimitReached { .. } => 503,
            BackpressureError::QueueFull { .. } => 503,
            BackpressureError::QueueTimeout { .. } => 504,
            BackpressureError::TooManyOpsPerConnection { .. } => 429,
        }
    }

    /// The suggested delay before a retry, in milliseconds.
    pub open spec fn spec_retry_after_ms(self) -> u64 {
        match self {
            BackpressureError::ConnectionLimitReached { .. } => 1000,
            BackpressureError::QueueFull { .. } => 500,
            BackpressureError::QueueTimeout { .. } => 100,
            BackpressureError::TooManyOpsPerConnection { .. } => 100,
        }
    }

    /// The text of the refusal.
    pub open spec fn message_text(self) -> Seq<char> {
        match self {
            BackpressureError::ConnectionLimitReached { current, limit } => {
                "Connection limit reached: "@ + decimal(current as nat) + " active, "@ + decimal(
                    limit as nat,
                ) + " max. Try again later."@
            },
            BackpressureError::QueueFull { current, limit } => {
                "Operation queue full: "@ + decimal(current as nat) + " pending, "@ + decimal(
                    limit as nat,
                ) + " max. Try again later."@
            },
            BackpressureError::QueueTimeout { waited_ms, timeout_ms } => {
                "Operation timed out waiting in queue: waited "@ + decimal(waited_ms as nat)
                    + "ms, timeout "@ + decimal(timeout_ms as nat) + "ms."@
            },
            BackpressureError::TooManyOpsPerConnection { current, limit } => {
                "Too many concurrent operations from this connection: "@ + decimal(
                    current as nat,
                ) + " active, "@ + decimal(limit as nat) + " max."@
            },
        }
    }

    /// HTTP status code for this error.
    pub fn http_status_code(&self) -> (r: u16)
        ensures
            r == self.spec_http_status_code(),
    {
        match self {
            BackpressureError::ConnectionLimitReached { .. } => 503,
            BackpressureError::QueueFull { .. } => 503,
            BackpressureError::QueueTimeout { .. } => 504,
            BackpressureError::TooManyOpsPerConnection { .. } => 429,
        }
    }

    /// Whether retrying later can succeed: always.
    pub fn is_retryable(&self) -> (r: bool)
        ensures
            r,
    {
        true
    }

    /// Suggested retry delay in milliseconds.
    pub fn retry_after_ms(&self) -> (r: u64)
        ensures
            r == self.spec_retry_after_ms(),
    {
        match self {
            BackpressureError::ConnectionLimitReached { .. } => 1000,
            BackpressureError::QueueFull { .. } => 500,
            BackpressureError::QueueTimeout { .. } => 100,
            BackpressureError::TooManyOpsPerConnection { .. } => 100,
        }
    }

    /// The text of the refusal, naming the counter's value and its limit.
    pub fn to_string(&self) -> (r: String)
        ensures
            r@ == self.message_text(),
    {
        match self {
            BackpressureError::ConnectionLimitReached { current, limit } => {
                let mut out = owned("Connection limit reached: ");
                push_decimal(&mut out, *current as u64);
                out.append(" active, ");
                push_decimal(&mut out, *limit as u64);
                out.append(" max. Try again later.");
                out
            },
            BackpressureError::QueueFull { current, limit } => {
                let mut out = owned("Operation queue full: ");
                push_decimal(&mut out, *current as u64);
                out.append(" pending, ");
                push_decimal(&mut out, *limit as u64);
                out.append(" max. Try again later.");
                out
            },
            BackpressureError::QueueTimeout { waited_ms, timeout_ms } => {
                let mut out = owned("Operation timed out waiting in queue: waited ");
                push_decimal(&mut out, *waited_ms);
                out.append("ms, timeout ");
                push_decimal(&mut out, *timeout_ms);
                out.append("ms.");
                out
            },
            BackpressureError::TooManyOpsPerConnection { current, limit } => {
                let mut out = owned("Too many concurrent operations from this connection: ");
                push_decimal(&mut out, *current as u64);
                out.append(" active, ");
                push_decimal(&mut out, *limit as u64);
                out.append(" max.");
                out
            },
        }
    }
}

/// How close the system is to its limits.
#[derive(Debug, Clone, Copy, PartialEq, Eq, Structural)]
pub enum LoadStatus {
    /// Every counter is below three quarters of its limit.
    Normal,
    /// Some counter is at three quarters of its limit or above.
    Warning,
    /// Some counter is at nine tenths of its limit or above.
    Critical,
}

/// Whether `current` is at least `percent` hundredths of `limit`. A limit of
/// zero has no percentage and never counts.
pub open spec fn at_least_percent(current: nat, limit: nat, percent: nat) -> bool {
    limit > 0 && current * 100 >= percent * limit
}

/// Whether one of the three counters is at least `percent` hundredths of
/// its limit: the connections, the queued operations, or the operations of
/// the busiest connection.
pub open spec fn some_counter_reaches(
    connections: nat,
    max_connections: nat,
    queued: nat,
    max_queued: nat,
    operations: nat,
    max_operations: nat,
    percent: nat,
) -> bool {
    at_least_percent(connections, max_connections, percent) || at_least_percent(
        queued,
        max_queued,
        percent,
    ) || at_least_percent(operations, max_operations, percent)
}

/// The load status of the three counters with their limits: the highest
/// percentage decides.
pub open spec fn load_status_of(
    connections: nat,
    max_connections: nat,
    queued: nat,
    max_queued: nat,
    operations: nat,
    max_operations: nat,
) -> LoadStatus {
    if some_counter_reaches(
        connections,
        max_connections,
        queued,
        max_queued,
        operations,
        max_operations,
        90,
    ) {
        LoadStatus::Critical
    } else if some_counter_reaches(
        connections,
        max_connections,
        queued,
        max_queued,
        operations,
        max_operations,
        75,
    ) {
        LoadStatus::Warning
    } else {
        LoadStatus::Normal
    }
}

/// The highest of the counts; 0 where there is none.
pub open spec fn busiest(counts: Seq<usize>) -> nat
    decreases counts.len(),
{
    if counts.len() == 0 {
        0
    } else if counts.last() as nat > busiest(counts.drop_last()) {
        counts.last() as nat
    } else {
        busiest(counts.drop_last())
    }
}

/// The property of a count to equal the one given.
pub open spec fn equals(count: usize) -> spec_fn(usize) -> bool {
    |c: usize| c == count
}

/// The counts after the first count that equals `from` has become `to`; the
/// counts as they are where none equals `from`.
pub open spec fn with_count(counts: Seq<usize>, from: usize, to: usize) -> Seq<usize> {
    match first_where(counts, equals(from)) {
        Some(i) => counts.update(i, to),
        None => counts,
    }
}

/// The counts without the first count that equals `count`; the counts as
/// they are where none equals it.
pub open spec fn without_count(counts: Seq<usize>, count: usize) -> Seq<usize> {
    match first_where(counts, equals(count)) {
        Some(i) => counts.remove(i),
        None => counts,
    }
}

fn reaches_percent(current: usize, limit: usize, percent: u8) -> (r: bool)
    requires
        percent <= 100,
    ensures
        r == at_least_percent(current as nat, limit as nat, percent as nat),
{
    if limit == 0 {
        return false;
    }
    assert(percent as nat * limit as nat <= 100 * 0xFFFF_FFFF_FFFF_FFFF) by (nonlinear_arith)
        requires
            percent <= 100,
            limit <= 0xFFFF_FFFF_FFFF_FFFF,
    ;
    let lhs: u128 = (current as u128) * 100;
    let rhs: u128 = (percent as u128) * (limit as u128);
    lhs >= rhs
}

/// Central control of system load: counts connections, queued operations
/// and the operations in flight on each connection, and refuses what would
/// pass a limit.
#[derive(Debug)]
pub struct BackpressureManager {
    config: BackpressureConfig,
    current_connections: usize,
    current_queue_depth: usize,
    /// For each held connection the number of its operations in flight.
    operations: Vec<usize>,
}

/// A held connection slot. It counts the operations in flight on the
/// connection, and reports each change to the manager.
#[derive(Debug)]
pub struct ConnectionGuard {
    config: BackpressureConfig,
    ops_count: usize,
}

/// A held operation slot on a connection.
#[derive(Debug)]
pub struct OperationGuard {
    slot: usize,
}

/// A held queue slot, with the clock reading at which it was taken.
#[derive(Debug)]
pub struct QueueGuard {
    enqueued_at_ms: u64,
    timeout_ms: u64,
}

impl BackpressureManager {
    /// The configured limits.
    pub closed spec fn spec_config(&self) -> BackpressureConfig {
        self.config
    }

    /// The number of held connection slots.
    pub closed spec fn connections(&self) -> nat {
        self.current_connections as nat
    }

    /// The number of held queue slots.
    pub closed spec fn queue_depth(&self) -> nat {
        self.current_queue_depth as nat
    }

    /// For each held connection the number of its operations in flight, in
    /// the order in which the connections were taken.
    pub closed spec fn operations(&self) -> Seq<usize> {
        self.operations@
    }

    /// The counters but those of the operations are the same in both.
    pub open spec fn same_slots(&self, other: &Self) -> bool {
        &&& self.spec_config() == other.spec_config()
        &&& self.connections() == other.connections()
        &&& self.queue_depth() == other.queue_depth()
    }

    /// No counter is above its limit.
    pub open spec fn within_limits(&self) -> bool {
        &&& self.connections() <= self.spec_config().max_connections
        &&& self.queue_depth() <= self.spec_config().max_queue_depth
    }

    /// A manager with no slot taken.
    pub fn new(config: BackpressureConfig) -> (r: Self)
        ensures
            r.spec_config() == config,
            r.connections() == 0,
            r.queue_depth() == 0,
            r.operations() == Seq::<usize>::empty(),
            r.within_limits(),
    {
        BackpressureManager {
            config,
            current_connections: 0,
            current_queue_depth: 0,
            operations: Vec::new(),
        }
    }

    fn position_of_count(&self, count: usize) -> (r: Option<usize>)
        ensures
            match r {
                Some(i) => i < self.operations().len() && first_where(
                    self.operations(),
                    equals(count),
                ) == Some(i as int),
                None => first_where(self.operations(), equals(count)) is None,
            },
    {
        let ghost is_count = equals(count);
        let mut i: usize = 0;
        while i < self.operations.len()
            invariant
                i <= self.operations@.len(),
                is_count == equals(count),
                forall|k: int| 0 <= k < i ==> !is_count(#[trigger] self.operations@[k]),
            decreases self.operations@.len() - i,
        {
            if self.operations[i] == count {
                proof {
                    assert(is_count(self.operations@[i as int]));
                    lemma_first_where_is(self.operations@, is_count, i as int);
                }
                return Some(i);
            }
            i = i + 1;
        }
        proof {
            lemma_first_where_none(self.operations@, is_count);
        }
        None
    }

    /// Takes note that a connection with `from` operations in flight now
    /// has `to`.
    fn note_operations(&mut self, from: usize, to: usize)
        ensures
            final(self).same_slots(old(self)),
            final(self).operations() == with_count(old(self).operations(), from, to),
    {
        match self.position_of_count(from) {
            Some(i) => {
                self.operations.set(i, to);
            },
            None => {},
        }
    }

    /// The number of operations in flight on the busiest connection.
    pub fn busiest_operations(&self) -> (r: usize)
        ensures
            r == busiest(self.operations()),
    {
        let mut most: usize = 0;
        let mut i: usize = 0;
        assert(self.operations@.take(0) =~= Seq::<usize>::empty());
        while i < self.operations.len()
            invariant
                i <= self.operations@.len(),
                most == busiest(self.operations@.take(i as int)),
            decreases self.operations@.len() - i,
        {
            proof {
                let next = self.operations@.take(i + 1);
                assert(next.drop_last() =~= self.operations@.take(i as int));
                assert(next.last() == self.operations@[i as int]);
            }
            if self.operations[i] > most {
                most = self.operations[i];
            }
            i = i + 1;
        }
        assert(self.operations@.take(self.operations@.len() as int) =~= self.operations@);
        most
    }

    /// Takes a connection slot, or refuses when the limit is reached. A
    /// refusal names the count and the limit and changes nothing.
    pub fn try_acquire_connection(&mut self) -> (r: Result<ConnectionGuard, BackpressureError>)
        requires
            old(self).within_limits(),
        ensures
            final(self).spec_config() == old(self).spec_config(),
            final(self).queue_depth() == old(self).queue_depth(),
            final(self).within_limits(),
            old(self).connections() < old(self).spec_config().max_connections ==> {
                &&& r is Ok
                &&& final(self).connections() == old(self).connections() + 1
                &&& final(self).operations() == old(self).operations().push(0)
                &&& r->Ok_0.spec_config() == old(self).spec_config()
                &&& r->Ok_0.ops() == 0
            },
            old(self).connections() >= old(self).spec_config().max_connections ==> {
                &&& r == Err::<ConnectionGuard, BackpressureError>(
                    BackpressureError::ConnectionLimitReached {
                        current: old(self).connections() as usize,
                        limit: old(self).spec_config().max_connections,
                    },
                )
                &&& final(self).connections() == old(self).connections()
                &&& final(self).operations() == old(self).operations()
            },
    {
        let current = self.current_connections;
        if current >= self.config.max_connections {
            return Err(
                BackpressureError::ConnectionLimitReached {
                    current,
                    limit: self.config.max_connections,
                },
            );
        }
        self.current_connections = current + 1;
        self.operations.push(0);
        Ok(ConnectionGuard { config: self.config, ops_count: 0 })
    }

    /// Hands a connection slot back, with the count of its operations. With
    /// no slot held the count stays zero.
    pub fn release_connection(&mut self, guard: ConnectionGuard)
        ensures
            final(self).spec_config() == old(self).spec_config(),
            final(self).queue_depth() == old(self).queue_depth(),
            final(self).connections() == if old(self).connections() > 0 {
                (old(self).connections() - 1) as nat
            } else {
                0
            },
            final(self).operations() == without_count(old(self).operations(), guard.ops() as usize),
            old(self).within_limits() ==> final(self).within_limits(),
    {
        match self.position_of_count(guard.ops_count) {
            Some(i) => {
                self.operations.remove(i);
            },
            None => {},
        }
        if self.current_connections > 0 {
            self.current_connections = self.current_connections - 1;
        }
    }

    /// Takes a queue slot at clock reading `now_ms`, or refuses when the queue
    /// is full. A refusal names the depth and the limit and changes nothing.
    pub fn try_enqueue(&mut self, now_ms: u64) -> (r: Result<QueueGuard, BackpressureError>)
        requires
            old(self).within_limits(),
        ensures
            final(self).spec_config() == old(self).spec_config(),
            final(self).connections() == old(self).connections(),
            final(self).operations() == old(self).operations(),
            final(self).within_limits(),
            old(self).queue_depth() < old(self).spec_config().max_queue_depth ==> {
                &&& r is Ok
                &&& final(self).queue_depth() == old(self).queue_depth() + 1
                &&& r->Ok_0.enqueued_at() == now_ms
                &&& r->Ok_0.timeout() == old(self).spec_config().queue_timeout_ms
            },
            old(self).queue_depth() >= old(self).spec_config().max_queue_depth ==> {
                &&& r == Err::<QueueGuard, BackpressureError>(
                    BackpressureError::QueueFull {
                        current: old(self).queue_depth() as usize,
                        limit: old(self).spec_config().max_queue_depth,
                    },
                )
                &&& final(self).queue_depth() == old(self).queue_depth()
            },
    {
        let current = self.current_queue_depth;
        if current >= self.config.max_queue_depth {
            return Err(
                BackpressureError::QueueFull { current, limit: self.config.max_queue_depth },
            );
        }
        self.current_queue_depth = current + 1;
        Ok(QueueGuard { enqueued_at_ms: now_ms, timeout_ms: self.config.queue_timeout_ms })
    }

    /// Hands a queue slot back. With no slot held the depth stays zero.
    pub fn release_queue_slot(&mut self, guard: QueueGuard)
        ensures
            final(self).spec_config() == old(self).spec_config(),
            final(self).connections() == old(self).connections(),
            final(self).operations() == old(self).operations(),
            final(self).queue_depth() == if old(self).queue_depth() > 0 {
                (old(self).queue_depth() - 1) as nat
            } else {
                0
            },
            old(self).within_limits() ==> final(self).within_limits(),
    {
        let _ = guard;
        if self.current_queue_depth > 0 {
            self.current_queue_depth = self.current_queue_depth - 1;
        }
    }

    /// Current connection count.
    pub fn current_connections(&self) -> (r: usize)
        ensures
            r == self.connections(),
    {
        self.current_connections
    }

    /// Current queue depth.
    pub fn current_queue_depth(&self) -> (r: usize)
        ensures
            r == self.queue_depth(),
    {
        self.current_queue_depth
    }

    /// The configured limits.
    pub fn config(&self) -> (r: &BackpressureConfig)
        ensures
            *r == self.spec_config(),
    {
        &self.config
    }

    /// The load status, from the highest percentage across the three
    /// counters: the connections, the queued operations, and the operations
    /// in flight on the busiest connection. Critical when a counter is at
    /// 90% of its limit or above, Warning from 75%, else Normal.
    pub fn load_status(&self) -> (r: LoadStatus)
        ensures
            r == load_status_of(
                self.connections(),
                self.spec_config().max_connections as nat,
                self.queue_depth(),
                self.spec_config().max_queue_depth as nat,
                busiest(self.operations()),
                self.spec_config().max_ops_per_connection as nat,
            ),
    {
        let c = self.current_connections;
        let mc = self.config.max_connections;
        let q = self.current_queue_depth;
        let mq = self.config.max_queue_depth;
        let o = self.busiest_operations();
        let mo = self.config.max_ops_per_connection;
        if reaches_percent(c, mc, 90) || reaches_percent(q, mq, 90) || reaches_percent(o, mo, 90) {
            LoadStatus::Critical
        } else if reaches_percent(c, mc, 75) || reaches_percent(q, mq, 75) || reaches_percent(
            o,
            mo,
            75,
        ) {
            LoadStatus::Warning
        } else {
            LoadStatus::Normal
        }
    }
}

impl ConnectionGuard {
    /// The limits the connection was opened under.
    pub closed spec fn spec_config(&self) -> BackpressureConfig {
        self.config
    }

    /// The number of operations in flight on this connection.
    pub closed spec fn ops(&self) -> nat {
        self.ops_count as nat
    }

    /// Starts an operation on this connection, or refuses when the connection
    /// already runs as many as it may. The manager takes note of the new
    /// count.
    pub fn try_start_operation(&mut self, manager: &mut BackpressureManager) -> (r: Result<
        OperationGuard,
        BackpressureError,
    >)
        ensures
            final(self).spec_config() == old(self).spec_config(),
            final(manager).same_slots(old(manager)),
            old(self).ops() < old(self).spec_config().max_ops_per_connection ==> {
                &&& r is Ok
                &&& final(self).ops() == old(self).ops() + 1
                &&& final(manager).operations() == with_count(
                    old(manager).operations(),
                    old(self).ops() as usize,
                    (old(self).ops() + 1) as usize,
                )
            },
            old(self).ops() >= old(self).spec_config().max_ops_per_connection ==> {
                &&& r == Err::<OperationGuard, BackpressureError>(
                    BackpressureError::TooManyOpsPerConnection {
                        current: old(self).ops() as usize,
                        limit: old(self).spec_config().max_ops_per_connection,
                    },
                )
                &&& final(self).ops() == old(self).ops()
                &&& final(manager).operations() == old(manager).operations()
            },
    {
        let current = self.ops_count;
        if current >= self.config.max_ops_per_connection {
            return Err(
                BackpressureError::TooManyOpsPerConnection {
                    current,
                    limit: self.config.max_ops_per_connection,
                },
            );
        }
        self.ops_count = current + 1;
        manager.note_operations(current, current + 1);
        Ok(OperationGuard { slot: current })
    }

    /// Ends an operation. With none in flight the count stays zero. The
    /// manager takes note of the new count.
    pub fn finish_operation(&mut self, manager: &mut BackpressureManager, guard: OperationGuard)
        ensures
            final(self).spec_config() == old(self).spec_config(),
            final(self).ops() == if old(self).ops() > 0 {
                (old(self).ops() - 1) as nat
            } else {
                0
            },
            final(manager).same_slots(old(manager)),
            final(manager).operations() == with_count(
                old(manager).operations(),
                old(self).ops() as usize,
                final(self).ops() as usize,
            ),
    {
        let _ = guard;
        let current = self.ops_count;
        if current > 0 {
            self.ops_count = current - 1;
        }
        manager.note_operations(current, self.ops_count);
    }

    /// Current operation count for this connection.
    pub fn current_ops(&self) -> (r: usize)
        ensures
            r == self.ops(),
    {
        self.ops_count
    }
}

/// The time between two readings of a clock that may have been read out of
/// order: zero when `now` is not after `start`.
pub open spec fn elapsed_ms(start: u64, now: u64) -> u64 {
    if now >= start {
        (now - start) as u64
    } else {
        0
    }
}

impl QueueGuard {
    /// The clock reading at which the slot was taken.
    pub closed spec fn enqueued_at(&self) -> u64 {
        self.enqueued_at_ms
    }

    /// The queue timeout in force when the slot was taken.
    pub closed spec fn timeout(&self) -> u64 {
        self.timeout_ms
    }

    /// Checks at clock reading `now_ms` whether the operation has waited for
    /// longer than the timeout.
    pub fn check_timeout(&self, now_ms: u64) -> (r: Result<(), BackpressureError>)
        ensures
            elapsed_ms(self.enqueued_at(), now_ms) <= self.timeout() ==> r == Ok::<
                (),
                BackpressureError,
            >(()),
            elapsed_ms(self.enqueued_at(), now_ms) > self.timeout() ==> r == Err::<
                (),
                BackpressureError,
            >(
                BackpressureError::QueueTimeout {
                    waited_ms: elapsed_ms(self.enqueued_at(), now_ms),
                    timeout_ms: self.timeout(),
                },
            ),
    {
        let elapsed = self.wait_time_ms(now_ms);
        if elapsed > self.timeout_ms {
            return Err(
                BackpressureError::QueueTimeout { waited_ms: elapsed, timeout_ms: self.timeout_ms },
            );
        }
        Ok(())
    }

    /// Time spent waiting in the queue up to clock reading `now_ms`, in
    /// milliseconds.
    pub fn wait_time_ms(&self, now_ms: u64) -> (r: u64)
        ensures
            r == elapsed_ms(self.enqueued_at(), now_ms),
    {
        if now_ms >= self.enqueued_at_ms {
            now_ms - self.enqueued_at_ms
        } else {
            0
        }
    }
}

} // verus!
