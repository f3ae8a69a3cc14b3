//! Usage metering: the use that tenants make of resources, month by month,
//! for billing and for the enforcement of quotas.

use chrono::Datelike;
use std::collections::HashMap;
use vstd::prelude::*;
use vstd::string::*;
use crate::text::{decimal, owned, pad_with_zeros, push_decimal, same_text, zero_padded};

verus! {

broadcast use vstd::std_specs::hash::group_hash_axioms;

/// Usage metrics for a tenant in a month.
#[derive(Debug, Clone, PartialEq, Eq)]
pub struct UsageMetrics {
    /// Tenant ID.
    pub tenant_id: u128,
    /// Month in the form YYYY-MM.
    pub month: String,
    /// Total API requests.
    pub api_requests: u64,
    /// Storage used (bytes).
    pub storage_bytes: u64,
    /// File storage used (bytes).
    pub file_storage_bytes: u64,
    /// Egress bandwidth (bytes).
    pub egress_bytes: u64,
    /// Peak realtime connections.
    pub realtime_connections_peak: u64,
    /// Average realtime connections.
    pub realtime_connections_avg: u64,
    /// Total function invocations.
    pub function_invocations: u64,
    /// Total function execution time (ms).
    pub function_execution_ms: u64,
}

/// The metrics of a tenant in a month in which nothing was used.
pub open spec fn empty_metrics(tenant_id: u128, month: String) -> UsageMetrics {
    UsageMetrics {
        tenant_id,
        month,
        api_requests: 0,
        storage_bytes: 0,
        file_storage_bytes: 0,
        egress_bytes: 0,
        realtime_connections_peak: 0,
        realtime_connections_avg: 0,
        function_invocations: 0,
        function_execution_ms: 0,
    }
}

impl UsageMetrics {
    /// Create metrics for a specific month.
    pub fn for_month(tenant_id: u128, month: String) -> (r: Self)
        ensures
            r == empty_metrics(tenant_id, month),
    {
        UsageMetrics {
            tenant_id,
            month,
            api_requests: 0,
            storage_bytes: 0,
            file_storage_bytes: 0,
            egress_bytes: 0,
            realtime_connections_peak: 0,
            realtime_connections_avg: 0,
            function_invocations: 0,
            function_execution_ms: 0,
        }
    }

    /// Create new metrics for a tenant in the current month.
    pub fn new(tenant_id: u128) -> (r: Self)
        ensures
            r == empty_metrics(tenant_id, r.month),
    {
        UsageMetrics::for_month(tenant_id, current_month())
    }

    /// Equal metrics.
    pub fn duplicate(&self) -> (r: Self)
        ensures
            r == *self,
    {
        UsageMetrics {
            tenant_id: self.tenant_id,
            month: self.month.clone(),
            api_requests: self.api_requests,
            storage_bytes: self.storage_bytes,
            file_storage_bytes: self.file_storage_bytes,
            egress_bytes: self.egress_bytes,
            realtime_connections_peak: self.realtime_connections_peak,
            realtime_connections_avg: self.realtime_connections_avg,
            function_invocations: self.function_invocations,
            function_execution_ms: self.function_execution_ms,
        }
    }
}

/// The year and the month of the current date in UTC, from chrono's
/// `Utc::now`. Of the month it is known that it is one of the twelve.
#[verifier::external_body]
fn current_year_and_month() -> (r: (i32, u32))
    ensures
        1 <= r.1 <= 12,
{
    let now = chrono::Utc::now();
    (now.year(), now.month())
}

/// The form YYYY-MM of a month of a year of our era: the year in at least
/// four digits, the month in two.
pub open spec fn month_text(year: u32, month: u32) -> Seq<char> {
    zero_padded(year as nat, 4) + "-"@ + zero_padded(month as nat, 2)
}

/// The form YYYY-MM of a month.
pub fn format_month(year: u32, month: u32) -> (r: String)
    ensures
        r@ == month_text(year, month),
{
    let mut out = pad_with_zeros(year as u64, 4);
    out.append("-");
    let m = pad_with_zeros(month as u64, 2);
    out.append(m.as_str());
    out
}

/// Get the current month in the form YYYY-MM.
pub fn current_month() -> (r: String)
    ensures
        exists|year: u32, month: u32| 1 <= month <= 12 && r@ == month_text(year, month),
{
    let now = current_year_and_month();
    let year: u32 = if now.0 < 0 {
        0
    } else {
        now.0 as u32
    };
    let r = format_month(year, now.1);
    assert(1 <= now.1 <= 12 && r@ == month_text(year, now.1));
    r
}

/// A counter changed by a signed amount: up to the largest count, down to
/// zero.
pub open spec fn shifted(count: u64, delta: i64) -> u64 {
    if delta >= 0 {
        if count + delta > u64::MAX {
            u64::MAX
        } else {
            (count + delta) as u64
        }
    } else {
        if count + delta < 0 {
            0
        } else {
            (count + delta) as u64
        }
    }
}

fn shift(count: u64, delta: i64) -> (r: u64)
    ensures
        r == shifted(count, delta),
{
    if delta >= 0 {
        let d = delta as u64;
        if d > u64::MAX - count {
            u64::MAX
        } else {
            count + d
        }
    } else {
        let d: u64 = ((-(delta + 1)) as u64) + 1;
        if d > count {
            0
        } else {
            count - d
        }
    }
}

/// A counter with an amount added, up to the largest count.
pub open spec fn capped_add(count: u64, amount: u64) -> u64 {
    if count + amount > u64::MAX {
        u64::MAX
    } else {
        (count + amount) as u64
    }
}

fn add_capped(count: u64, amount: u64) -> (r: u64)
    ensures
        r == capped_add(count, amount),
{
    if amount > u64::MAX - count {
        u64::MAX
    } else {
        count + amount
    }
}

/// The position of the metrics of a tenant in a month, if there are any.
pub open spec fn metrics_position(metrics: Seq<UsageMetrics>, tenant_id: u128, month: Seq<char>)
    -> Option<int>
    decreases metrics.len(),
{
    if metrics.len() == 0 {
        None
    } else {
        match metrics_position(metrics.drop_last(), tenant_id, month) {
            Some(i) => Some(i),
            None => if metrics.last().tenant_id == tenant_id && metrics.last().month@ == month {
                Some(metrics.len() - 1)
            } else {
                None
            },
        }
    }
}

/// The metrics of a tenant in a month: those recorded, or empty ones.
pub open spec fn metrics_of(metrics: Seq<UsageMetrics>, tenant_id: u128, month: String)
    -> UsageMetrics {
    match metrics_position(metrics, tenant_id, month@) {
        Some(i) => metrics[i],
        None => empty_metrics(tenant_id, month),
    }
}

proof fn lemma_metrics_position(metrics: Seq<UsageMetrics>, tenant_id: u128, month: Seq<char>)
    ensures
        match metrics_position(metrics, tenant_id, month) {
            Some(i) => 0 <= i < metrics.len() && metrics[i].tenant_id == tenant_id
                && metrics[i].month@ == month,
            None => true,
        },
    decreases metrics.len(),
{
    if metrics.len() > 0 {
        lemma_metrics_position(metrics.drop_last(), tenant_id, month);
    }
}

proof fn lemma_metrics_position_persists(
    metrics: Seq<UsageMetrics>,
    tenant_id: u128,
    month: Seq<char>,
    n: int,
)
    requires
        0 <= n <= metrics.len(),
        metrics_position(metrics.take(n), tenant_id, month) is Some,
    ensures
        metrics_position(metrics, tenant_id, month) == metrics_position(
            metrics.take(n),
            tenant_id,
            month,
        ),
    decreases metrics.len() - n,
{
    if n == metrics.len() {
        assert(metrics.take(n) =~= metrics);
    } else {
        assert(metrics.take(n + 1).drop_last() =~= metrics.take(n));
        lemma_metrics_position_persists(metrics, tenant_id, month, n + 1);
    }
}

/// In-memory usage tracker.
#[derive(Debug)]
pub struct UsageTracker {
    metrics: Vec<UsageMetrics>,
    realtime_connections: HashMap<u128, u64>,
}

/// One change of the metrics of a month.
pub enum UsageChange {
    ApiRequest,
    Storage(i64),
    FileStorage(i64),
    Egress(u64),
    ConnectionCount(u64),
    FunctionInvocation(u64),
}

/// The metrics after a change.
pub open spec fn changed(m: UsageMetrics, change: UsageChange) -> UsageMetrics {
    match change {
        UsageChange::ApiRequest => UsageMetrics {
            api_requests: capped_add(m.api_requests, 1),
            ..m
        },
        UsageChange::Storage(delta) => UsageMetrics {
            storage_bytes: shifted(m.storage_bytes, delta),
            ..m
        },
        UsageChange::FileStorage(delta) => UsageMetrics {
            file_storage_bytes: shifted(m.file_storage_bytes, delta),
            ..m
        },
        UsageChange::Egress(bytes) => UsageMetrics {
            egress_bytes: capped_add(m.egress_bytes, bytes),
            ..m
        },
        UsageChange::ConnectionCount(current) => UsageMetrics {
            realtime_connections_peak: if current > m.realtime_connections_peak {
                current
            } else {
                m.realtime_connections_peak
            },
            ..m
        },
        UsageChange::FunctionInvocation(ms) => UsageMetrics {
            function_invocations: capped_add(m.function_invocations, 1),
            function_execution_ms: capped_add(m.function_execution_ms, ms),
            ..m
        },
    }
}

impl UsageTracker {
    /// The metrics recorded, in the order in which their months began.
    pub closed spec fn recorded(&self) -> Seq<UsageMetrics> {
        self.metrics@
    }

    /// The open realtime connections by tenant.
    pub closed spec fn connections(&self) -> Map<u128, u64> {
        self.realtime_connections@
    }

    /// The metrics of a tenant in a month.
    pub open spec fn usage(&self, tenant_id: u128, month: String) -> UsageMetrics {
        metrics_of(self.recorded(), tenant_id, month)
    }

    /// Whether the metrics of every tenant and month other than the ones
    /// given are the same in both trackers.
    pub open spec fn unchanged_but(&self, other: &Self, tenant_id: u128, month: Seq<char>) -> bool {
        forall|t: u128, m: String|
            t != tenant_id || m@ != month ==> #[trigger] self.usage(t, m) == other.usage(t, m)
    }

    /// The API requests of a tenant in a month.
    pub open spec fn api_requests_in(&self, tenant_id: u128, month: Seq<char>) -> u64 {
        match metrics_position(self.recorded(), tenant_id, month) {
            Some(i) => self.recorded()[i].api_requests,
            None => 0,
        }
    }

    /// The storage that a tenant uses in a month, in bytes.
    pub open spec fn storage_in(&self, tenant_id: u128, month: Seq<char>) -> u64 {
        match metrics_position(self.recorded(), tenant_id, month) {
            Some(i) => self.recorded()[i].storage_bytes,
            None => 0,
        }
    }

    /// Create a new usage tracker.
    pub fn new() -> (r: Self)
        ensures
            r.recorded() == Seq::<UsageMetrics>::empty(),
            r.connections() == Map::<u128, u64>::empty(),
    {
        UsageTracker { metrics: Vec::new(), realtime_connections: HashMap::new() }
    }

    fn position(&self, tenant_id: u128, month: &str) -> (r: Option<usize>)
        ensures
            match r {
                Some(i) => metrics_position(self.recorded(), tenant_id, month@) == Some(i as int)
                    && i < self.recorded().len(),
                None => metrics_position(self.recorded(), tenant_id, month@) is None,
            },
    {
        let mut i: usize = 0;
        assert(self.metrics@.take(0) =~= Seq::<UsageMetrics>::empty());
        while i < self.metrics.len()
            invariant
                i <= self.metrics@.len(),
                metrics_position(self.metrics@.take(i as int), tenant_id, month@) is None,
            decreases self.metrics@.len() - i,
        {
            proof {
                let next = self.metrics@.take(i + 1);
                assert(next.drop_last() =~= self.metrics@.take(i as int));
                assert(next.last() == self.metrics@[i as int]);
            }
            if self.metrics[i].tenant_id == tenant_id && same_text(
                self.metrics[i].month.as_str(),
                month,
            ) {
                proof {
                    lemma_metrics_position_persists(self.metrics@, tenant_id, month@, i + 1);
                }
                return Some(i);
            }
            i = i + 1;
        }
        assert(self.metrics@.take(self.metrics@.len() as int) =~= self.metrics@);
        None
    }

    fn apply(&mut self, tenant_id: u128, month: &str, change: UsageChange)
        ensures
            final(self).connections() == old(self).connections(),
            exists|m: String|
                m@ == month@ && final(self).usage(tenant_id, m) == changed(
                    old(self).usage(tenant_id, m),
                    change,
                ),
            final(self).unchanged_but(old(self), tenant_id, month@),
    {
        let position = match self.position(tenant_id, month) {
            Some(i) => i,
            None => {
                let fresh = UsageMetrics::for_month(tenant_id, owned(month));
                proof {
                    let after = self.metrics@.push(fresh);
                    assert(after.drop_last() =~= self.metrics@);
                }
                self.metrics.push(fresh);
                self.metrics.len() - 1
            },
        };
        let ghost before = self.metrics@;
        proof {
            assert forall|t: u128, mo: String| t != tenant_id || mo@ != month@ implies #[trigger]
                metrics_of(before, t, mo) == metrics_of(old(self).metrics@, t, mo) by {
                if before != old(self).metrics@ {
                    lemma_other_key_after_push(old(self).metrics@, before.last(), t, mo@);
                }
            }
        }
        let mut m = self.metrics[position].duplicate();
        let ghost start = m;
        match change {
            UsageChange::ApiRequest => {
                m.api_requests = add_capped(m.api_requests, 1);
            },
            UsageChange::Storage(delta) => {
                m.storage_bytes = shift(m.storage_bytes, delta);
            },
            UsageChange::FileStorage(delta) => {
                m.file_storage_bytes = shift(m.file_storage_bytes, delta);
            },
            UsageChange::Egress(bytes) => {
                m.egress_bytes = add_capped(m.egress_bytes, bytes);
            },
            UsageChange::ConnectionCount(current) => {
                if current > m.realtime_connections_peak {
                    m.realtime_connections_peak = current;
                }
            },
            UsageChange::FunctionInvocation(ms) => {
                m.function_invocations = add_capped(m.function_invocations, 1);
                m.function_execution_ms = add_capped(m.function_execution_ms, ms);
            },
        }
        assert(m == changed(start, change));
        self.metrics.set(position, m);
        proof {
            lemma_position_after_update(before, tenant_id, month@, position as int, m);
            lemma_metrics_position(old(self).metrics@, tenant_id, month@);
            let key = start.month;
            assert(key@ == month@);
            assert(final(self).usage(tenant_id, key) == m);
            assert(old(self).usage(tenant_id, key) == start);
            assert forall|t: u128, mo: String| t != tenant_id || mo@ != month@ implies #[trigger]
                final(self).usage(t, mo) == old(self).usage(t, mo) by {
                lemma_metrics_position(before, tenant_id, month@);
                assert(m.tenant_id == tenant_id && m.month@ == month@);
                lemma_other_key_after_update(before, position as int, m, t, mo@);
                assert(metrics_of(before, t, mo) == metrics_of(old(self).metrics@, t, mo));
                assert(final(self).usage(t, mo) == metrics_of(before.update(position as int, m), t, mo));
            }
        }
    }

    /// Record an API request.
    pub fn record_api_request(&mut self, tenant_id: u128, month: &str)
        ensures
            final(self).unchanged_but(old(self), tenant_id, month@),
            final(self).connections() == old(self).connections(),
            final(self).api_requests_in(tenant_id, month@) == capped_add(
                old(self).api_requests_in(tenant_id, month@),
                1,
            ),
            final(self).storage_in(tenant_id, month@) == old(self).storage_in(tenant_id, month@),
            exists|m: String|
                m@ == month@ && final(self).usage(tenant_id, m) == changed(
                    old(self).usage(tenant_id, m),
                    UsageChange::ApiRequest,
                ),
    {
        self.apply(tenant_id, month, UsageChange::ApiRequest);
    }

    /// Record a change of storage: up or down by the bytes given.
    pub fn record_storage(&mut self, tenant_id: u128, month: &str, delta_bytes: i64)
        ensures
            final(self).unchanged_but(old(self), tenant_id, month@),
            final(self).connections() == old(self).connections(),
            final(self).storage_in(tenant_id, month@) == shifted(
                old(self).storage_in(tenant_id, month@),
                delta_bytes,
            ),
            final(self).api_requests_in(tenant_id, month@) == old(self).api_requests_in(
                tenant_id,
                month@,
            ),
            exists|m: String|
                m@ == month@ && final(self).usage(tenant_id, m) == changed(
                    old(self).usage(tenant_id, m),
                    UsageChange::Storage(delta_bytes),
                ),
    {
        self.apply(tenant_id, month, UsageChange::Storage(delta_bytes));
    }

    /// Record a change of file storage: up or down by the bytes given.
    pub fn record_file_storage(&mut self, tenant_id: u128, month: &str, delta_bytes: i64)
        ensures
            final(self).unchanged_but(old(self), tenant_id, month@),
            final(self).connections() == old(self).connections(),
            exists|m: String|
                m@ == month@ && final(self).usage(tenant_id, m) == changed(
                    old(self).usage(tenant_id, m),
                    UsageChange::FileStorage(delta_bytes),
                ),
    {
        self.apply(tenant_id, month, UsageChange::FileStorage(delta_bytes));
    }

    /// Record egress bandwidth.
    pub fn record_egress(&mut self, tenant_id: u128, month: &str, bytes: u64)
        ensures
            final(self).unchanged_but(old(self), tenant_id, month@),
            final(self).connections() == old(self).connections(),
            exists|m: String|
                m@ == month@ && final(self).usage(tenant_id, m) == changed(
                    old(self).usage(tenant_id, m),
                    UsageChange::Egress(bytes),
                ),
    {
        self.apply(tenant_id, month, UsageChange::Egress(bytes));
    }

    /// Record that a realtime connection was opened: the tenant's count goes
    /// up by one, and the month's peak follows it.
    pub fn record_realtime_connect(&mut self, tenant_id: u128, month: &str)
        ensures
            final(self).connections() == old(self).connections().insert(
                tenant_id,
                capped_add(connection_count(old(self).connections(), tenant_id), 1),
            ),
            exists|m: String|
                m@ == month@ && final(self).usage(tenant_id, m) == changed(
                    old(self).usage(tenant_id, m),
                    UsageChange::ConnectionCount(
                        capped_add(connection_count(old(self).connections(), tenant_id), 1),
                    ),
                ),
    {
        let current = add_capped(self.get_realtime_connections(tenant_id), 1);
        self.realtime_connections.insert(tenant_id, current);
        self.apply(tenant_id, month, UsageChange::ConnectionCount(current));
    }

    /// Record that a realtime connection was closed: the tenant's count goes
    /// down by one, and stays at zero.
    pub fn record_realtime_disconnect(&mut self, tenant_id: u128)
        ensures
            final(self).recorded() == old(self).recorded(),
            old(self).connections().dom().contains(tenant_id) ==> final(self).connections() == old(self).connections().insert(
                tenant_id,
                if old(self).connections()[tenant_id] > 0 {
                    (old(self).connections()[tenant_id] - 1) as u64
                } else {
                    0
                },
            ),
            !old(self).connections().dom().contains(tenant_id) ==> final(self).connections()
                == old(self).connections(),
    {
        let count = match self.realtime_connections.get(&tenant_id) {
            Some(count) => *count,
            None => {
                return ;
            },
        };
        let less = if count > 0 {
            count - 1
        } else {
            0
        };
        self.realtime_connections.insert(tenant_id, less);
    }

    /// Get the current realtime connection count.
    pub fn get_realtime_connections(&self, tenant_id: u128) -> (r: u64)
        ensures
            r == connection_count(self.connections(), tenant_id),
    {
        match self.realtime_connections.get(&tenant_id) {
            Some(count) => *count,
            None => 0,
        }
    }

    /// Record a function invocation.
    pub fn record_function_invocation(&mut self, tenant_id: u128, month: &str, execution_ms: u64)
        ensures
            final(self).unchanged_but(old(self), tenant_id, month@),
            final(self).connections() == old(self).connections(),
            exists|m: String|
                m@ == month@ && final(self).usage(tenant_id, m) == changed(
                    old(self).usage(tenant_id, m),
                    UsageChange::FunctionInvocation(execution_ms),
                ),
    {
        self.apply(tenant_id, month, UsageChange::FunctionInvocation(execution_ms));
    }

    /// Get the usage of a tenant in the month given as the current one:
    /// what was recorded, or empty metrics.
    pub fn get_current_usage(&self, tenant_id: u128, month: &str) -> (r: UsageMetrics)
        ensures
            exists|m: String| m@ == month@ && r == self.usage(tenant_id, m),
    {
        match self.position(tenant_id, month) {
            Some(i) => {
                proof {
                    lemma_metrics_position(self.metrics@, tenant_id, month@);
                }
                let r = self.metrics[i].duplicate();
                assert(r == self.usage(tenant_id, r.month));
                r
            },
            None => {
                let r = UsageMetrics::for_month(tenant_id, owned(month));
                assert(r == self.usage(tenant_id, r.month));
                r
            },
        }
    }

    /// Get the usage for a specific month, if any was recorded.
    pub fn get_usage(&self, tenant_id: u128, month: &str) -> (r: Option<UsageMetrics>)
        ensures
            match metrics_position(self.recorded(), tenant_id, month@) {
                Some(i) => r == Some(self.recorded()[i]),
                None => r is None,
            },
    {
        match self.position(tenant_id, month) {
            Some(i) => Some(self.metrics[i].duplicate()),
            None => None,
        }
    }

    /// Get the API request count of the month.
    pub fn get_api_request_count(&self, tenant_id: u128, month: &str) -> (r: u64)
        ensures
            exists|m: String| m@ == month@ && r == self.usage(tenant_id, m).api_requests,
            r == self.api_requests_in(tenant_id, month@),
    {
        self.get_current_usage(tenant_id, month).api_requests
    }

    /// Get the storage use of the month.
    pub fn get_storage_bytes(&self, tenant_id: u128, month: &str) -> (r: u64)
        ensures
            exists|m: String| m@ == month@ && r == self.usage(tenant_id, m).storage_bytes,
            r == self.storage_in(tenant_id, month@),
    {
        self.get_current_usage(tenant_id, month).storage_bytes
    }

    /// Get the file storage use of the month.
    pub fn get_file_storage_bytes(&self, tenant_id: u128, month: &str) -> (r: u64)
        ensures
            exists|m: String| m@ == month@ && r == self.usage(tenant_id, m).file_storage_bytes,
    {
        self.get_current_usage(tenant_id, month).file_storage_bytes
    }

    /// Forget the metrics of a tenant in a month and its connections.
    pub fn reset(&mut self, tenant_id: u128, month: &str)
        ensures
            final(self).connections() == old(self).connections().remove(tenant_id),
            final(self).recorded().len() <= old(self).recorded().len(),
    {
        match self.position(tenant_id, month) {
            Some(i) => {
                self.metrics.remove(i);
            },
            None => {},
        }
        self.realtime_connections.remove(&tenant_id);
    }
}

/// The connections counted for a tenant; none where nothing is counted.
pub open spec fn connection_count(connections: Map<u128, u64>, tenant_id: u128) -> u64 {
    if connections.dom().contains(tenant_id) {
        connections[tenant_id]
    } else {
        0
    }
}

proof fn lemma_position_after_update(
    metrics: Seq<UsageMetrics>,
    tenant_id: u128,
    month: Seq<char>,
    position: int,
    m: UsageMetrics,
)
    requires
        metrics_position(metrics, tenant_id, month) == Some(position),
        0 <= position < metrics.len(),
        m.tenant_id == metrics[position].tenant_id,
        m.month@ == metrics[position].month@,
    ensures
        metrics_position(metrics.update(position, m), tenant_id, month) == Some(position),
    decreases metrics.len(),
{
    let after = metrics.update(position, m);
    if metrics.len() > 0 {
        lemma_metrics_position(metrics.drop_last(), tenant_id, month);
        if position < metrics.len() - 1 {
            assert(after.drop_last() =~= metrics.drop_last().update(position, m));
            lemma_position_after_update(metrics.drop_last(), tenant_id, month, position, m);
        } else {
            assert(after.drop_last() =~= metrics.drop_last());
        }
    }
}

proof fn lemma_other_key_after_update(
    metrics: Seq<UsageMetrics>,
    position: int,
    m: UsageMetrics,
    tenant_id: u128,
    month: Seq<char>,
)
    requires
        0 <= position < metrics.len(),
        m.tenant_id == metrics[position].tenant_id,
        m.month@ == metrics[position].month@,
        tenant_id != m.tenant_id || month != m.month@,
    ensures
        metrics_position(metrics.update(position, m), tenant_id, month) == metrics_position(
            metrics,
            tenant_id,
            month,
        ),
        metrics_position(metrics, tenant_id, month) is Some ==> metrics.update(
            position,
            m,
        )[metrics_position(metrics, tenant_id, month)->Some_0] == metrics[metrics_position(
            metrics,
            tenant_id,
            month,
        )->Some_0],
    decreases metrics.len(),
{
    let after = metrics.update(position, m);
    lemma_metrics_position(metrics, tenant_id, month);
    if position < metrics.len() - 1 {
        assert(after.drop_last() =~= metrics.drop_last().update(position, m));
        assert(after.last() == metrics.last());
        lemma_other_key_after_update(metrics.drop_last(), position, m, tenant_id, month);
        lemma_metrics_position(metrics.drop_last(), tenant_id, month);
    } else {
        assert(after.drop_last() =~= metrics.drop_last());
        lemma_metrics_position(metrics.drop_last(), tenant_id, month);
    }
}

proof fn lemma_other_key_after_push(
    metrics: Seq<UsageMetrics>,
    fresh: UsageMetrics,
    tenant_id: u128,
    month: Seq<char>,
)
    requires
        tenant_id != fresh.tenant_id || month != fresh.month@,
    ensures
        metrics_position(metrics.push(fresh), tenant_id, month) == metrics_position(
            metrics,
            tenant_id,
            month,
        ),
        metrics_position(metrics, tenant_id, month) is Some ==> metrics.push(
            fresh,
        )[metrics_position(metrics, tenant_id, month)->Some_0] == metrics[metrics_position(
            metrics,
            tenant_id,
            month,
        )->Some_0],
{
    let after = metrics.push(fresh);
    assert(after.drop_last() =~= metrics);
    lemma_metrics_position(metrics, tenant_id, month);
}

impl Default for UsageTracker {
    fn default() -> (r: Self)
        ensures
            r.recorded() == Seq::<UsageMetrics>::empty(),
            r.connections() == Map::<u128, u64>::empty(),
    {
        UsageTracker::new()
    }
}

/// Daily usage snapshot for historical tracking.
#[derive(Debug, Clone, PartialEq, Eq)]
pub struct DailySnapshot {
    /// Date in the form YYYY-MM-DD.
    pub date: String,
    /// Tenant ID.
    pub tenant_id: u128,
    /// API requests on this day.
    pub api_requests: u64,
    /// Storage at end of day.
    pub storage_bytes: u64,
    /// File storage at end of day.
    pub file_storage_bytes: u64,
    /// Egress on this day.
    pub egress_bytes: u64,
    /// Peak realtime connections.
    pub realtime_connections_peak: u64,
}

} // verus!
