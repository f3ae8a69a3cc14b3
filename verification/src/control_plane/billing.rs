//! Billing: what of a month's usage is charged for. Amounts of money are
//! fractions and are worked out by the program; the library decides the
//! quantities that they are worked out from, in whole units.

use vstd::prelude::*;
use crate::control_plane::metering::UsageMetrics;
use crate::control_plane::tenant::Plan;

verus! {

/// API requests that are not charged for.
pub const FREE_API_REQUESTS: u64 = 10_000;

/// Bytes of database storage that are not charged for: half a gibibyte.
pub const FREE_STORAGE_BYTES: u64 = 536_870_912;

/// Bytes of file storage that are not charged for: one gibibyte.
pub const FREE_FILE_STORAGE_BYTES: u64 = 1_073_741_824;

/// Bytes of egress that are not charged for: two gibibytes.
pub const FREE_EGRESS_BYTES: u64 = 2_147_483_648;

/// Function invocations that are not charged for.
pub const FREE_FUNCTION_INVOCATIONS: u64 = 100_000;

/// What goes beyond an allowance.
pub open spec fn above(used: u64, free: u64) -> u64 {
    if used > free {
        (used - free) as u64
    } else {
        0
    }
}

fn beyond(used: u64, free: u64) -> (r: u64)
    ensures
        r == above(used, free),
{
    if used > free {
        used - free
    } else {
        0
    }
}

/// The base price of a plan for a month, in whole dollars.
pub open spec fn base_dollars(plan: Plan) -> u64 {
    match plan {
        Plan::Free => 0,
        Plan::Pro => 25,
        Plan::Enterprise => 599,
    }
}

/// The base price of a plan for a month, in whole dollars.
pub fn base_price_dollars(plan: &Plan) -> (r: u64)
    ensures
        r == base_dollars(*plan),
{
    match plan {
        Plan::Free => 0,
        Plan::Pro => 25,
        Plan::Enterprise => 599,
    }
}

/// Whether the usage of a plan is charged for: that of the enterprise plan
/// is included in its base price.
pub fn usage_is_charged(plan: &Plan) -> (r: bool)
    ensures
        r == (*plan != Plan::Enterprise),
{
    match plan {
        Plan::Enterprise => false,
        _ => true,
    }
}

/// The quantities of a month's usage that are charged for: what goes beyond
/// the free allowances, and all of the functions' execution time. A
/// quantity of 0 gives no line on the invoice.
#[derive(Debug, Clone, Copy, PartialEq, Eq)]
pub struct BillableUsage {
    pub api_requests: u64,
    pub storage_bytes: u64,
    pub file_storage_bytes: u64,
    pub egress_bytes: u64,
    pub function_invocations: u64,
    pub function_execution_ms: u64,
}

/// The quantities of a month's usage that are charged for.
pub open spec fn billable_of(usage: UsageMetrics) -> BillableUsage {
    BillableUsage {
        api_requests: above(usage.api_requests, FREE_API_REQUESTS),
        storage_bytes: above(usage.storage_bytes, FREE_STORAGE_BYTES),
        file_storage_bytes: above(usage.file_storage_bytes, FREE_FILE_STORAGE_BYTES),
        egress_bytes: above(usage.egress_bytes, FREE_EGRESS_BYTES),
        function_invocations: above(usage.function_invocations, FREE_FUNCTION_INVOCATIONS),
        function_execution_ms: usage.function_execution_ms,
    }
}

/// The quantities of a month's usage that are charged for.
pub fn billable_usage(usage: &UsageMetrics) -> (r: BillableUsage)
    ensures
        r == billable_of(*usage),
{
    BillableUsage {
        api_requests: beyond(usage.api_requests, FREE_API_REQUESTS),
        storage_bytes: beyond(usage.storage_bytes, FREE_STORAGE_BYTES),
        file_storage_bytes: beyond(usage.file_storage_bytes, FREE_FILE_STORAGE_BYTES),
        egress_bytes: beyond(usage.egress_bytes, FREE_EGRESS_BYTES),
        function_invocations: beyond(usage.function_invocations, FREE_FUNCTION_INVOCATIONS),
        function_execution_ms: usage.function_execution_ms,
    }
}

/// The number of lines that a usage gives on an invoice: one for each
/// quantity that is not 0.
pub open spec fn line_count_of(b: BillableUsage) -> nat {
    (if b.api_requests > 0 { 1nat } else { 0nat }) + (if b.storage_bytes > 0 { 1nat } else { 0nat })
        + (if b.file_storage_bytes > 0 { 1nat } else { 0nat }) + (if b.egress_bytes > 0 {
        1nat
    } else {
        0nat
    }) + (if b.function_invocations > 0 { 1nat } else { 0nat }) + (if b.function_execution_ms
        > 0 {
        1nat
    } else {
        0nat
    })
}

/// The number of lines that a usage gives on an invoice.
pub fn line_count(b: &BillableUsage) -> (r: usize)
    ensures
        r == line_count_of(*b),
{
    let mut n: usize = 0;
    if b.api_requests > 0 {
        n = n + 1;
    }
    if b.storage_bytes > 0 {
        n = n + 1;
    }
    if b.file_storage_bytes > 0 {
        n = n + 1;
    }
    if b.egress_bytes > 0 {
        n = n + 1;
    }
    if b.function_invocations > 0 {
        n = n + 1;
    }
    if b.function_execution_ms > 0 {
        n = n + 1;
    }
    n
}

} // verus!
