//! The decisions of the control plane's routes: which tenants a listing
//! shows, which usage a query means, what is left of a quota, and whether a
//! request is within its tenant's quota.

use vstd::prelude::*;
use vstd::string::*;
use crate::control_plane::errors::{ControlPlaneError, ControlPlaneResult};
use crate::control_plane::metering::{capped_add, metrics_position, UsageMetrics, UsageTracker};
use crate::control_plane::quota::{capped_sum, is_quota_exceeded, QuotaEnforcer, Quotas};
use crate::control_plane::tenant::{
    IsolationModel,
    Plan,
    Tenant,
    TenantListItem,
    TenantStatus,
};
use crate::ids::{uuid_text, uuid_to_string};

verus! {

/// The number of tenants that a listing shows where the query names none.
pub const DEFAULT_PAGE_LIMIT: usize = 100;

/// The largest number of tenants that a listing shows.
pub const MAX_PAGE_LIMIT: usize = 1000;

/// Query parameters for listing tenants.
#[derive(Debug, Clone, Copy, PartialEq, Eq)]
pub struct ListTenantsQuery {
    /// Filter by plan.
    pub plan: Option<Plan>,
    /// Filter by status.
    pub status: Option<TenantStatus>,
    /// Limit results.
    pub limit: Option<usize>,
    /// Offset for pagination.
    pub offset: Option<usize>,
}

/// Whether a listing with the filters given shows a tenant.
pub open spec fn passes(item: TenantListItem, plan: Option<Plan>, status: Option<TenantStatus>)
    -> bool {
    (plan is Some ==> item.plan == plan->Some_0) && (status is Some ==> item.status
        == status->Some_0)
}

/// The tenants that pass the filters, in their order.
pub open spec fn filtered(
    items: Seq<TenantListItem>,
    plan: Option<Plan>,
    status: Option<TenantStatus>,
) -> Seq<TenantListItem> {
    items.filter(|item: TenantListItem| passes(item, plan, status))
}

/// The number of tenants that a query asks for at most: its limit, 100
/// where it names none, and never more than 1000.
pub open spec fn page_limit(limit: Option<usize>) -> int {
    let asked = match limit {
        Some(n) => n as int,
        None => DEFAULT_PAGE_LIMIT as int,
    };
    if asked < MAX_PAGE_LIMIT {
        asked
    } else {
        MAX_PAGE_LIMIT as int
    }
}

/// The page that a query asks for: of the tenants that pass its filters,
/// those from its offset on, up to its limit.
pub open spec fn page_of(items: Seq<TenantListItem>, query: ListTenantsQuery) -> Seq<
    TenantListItem,
> {
    let kept = filtered(items, query.plan, query.status);
    let offset = match query.offset {
        Some(n) => n as int,
        None => 0,
    };
    let from = if offset < kept.len() {
        offset
    } else {
        kept.len() as int
    };
    let to = if from + page_limit(query.limit) < kept.len() {
        from + page_limit(query.limit)
    } else {
        kept.len() as int
    };
    kept.subrange(from, to)
}

fn copy_item(item: &TenantListItem) -> (r: TenantListItem)
    ensures
        r == *item,
{
    TenantListItem {
        tenant_id: item.tenant_id,
        name: item.name.clone(),
        plan: item.plan,
        status: item.status,
        created_at_ms: item.created_at_ms,
        storage_used: item.storage_used,
        api_requests_month: item.api_requests_month,
    }
}

fn item_passes(item: &TenantListItem, plan: &Option<Plan>, status: &Option<TenantStatus>) -> (r:
    bool)
    ensures
        r == passes(*item, *plan, *status),
{
    let plan_fits = match plan {
        Some(p) => item.plan == *p,
        None => true,
    };
    let status_fits = match status {
        Some(s) => item.status == *s,
        None => true,
    };
    plan_fits && status_fits
}

/// The page of a listing that a query asks for.
pub fn list_tenants(tenants: &Vec<TenantListItem>, params: &ListTenantsQuery) -> (r: Vec<
    TenantListItem,
>)
    ensures
        r@ == page_of(tenants@, *params),
{
    let mut kept: Vec<TenantListItem> = Vec::new();
    let mut i: usize = 0;
    proof {
        assert(tenants@.take(0) =~= Seq::<TenantListItem>::empty());
        reveal(Seq::filter);
    }
    while i < tenants.len()
        invariant
            i <= tenants@.len(),
            kept@ == filtered(tenants@.take(i as int), params.plan, params.status),
        decreases tenants@.len() - i,
    {
        proof {
            let next = tenants@.take(i + 1);
            assert(next.drop_last() =~= tenants@.take(i as int));
            assert(next.last() == tenants@[i as int]);
            reveal(Seq::filter);
        }
        if item_passes(&tenants[i], &params.plan, &params.status) {
            kept.push(copy_item(&tenants[i]));
        }
        i = i + 1;
    }
    assert(tenants@.take(tenants@.len() as int) =~= tenants@);
    let offset = match params.offset {
        Some(n) => n,
        None => 0,
    };
    let asked = match params.limit {
        Some(n) => n,
        None => DEFAULT_PAGE_LIMIT,
    };
    let limit = if asked < MAX_PAGE_LIMIT {
        asked
    } else {
        MAX_PAGE_LIMIT
    };
    let from = if offset < kept.len() {
        offset
    } else {
        kept.len()
    };
    let to = if limit < kept.len() - from {
        from + limit
    } else {
        kept.len()
    };
    let mut out: Vec<TenantListItem> = Vec::new();
    let mut k: usize = from;
    while k < to
        invariant
            from <= k <= to <= kept@.len(),
            out@ == kept@.subrange(from as int, k as int),
        decreases to - k,
    {
        out.push(copy_item(&kept[k]));
        assert(out@ =~= kept@.subrange(from as int, k + 1));
        k = k + 1;
    }
    out
}

/// What is shown of one tenant.
#[derive(Debug, Clone, PartialEq, Eq)]
pub struct TenantDetails {
    pub tenant_id: u128,
    pub name: String,
    pub plan: Plan,
    pub region: String,
    pub isolation: IsolationModel,
    pub status: TenantStatus,
    pub database_url: String,
    pub created_at_ms: i64,
    pub updated_at_ms: i64,
    pub quotas: Quotas,
    pub usage: UsageMetrics,
}

/// The details of a tenant with the usage given: the tenant's own values,
/// and the quotas of its plan.
pub fn tenant_details(tenant: Tenant, usage: UsageMetrics) -> (r: TenantDetails)
    ensures
        r == (TenantDetails {
            tenant_id: tenant.tenant_id,
            name: tenant.name,
            plan: tenant.plan,
            region: tenant.region,
            isolation: tenant.isolation,
            status: tenant.status,
            database_url: tenant.database_url,
            created_at_ms: tenant.created_at_ms,
            updated_at_ms: tenant.updated_at_ms,
            quotas: Quotas::spec_for_plan(tenant.plan),
            usage,
        }),
{
    let quotas = Quotas::for_plan(&tenant.plan);
    TenantDetails {
        tenant_id: tenant.tenant_id,
        name: tenant.name,
        plan: tenant.plan,
        region: tenant.region,
        isolation: tenant.isolation,
        status: tenant.status,
        database_url: tenant.database_url,
        created_at_ms: tenant.created_at_ms,
        updated_at_ms: tenant.updated_at_ms,
        quotas,
        usage,
    }
}

/// Query parameters for a tenant's usage.
#[derive(Debug, Clone, PartialEq, Eq)]
pub struct UsageQuery {
    /// Month (YYYY-MM format).
    pub month: Option<String>,
}

/// Query parameters for a tenant's invoice.
#[derive(Debug, Clone, PartialEq, Eq)]
pub struct InvoiceQuery {
    /// Month (YYYY-MM format).
    pub month: String,
}

/// The usage that a query means: that of the month it names if any was
/// recorded for it, and else that of the current month.
pub fn usage_for(
    tracker: &UsageTracker,
    tenant_id: u128,
    asked: &Option<String>,
    current_month: &str,
) -> (r: UsageMetrics)
    ensures
        asked is Some && metrics_position(tracker.recorded(), tenant_id, asked->Some_0@) is Some
            ==> r == tracker.recorded()[metrics_position(
            tracker.recorded(),
            tenant_id,
            asked->Some_0@,
        )->Some_0],
        !(asked is Some && metrics_position(tracker.recorded(), tenant_id, asked->Some_0@)
            is Some) ==> exists|m: String|
            m@ == current_month@ && r == tracker.usage(tenant_id, m),
{
    match asked {
        Some(month) => match tracker.get_usage(tenant_id, month.as_str()) {
            Some(usage) => usage,
            None => tracker.get_current_usage(tenant_id, current_month),
        },
        None => tracker.get_current_usage(tenant_id, current_month),
    }
}

/// What is left of a quota after a usage: nothing where the usage is over
/// it.
pub open spec fn remaining_of(quota: u64, used: u64) -> u64 {
    if used >= quota {
        0
    } else {
        (quota - used) as u64
    }
}

/// A tenant's quotas and what is left of them.
#[derive(Debug, Clone, PartialEq, Eq)]
pub struct QuotaResponse {
    pub quotas: Quotas,
    pub usage: UsageMetrics,
    pub storage_remaining: u64,
    pub api_requests_remaining: u64,
}

/// The quotas of a plan, and what a usage leaves of them.
pub fn quota_response(plan: &Plan, usage: UsageMetrics) -> (r: QuotaResponse)
    ensures
        r.quotas == Quotas::spec_for_plan(*plan),
        r.usage == usage,
        r.storage_remaining == remaining_of(r.quotas.storage_bytes, usage.storage_bytes),
        r.api_requests_remaining == remaining_of(r.quotas.api_requests_month, usage.api_requests),
{
    let quotas = Quotas::for_plan(plan);
    let storage_remaining = if usage.storage_bytes >= quotas.storage_bytes {
        0
    } else {
        quotas.storage_bytes - usage.storage_bytes
    };
    let api_requests_remaining = if usage.api_requests >= quotas.api_requests_month {
        0
    } else {
        quotas.api_requests_month - usage.api_requests
    };
    QuotaResponse { quotas, usage, storage_remaining, api_requests_remaining }
}

/// The HTTP status with which an error is answered: the error's own where
/// it is one of 400, 403, 404, 409, 410 and 429, and 500 otherwise.
pub fn response_status(err: &ControlPlaneError) -> (r: u16)
    ensures
        r == (if err.spec_status_code() == 400 || err.spec_status_code() == 403
            || err.spec_status_code() == 404 || err.spec_status_code() == 409
            || err.spec_status_code() == 410 || err.spec_status_code() == 429 {
            err.spec_status_code()
        } else {
            500
        }),
{
    let code = err.status_code();
    if code == 400 || code == 403 || code == 404 || code == 409 || code == 410 || code == 429 {
        code
    } else {
        500
    }
}

/// Quota enforcement before a request is served.
pub struct QuotaMiddleware {
    usage_tracker: UsageTracker,
}

impl QuotaMiddleware {
    /// The usage that the checks go by.
    pub closed spec fn tracker(&self) -> UsageTracker {
        self.usage_tracker
    }

    /// Create new quota middleware.
    pub fn new(usage_tracker: UsageTracker) -> (r: Self)
        ensures
            r.tracker() == usage_tracker,
    {
        QuotaMiddleware { usage_tracker }
    }

    /// The usage that the checks go by.
    pub fn usage_tracker(&self) -> (r: &UsageTracker)
        ensures
            *r == self.tracker(),
    {
        &self.usage_tracker
    }

    /// Check and enforce the quota of API requests before a request: a
    /// request of a tenant whose count in the month has reached the quota of
    /// its plan is refused and not counted; any other is counted.
    pub fn check_quota(&mut self, tenant_id: u128, plan: &Plan, month: &str) -> (r:
        ControlPlaneResult<()>)
        ensures
            ({
                let count = old(self).tracker().api_requests_in(tenant_id, month@);
                let limit = Quotas::spec_for_plan(*plan).api_requests_month;
                if count < limit {
                    &&& r is Ok
                    &&& final(self).tracker().api_requests_in(tenant_id, month@) == capped_add(
                        count,
                        1,
                    )
                } else {
                    &&& r is Err
                    &&& is_quota_exceeded(
                        r->Err_0,
                        uuid_text(tenant_id),
                        "api_requests"@,
                        count,
                        limit,
                    )
                    &&& final(self).tracker() == old(self).tracker()
                }
            }),
    {
        let quotas = Quotas::for_plan(plan);
        let enforcer = QuotaEnforcer::new(uuid_to_string(tenant_id), quotas);
        let api_count = self.usage_tracker.get_api_request_count(tenant_id, month);
        match enforcer.enforce_api_requests(api_count) {
            Err(e) => {
                return Err(e);
            },
            Ok(_) => {},
        }
        self.usage_tracker.record_api_request(tenant_id, month);
        Ok(())
    }

    /// Check the storage quota before a write: the write is refused where
    /// the storage in use and the bytes to add come to more than the quota
    /// of the plan.
    pub fn check_storage_quota(
        &self,
        tenant_id: u128,
        plan: &Plan,
        additional_bytes: u64,
        month: &str,
    ) -> (r: ControlPlaneResult<()>)
        ensures
            ({
                let current = self.tracker().storage_in(tenant_id, month@);
                let limit = Quotas::spec_for_plan(*plan).storage_bytes;
                if capped_sum(current, additional_bytes) <= limit {
                    r is Ok
                } else {
                    r is Err && is_quota_exceeded(
                        r->Err_0,
                        uuid_text(tenant_id),
                        "storage"@,
                        current,
                        limit,
                    )
                }
            }),
    {
        let quotas = Quotas::for_plan(plan);
        let enforcer = QuotaEnforcer::new(uuid_to_string(tenant_id), quotas);
        let current = self.usage_tracker.get_storage_bytes(tenant_id, month);
        enforcer.enforce_storage(current, additional_bytes)
    }
}

} // verus!
