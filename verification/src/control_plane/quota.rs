//! Quota management: resource quota definitions and their enforcement.

use vstd::prelude::*;
use crate::control_plane::errors::{ControlPlaneError, ControlPlaneResult};
use crate::control_plane::tenant::Plan;
use crate::text::owned;

verus! {

/// Resource quotas per tenant.
#[derive(Debug, Clone, Copy, PartialEq, Eq, Structural)]
pub struct Quotas {
    /// Maximum storage in bytes (documents + indexes).
    pub storage_bytes: u64,
    /// Maximum API requests per month.
    pub api_requests_month: u64,
    /// Maximum concurrent realtime connections.
    pub realtime_connections: u64,
    /// Maximum file storage in bytes.
    pub file_storage_bytes: u64,
    /// Maximum number of collections/tables.
    pub max_collections: u32,
    /// Maximum document size in bytes.
    pub max_document_size: u64,
}

impl Quotas {
    /// The quotas of the free tier.
    pub open spec fn spec_free() -> Self {
        Quotas {
            storage_bytes: 524288000,
            api_requests_month: 10000,
            realtime_connections: 100,
            file_storage_bytes: 1073741824,
            max_collections: 20,
            max_document_size: 1048576,
        }
    }

    /// The quotas of the pro tier.
    pub open spec fn spec_pro() -> Self {
        Quotas {
            storage_bytes: 107374182400,
            api_requests_month: 1000000,
            realtime_connections: 10000,
            file_storage_bytes: 107374182400,
            max_collections: 500,
            max_document_size: 16777216,
        }
    }

    /// The quotas of the enterprise tier: the largest values there are.
    pub open spec fn spec_enterprise() -> Self {
        Quotas {
            storage_bytes: u64::MAX,
            api_requests_month: u64::MAX,
            realtime_connections: u64::MAX,
            file_storage_bytes: u64::MAX,
            max_collections: u32::MAX,
            max_document_size: u64::MAX,
        }
    }

    /// The quotas of a plan.
    pub open spec fn spec_for_plan(plan: Plan) -> Self {
        match plan {
            Plan::Free => Quotas::spec_free(),
            Plan::Pro => Quotas::spec_pro(),
            Plan::Enterprise => Quotas::spec_enterprise(),
        }
    }

    /// Get quotas for a specific plan.
    pub fn for_plan(plan: &Plan) -> (r: Self)
        ensures
            r == Quotas::spec_for_plan(*plan),
    {
        match plan {
            Plan::Free => Quotas::free(),
            Plan::Pro => Quotas::pro(),
            Plan::Enterprise => Quotas::enterprise(),
        }
    }

    /// Free tier quotas: 500 MB of storage, 10,000 requests a month, 100
    /// connections, 1 GB of files, 20 collections, documents of 1 MB.
    pub fn free() -> (r: Self)
        ensures
            r == Quotas::spec_free(),
    {
        Quotas {
            storage_bytes: 500 * 1024 * 1024,
            api_requests_month: 10_000,
            realtime_connections: 100,
            file_storage_bytes: 1024 * 1024 * 1024,
            max_collections: 20,
            max_document_size: 1024 * 1024,
        }
    }

    /// Pro tier quotas: 100 GB of storage, a million requests a month,
    /// 10,000 connections, 100 GB of files, 500 collections, documents of
    /// 16 MB.
    pub fn pro() -> (r: Self)
        ensures
            r == Quotas::spec_pro(),
    {
        Quotas {
            storage_bytes: 100 * 1024 * 1024 * 1024,
            api_requests_month: 1_000_000,
            realtime_connections: 10_000,
            file_storage_bytes: 100 * 1024 * 1024 * 1024,
            max_collections: 500,
            max_document_size: 16 * 1024 * 1024,
        }
    }

    /// Enterprise tier (unlimited).
    pub fn enterprise() -> (r: Self)
        ensures
            r == Quotas::spec_enterprise(),
    {
        Quotas {
            storage_bytes: u64::MAX,
            api_requests_month: u64::MAX,
            realtime_connections: u64::MAX,
            file_storage_bytes: u64::MAX,
            max_collections: u32::MAX,
            max_document_size: u64::MAX,
        }
    }

    /// Unlimited quotas (for the service role).
    pub fn unlimited() -> (r: Self)
        ensures
            r == Quotas::spec_enterprise(),
    {
        Quotas::enterprise()
    }
}

impl Default for Quotas {
    fn default() -> (r: Self)
        ensures
            r == Quotas::spec_free(),
    {
        Quotas::free()
    }
}

/// The sum of two byte counts, capped at the 64-bit range.
pub open spec fn capped_sum(a: u64, b: u64) -> u64 {
    if a + b > u64::MAX {
        u64::MAX
    } else {
        (a + b) as u64
    }
}

/// The sum of two byte counts, capped at the 64-bit range.
pub fn sum_capped(a: u64, b: u64) -> (r: u64)
    ensures
        r == capped_sum(a, b),
{
    if b > u64::MAX - a {
        u64::MAX
    } else {
        a + b
    }
}

/// Quota enforcement result.
#[derive(Debug, Clone, Copy, PartialEq, Eq, Structural)]
pub struct QuotaCheck {
    /// Whether the quota check passed.
    pub allowed: bool,
    /// Current usage.
    pub used: u64,
    /// Limit.
    pub limit: u64,
    /// Remaining.
    pub remaining: u64,
}

impl QuotaCheck {
    /// A passing check: what remains is the limit less the usage, zero when
    /// the usage is above the limit.
    pub open spec fn spec_allowed(used: u64, limit: u64) -> Self {
        QuotaCheck {
            allowed: true,
            used,
            limit,
            remaining: if limit >= used {
                (limit - used) as u64
            } else {
                0
            },
        }
    }

    /// A failing check: nothing remains.
    pub open spec fn spec_denied(used: u64, limit: u64) -> Self {
        QuotaCheck { allowed: false, used, limit, remaining: 0 }
    }

    /// The check that passes exactly when `within` holds.
    pub open spec fn decided(within: bool, used: u64, limit: u64) -> Self {
        if within {
            QuotaCheck::spec_allowed(used, limit)
        } else {
            QuotaCheck::spec_denied(used, limit)
        }
    }

    /// Create a passing quota check.
    pub fn allowed(used: u64, limit: u64) -> (r: Self)
        ensures
            r == QuotaCheck::spec_allowed(used, limit),
    {
        QuotaCheck {
            allowed: true,
            used,
            limit,
            remaining: if limit >= used {
                limit - used
            } else {
                0
            },
        }
    }

    /// Create a failing quota check.
    pub fn denied(used: u64, limit: u64) -> (r: Self)
        ensures
            r == QuotaCheck::spec_denied(used, limit),
    {
        QuotaCheck { allowed: false, used, limit, remaining: 0 }
    }
}

/// Whether the error reports that `tenant_id` exceeded the quota of
/// `resource` with the usage and the limit given.
pub open spec fn is_quota_exceeded(
    e: ControlPlaneError,
    tenant_id: Seq<char>,
    resource: Seq<char>,
    used: u64,
    limit: u64,
) -> bool {
    &&& e is QuotaExceeded
    &&& e->QuotaExceeded_tenant_id@ == tenant_id
    &&& e->resource@ == resource
    &&& e->used == used
    &&& e->QuotaExceeded_limit == limit
}

/// Quota enforcer for tenant operations.
#[derive(Debug, Clone, PartialEq, Eq)]
pub struct QuotaEnforcer {
    quotas: Quotas,
    tenant_id: String,
}

impl QuotaEnforcer {
    /// The quotas enforced.
    pub closed spec fn spec_quotas(&self) -> Quotas {
        self.quotas
    }

    /// The tenant whose quotas are enforced.
    pub closed spec fn spec_tenant_id(&self) -> Seq<char> {
        self.tenant_id@
    }

    /// Whether `r` enforces a check: `Ok` when the check allows, else the
    /// error that names the tenant, the resource, the usage and the limit.
    pub open spec fn enforces(
        &self,
        r: ControlPlaneResult<()>,
        check: QuotaCheck,
        resource: Seq<char>,
    ) -> bool {
        if check.allowed {
            r is Ok
        } else {
            r is Err && is_quota_exceeded(
                r->Err_0,
                self.spec_tenant_id(),
                resource,
                check.used,
                check.limit,
            )
        }
    }

    /// Create a new quota enforcer.
    pub fn new(tenant_id: String, quotas: Quotas) -> (r: Self)
        ensures
            r.spec_quotas() == quotas,
            r.spec_tenant_id() == tenant_id@,
    {
        QuotaEnforcer { quotas, tenant_id }
    }

    fn exceeded(&self, resource: &str, check: QuotaCheck) -> (r: ControlPlaneError)
        ensures
            is_quota_exceeded(r, self.spec_tenant_id(), resource@, check.used, check.limit),
    {
        ControlPlaneError::QuotaExceeded {
            tenant_id: self.tenant_id.clone(),
            resource: owned(resource),
            used: check.used,
            limit: check.limit,
        }
    }

    /// Check if storage usage is within quota: the usage with the addition,
    /// capped at the 64-bit range, may reach the quota but not pass it.
    pub fn check_storage(&self, current_bytes: u64, additional_bytes: u64) -> (r: QuotaCheck)
        ensures
            r == QuotaCheck::decided(
                capped_sum(current_bytes, additional_bytes) <= self.spec_quotas().storage_bytes,
                current_bytes,
                self.spec_quotas().storage_bytes,
            ),
    {
        let total = sum_capped(current_bytes, additional_bytes);
        if total <= self.quotas.storage_bytes {
            QuotaCheck::allowed(current_bytes, self.quotas.storage_bytes)
        } else {
            QuotaCheck::denied(current_bytes, self.quotas.storage_bytes)
        }
    }

    /// Enforce storage quota (returns error if exceeded).
    pub fn enforce_storage(&self, current_bytes: u64, additional_bytes: u64) -> (r:
        ControlPlaneResult<()>)
        ensures
            self.enforces(
                r,
                QuotaCheck::decided(
                    capped_sum(current_bytes, additional_bytes) <= self.spec_quotas().storage_bytes,
                    current_bytes,
                    self.spec_quotas().storage_bytes,
                ),
                "storage"@,
            ),
    {
        let check = self.check_storage(current_bytes, additional_bytes);
        if check.allowed {
            Ok(())
        } else {
            Err(self.exceeded("storage", check))
        }
    }

    /// Check if API request count is within quota: the count must be below
    /// the quota.
    pub fn check_api_requests(&self, current_count: u64) -> (r: QuotaCheck)
        ensures
            r == QuotaCheck::decided(
                current_count < self.spec_quotas().api_requests_month,
                current_count,
                self.spec_quotas().api_requests_month,
            ),
    {
        if current_count < self.quotas.api_requests_month {
            QuotaCheck::allowed(current_count, self.quotas.api_requests_month)
        } else {
            QuotaCheck::denied(current_count, self.quotas.api_requests_month)
        }
    }

    /// Enforce API request quota.
    pub fn enforce_api_requests(&self, current_count: u64) -> (r: ControlPlaneResult<()>)
        ensures
            self.enforces(
                r,
                QuotaCheck::decided(
                    current_count < self.spec_quotas().api_requests_month,
                    current_count,
                    self.spec_quotas().api_requests_month,
                ),
                "api_requests"@,
            ),
    {
        let check = self.check_api_requests(current_count);
        if check.allowed {
            Ok(())
        } else {
            Err(self.exceeded("api_requests", check))
        }
    }

    /// Check if realtime connection count is within quota: the count must be
    /// below the quota.
    pub fn check_realtime_connections(&self, current_count: u64) -> (r: QuotaCheck)
        ensures
            r == QuotaCheck::decided(
                current_count < self.spec_quotas().realtime_connections,
                current_count,
                self.spec_quotas().realtime_connections,
            ),
    {
        if current_count < self.quotas.realtime_connections {
            QuotaCheck::allowed(current_count, self.quotas.realtime_connections)
        } else {
            QuotaCheck::denied(current_count, self.quotas.realtime_connections)
        }
    }

    /// Enforce realtime connection quota.
    pub fn enforce_realtime_connections(&self, current_count: u64) -> (r: ControlPlaneResult<()>)
        ensures
            self.enforces(
                r,
                QuotaCheck::decided(
                    current_count < self.spec_quotas().realtime_connections,
                    current_count,
                    self.spec_quotas().realtime_connections,
                ),
                "realtime_connections"@,
            ),
    {
        let check = self.check_realtime_connections(current_count);
        if check.allowed {
            Ok(())
        } else {
            Err(self.exceeded("realtime_connections", check))
        }
    }

    /// Check if file storage usage is within quota: the usage with the
    /// addition, capped at the 64-bit range, may reach the quota but not pass
    /// it.
    pub fn check_file_storage(&self, current_bytes: u64, additional_bytes: u64) -> (r: QuotaCheck)
        ensures
            r == QuotaCheck::decided(
                capped_sum(current_bytes, additional_bytes)
                    <= self.spec_quotas().file_storage_bytes,
                current_bytes,
                self.spec_quotas().file_storage_bytes,
            ),
    {
        let total = sum_capped(current_bytes, additional_bytes);
        if total <= self.quotas.file_storage_bytes {
            QuotaCheck::allowed(current_bytes, self.quotas.file_storage_bytes)
        } else {
            QuotaCheck::denied(current_bytes, self.quotas.file_storage_bytes)
        }
    }

    /// Enforce file storage quota.
    pub fn enforce_file_storage(&self, current_bytes: u64, additional_bytes: u64) -> (r:
        ControlPlaneResult<()>)
        ensures
            self.enforces(
                r,
                QuotaCheck::decided(
                    capped_sum(current_bytes, additional_bytes)
                    <= self.spec_quotas().file_storage_bytes,
                    current_bytes,
                    self.spec_quotas().file_storage_bytes,
                ),
                "file_storage"@,
            ),
    {
        let check = self.check_file_storage(current_bytes, additional_bytes);
        if check.allowed {
            Ok(())
        } else {
            Err(self.exceeded("file_storage", check))
        }
    }

    /// Check document size: a document may be as large as the quota.
    pub fn check_document_size(&self, size_bytes: u64) -> (r: QuotaCheck)
        ensures
            r == QuotaCheck::decided(
                size_bytes <= self.spec_quotas().max_document_size,
                size_bytes,
                self.spec_quotas().max_document_size,
            ),
    {
        if size_bytes <= self.quotas.max_document_size {
            QuotaCheck::allowed(size_bytes, self.quotas.max_document_size)
        } else {
            QuotaCheck::denied(size_bytes, self.quotas.max_document_size)
        }
    }

    /// Get the quotas.
    pub fn quotas(&self) -> (r: &Quotas)
        ensures
            *r == self.spec_quotas(),
    {
        &self.quotas
    }
}

} // verus!
