//! The tenant model: core types for multi-tenant management.
//!
//! Identifiers are the 128-bit values of UUIDs; times are milliseconds since
//! the epoch.

use vstd::prelude::*;
use vstd::string::*;
use crate::ids::{random_uuid, uuid_simple_text, uuid_to_simple_string};
use crate::text::owned;

verus! {

/// Tenant isolation model.
#[derive(Debug, Clone, Copy, PartialEq, Eq, Structural)]
pub enum IsolationModel {
    /// Schema-per-tenant: all tenants in one database, isolated by policy.
    Schema,
    /// Database-per-tenant: separate database processes.
    Database,
    /// Cluster-per-tenant: a dedicated cluster with replicas.
    Cluster,
}

impl Default for IsolationModel {
    fn default() -> (r: Self)
        ensures
            r == IsolationModel::Schema,
    {
        IsolationModel::Schema
    }
}

impl IsolationModel {
    /// The model's name in lower case.
    pub open spec fn name_text(self) -> Seq<char> {
        match self {
            IsolationModel::Schema => "schema"@,
            IsolationModel::Database => "database"@,
            IsolationModel::Cluster => "cluster"@,
        }
    }

    /// The model's name in lower case.
    pub fn as_str(&self) -> (r: &'static str)
        ensures
            r@ == self.name_text(),
    {
        match self {
            IsolationModel::Schema => "schema",
            IsolationModel::Database => "database",
            IsolationModel::Cluster => "cluster",
        }
    }

    /// The model's name as an owned string.
    pub fn to_string(&self) -> (r: String)
        ensures
            r@ == self.name_text(),
    {
        owned(self.as_str())
    }
}

/// Tenant pricing plan.
#[derive(Debug, Clone, Copy, PartialEq, Eq, Structural)]
pub enum Plan {
    /// Free tier: limited resources.
    Free,
    /// Pro tier: production workloads.
    Pro,
    /// Enterprise tier: unlimited resources.
    Enterprise,
}

impl Default for Plan {
    fn default() -> (r: Self)
        ensures
            r == Plan::Free,
    {
        Plan::Free
    }
}

impl Plan {
    /// The plan's name in lower case.
    pub open spec fn name_text(self) -> Seq<char> {
        match self {
            Plan::Free => "free"@,
            Plan::Pro => "pro"@,
            Plan::Enterprise => "enterprise"@,
        }
    }

    /// The plan's name in lower case.
    pub fn as_str(&self) -> (r: &'static str)
        ensures
            r@ == self.name_text(),
    {
        match self {
            Plan::Free => "free",
            Plan::Pro => "pro",
            Plan::Enterprise => "enterprise",
        }
    }

    /// The plan's name as an owned string.
    pub fn to_string(&self) -> (r: String)
        ensures
            r@ == self.name_text(),
    {
        owned(self.as_str())
    }
}

/// Tenant status.
#[derive(Debug, Clone, Copy, PartialEq, Eq, Structural)]
pub enum TenantStatus {
    /// Tenant is being provisioned.
    Provisioning,
    /// Tenant is active and serving requests.
    Active,
    /// Tenant is suspended.
    Suspended,
    /// Tenant is being deleted.
    Deleting,
    /// Tenant has been deleted.
    Deleted,
}

impl Default for TenantStatus {
    fn default() -> (r: Self)
        ensures
            r == TenantStatus::Provisioning,
    {
        TenantStatus::Provisioning
    }
}

/// Tenant configuration.
#[derive(Debug, Clone, PartialEq, Eq)]
pub struct TenantConfig {
    /// Database connection URL.
    pub database_url: String,
    /// Port for database-per-tenant mode.
    pub port: Option<u16>,
    /// Data directory for database-per-tenant mode.
    pub data_dir: Option<String>,
    /// Process ID for database-per-tenant mode.
    pub process_id: Option<u32>,
}

/// Core tenant model.
#[derive(Debug, Clone, PartialEq, Eq)]
pub struct Tenant {
    /// Unique tenant identifier.
    pub tenant_id: u128,
    /// Tenant name, used as subdomain.
    pub name: String,
    /// Pricing plan.
    pub plan: Plan,
    /// Deployment region.
    pub region: String,
    /// Isolation model.
    pub isolation: IsolationModel,
    /// Current status.
    pub status: TenantStatus,
    /// Database connection URL.
    pub database_url: String,
    /// API key for authentication.
    pub api_key: String,
    /// Tenant configuration.
    pub config: Option<TenantConfig>,
    /// Creation time.
    pub created_at_ms: i64,
    /// Last update time.
    pub updated_at_ms: i64,
    /// Deletion time (soft delete).
    pub deleted_at_ms: Option<i64>,
}

/// The API key made from a random identifier: `ak_` and the identifier's 32
/// hexadecimal digits.
pub open spec fn api_key_text(key_id: u128) -> Seq<char> {
    "ak_"@ + uuid_simple_text(key_id)
}

/// The URL of a tenant's database.
pub open spec fn tenant_url_text(name: Seq<char>) -> Seq<char> {
    "https://"@ + name + ".aerodb.com"@
}

impl Tenant {
    /// Whether `self` is the new tenant made at `now_ms` from the names and
    /// the two identifiers given.
    pub open spec fn is_new(
        &self,
        name: Seq<char>,
        plan: Plan,
        region: Seq<char>,
        isolation: IsolationModel,
        now_ms: i64,
        tenant_id: u128,
        key_id: u128,
    ) -> bool {
        &&& self.tenant_id == tenant_id
        &&& self.name@ == name
        &&& self.plan == plan
        &&& self.region@ == region
        &&& self.isolation == isolation
        &&& self.status == TenantStatus::Provisioning
        &&& self.database_url@ == tenant_url_text(name)
        &&& self.api_key@ == api_key_text(key_id)
        &&& self.config is None
        &&& self.created_at_ms == now_ms
        &&& self.updated_at_ms == now_ms
        &&& self.deleted_at_ms is None
    }

    /// A new tenant with the identifier and the key identifier given.
    pub fn with_ids(
        name: String,
        plan: Plan,
        region: String,
        isolation: IsolationModel,
        now_ms: i64,
        tenant_id: u128,
        key_id: u128,
    ) -> (r: Self)
        ensures
            r.is_new(name@, plan, region@, isolation, now_ms, tenant_id, key_id),
    {
        let mut api_key = owned("ak_");
        let digits = uuid_to_simple_string(key_id);
        api_key.append(digits.as_str());
        let mut database_url = owned("https://");
        database_url.append(name.as_str());
        database_url.append(".aerodb.com");
        Tenant {
            tenant_id,
            name,
            plan,
            region,
            isolation,
            status: TenantStatus::Provisioning,
            database_url,
            api_key,
            config: None,
            created_at_ms: now_ms,
            updated_at_ms: now_ms,
            deleted_at_ms: None,
        }
    }

    /// Create a new tenant with default values, a fresh random identifier
    /// and a fresh random API key.
    pub fn new(name: String, plan: Plan, region: String, isolation: IsolationModel, now_ms: i64) -> (r:
        Self)
        ensures
            exists|tenant_id: u128, key_id: u128|
                r.is_new(name@, plan, region@, isolation, now_ms, tenant_id, key_id),
    {
        let tenant_id = random_uuid();
        let key_id = random_uuid();
        let r = Tenant::with_ids(name, plan, region, isolation, now_ms, tenant_id, key_id);
        assert(r.is_new(name@, plan, region@, isolation, now_ms, tenant_id, key_id));
        r
    }

    /// Check if tenant is active.
    pub fn is_active(&self) -> (r: bool)
        ensures
            r == (self.status == TenantStatus::Active),
    {
        match self.status {
            TenantStatus::Active => true,
            _ => false,
        }
    }

    /// Check if tenant is deleted.
    pub fn is_deleted(&self) -> (r: bool)
        ensures
            r == (self.status == TenantStatus::Deleted || self.deleted_at_ms is Some),
    {
        let by_status = match self.status {
            TenantStatus::Deleted => true,
            _ => false,
        };
        by_status || self.deleted_at_ms.is_some()
    }

    /// Mark tenant as active.
    pub fn activate(&mut self, now_ms: i64)
        ensures
            *final(self) == (Tenant {
                status: TenantStatus::Active,
                updated_at_ms: now_ms,
                ..*old(self)
            }),
    {
        self.status = TenantStatus::Active;
        self.updated_at_ms = now_ms;
    }

    /// Mark tenant as suspended.
    pub fn suspend(&mut self, now_ms: i64)
        ensures
            *final(self) == (Tenant {
                status: TenantStatus::Suspended,
                updated_at_ms: now_ms,
                ..*old(self)
            }),
    {
        self.status = TenantStatus::Suspended;
        self.updated_at_ms = now_ms;
    }

    /// Mark tenant for deletion.
    pub fn mark_deleted(&mut self, now_ms: i64)
        ensures
            *final(self) == (Tenant {
                status: TenantStatus::Deleted,
                deleted_at_ms: Some(now_ms),
                updated_at_ms: now_ms,
                ..*old(self)
            }),
    {
        self.status = TenantStatus::Deleted;
        self.deleted_at_ms = Some(now_ms);
        self.updated_at_ms = now_ms;
    }

    /// Update tenant configuration: the tenant's database URL becomes the
    /// configuration's.
    pub fn set_config(&mut self, config: TenantConfig, now_ms: i64)
        ensures
            *final(self) == (Tenant {
                database_url: config.database_url,
                config: Some(config),
                updated_at_ms: now_ms,
                ..*old(self)
            }),
    {
        self.database_url = config.database_url.clone();
        self.config = Some(config);
        self.updated_at_ms = now_ms;
    }
}

/// Request to create a new tenant.
#[derive(Debug, Clone, PartialEq, Eq)]
pub struct CreateTenantRequest {
    /// Tenant name (subdomain).
    pub name: String,
    /// Pricing plan.
    pub plan: Plan,
    /// Deployment region.
    pub region: String,
    /// Isolation model.
    pub isolation: IsolationModel,
}

/// The region of a tenant whose request names none.
pub fn default_region() -> (r: String)
    ensures
        r@ == "us-east-1"@,
{
    owned("us-east-1")
}

/// Response after creating a tenant.
#[derive(Debug, Clone, PartialEq, Eq)]
pub struct CreateTenantResponse {
    /// Tenant ID.
    pub tenant_id: u128,
    /// Database URL.
    pub database_url: String,
    /// API key.
    pub api_key: String,
    /// Creation time.
    pub created_at_ms: i64,
}

impl CreateTenantResponse {
    /// The response that reports a created tenant.
    pub fn from_tenant(tenant: &Tenant) -> (r: Self)
        ensures
            r.tenant_id == tenant.tenant_id,
            r.database_url == tenant.database_url,
            r.api_key == tenant.api_key,
            r.created_at_ms == tenant.created_at_ms,
    {
        CreateTenantResponse {
            tenant_id: tenant.tenant_id,
            database_url: tenant.database_url.clone(),
            api_key: tenant.api_key.clone(),
            created_at_ms: tenant.created_at_ms,
        }
    }
}

/// Tenant list item (summary view).
#[derive(Debug, Clone, PartialEq, Eq)]
pub struct TenantListItem {
    /// Tenant ID.
    pub tenant_id: u128,
    /// Tenant name.
    pub name: String,
    /// Pricing plan.
    pub plan: Plan,
    /// Current status.
    pub status: TenantStatus,
    /// Creation time.
    pub created_at_ms: i64,
    /// Storage used (bytes).
    pub storage_used: u64,
    /// API requests this month.
    pub api_requests_month: u64,
}

/// Request to update a tenant.
#[derive(Debug, Clone, Copy, PartialEq, Eq, Structural)]
pub struct UpdateTenantRequest {
    /// New pricing plan (optional).
    pub plan: Option<Plan>,
    /// New status (optional).
    pub status: Option<TenantStatus>,
}

} // verus!
