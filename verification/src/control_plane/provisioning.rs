//! Provisioning orchestration: creating and deleting tenants across the
//! isolation models.

use vstd::prelude::*;
use vstd::string::*;
use crate::control_plane::database_provisioner::{
    is_provisioning_failed,
    local_url_text,
    DatabaseProvisioner,
    PORT_RANGE_END,
};
use crate::control_plane::errors::{ControlPlaneError, ControlPlaneResult};
use crate::control_plane::registry::{
    active_ids,
    indexed,
    is_listed,
    is_not_found,
    is_shown,
    live_ids,
    name_fault,
    unindexed,
    IndexEntry,
    TenantRegistry,
};
use crate::control_plane::schema_provisioner::{schema_url_text, SchemaProvisioner};
use crate::control_plane::tenant::{
    CreateTenantRequest,
    CreateTenantResponse,
    IsolationModel,
    Tenant,
    TenantConfig,
    TenantListItem,
    TenantStatus,
};
use crate::ids::{random_uuid, uuid_text, uuid_to_string};
use crate::text::{joined_path, owned};

verus! {

/// A provisioner of a tenant's resources.
pub trait Provisioner {
    /// Provision resources for a tenant.
    fn provision(&mut self, tenant: &Tenant) -> ControlPlaneResult<TenantConfig>;

    /// Deprovision resources for a tenant.
    fn deprovision(&mut self, tenant: &Tenant) -> ControlPlaneResult<()>;
}

/// Whether `after` is the tenant `before` once it is provisioned with a
/// configuration at `now_ms`: active, with the configuration and its
/// database URL.
pub open spec fn is_provisioned(after: Tenant, before: Tenant, config: TenantConfig, now_ms: i64)
    -> bool {
    after == (Tenant {
        status: TenantStatus::Active,
        database_url: config.database_url,
        config: Some(config),
        updated_at_ms: now_ms,
        ..before
    })
}

/// Whether a configuration is that of a tenant in the shared database at
/// `base`.
pub open spec fn is_schema_config(config: TenantConfig, base: Seq<char>, tenant_id: u128) -> bool {
    &&& config.database_url@ == schema_url_text(base, tenant_id)
    &&& config.port is None
    &&& config.data_dir is None
    &&& config.process_id is None
}

/// Whether a configuration is that of a tenant with a database of its own on
/// `port`, under the directory `base_dir`.
pub open spec fn is_database_config(
    config: TenantConfig,
    base_dir: Seq<char>,
    tenant_id: u128,
    port: u16,
) -> bool {
    &&& config.database_url@ == local_url_text(port)
    &&& config.port == Some(port)
    &&& config.data_dir is Some
    &&& config.data_dir->Some_0@ == joined_path(base_dir, uuid_text(tenant_id))
    &&& config.process_id is None
}

/// Whether a response reports a tenant as it was created.
pub open spec fn is_response_for(response: CreateTenantResponse, tenant: Tenant) -> bool {
    &&& response.tenant_id == tenant.tenant_id
    &&& response.database_url == tenant.database_url
    &&& response.api_key == tenant.api_key
    &&& response.created_at_ms == tenant.created_at_ms
}

/// Whether a tenant is a new one made for a request at `now_ms`, with some
/// identifier and some API key.
pub open spec fn is_fresh_for(tenant: Tenant, request: CreateTenantRequest, now_ms: i64) -> bool {
    exists|tenant_id: u128, key_id: u128|
        tenant.is_new(
            request.name@,
            request.plan,
            request.region@,
            request.isolation,
            now_ms,
            tenant_id,
            key_id,
        )
}

/// Provisioning orchestrator.
pub struct ProvisioningService {
    registry: TenantRegistry,
    schema_provisioner: SchemaProvisioner,
    database_provisioner: DatabaseProvisioner,
}

impl ProvisioningService {
    /// The tenant registry.
    pub closed spec fn tenants(&self) -> TenantRegistry {
        self.registry
    }

    /// The provisioner of tenants in the shared database.
    pub closed spec fn schemas(&self) -> SchemaProvisioner {
        self.schema_provisioner
    }

    /// The provisioner of tenants with a database of their own.
    pub closed spec fn databases(&self) -> DatabaseProvisioner {
        self.database_provisioner
    }

    /// The service's invariant: that of its database provisioner.
    pub open spec fn wf(&self) -> bool {
        self.databases().wf()
    }

    /// Create a new provisioning service.
    pub fn new(registry: TenantRegistry) -> (r: Self)
        ensures
            r.wf(),
            r.tenants() == registry,
            r.databases().ports() == Map::<u128, u16>::empty(),
    {
        ProvisioningService {
            registry,
            schema_provisioner: SchemaProvisioner::new(),
            database_provisioner: DatabaseProvisioner::new(),
        }
    }

    /// Create with the provisioners given.
    pub fn with_provisioners(
        registry: TenantRegistry,
        schema_provisioner: SchemaProvisioner,
        database_provisioner: DatabaseProvisioner,
    ) -> (r: Self)
        ensures
            r.tenants() == registry,
            r.schemas() == schema_provisioner,
            r.databases() == database_provisioner,
    {
        ProvisioningService { registry, schema_provisioner, database_provisioner }
    }

    /// Get the registry.
    pub fn registry(&self) -> (r: &TenantRegistry)
        ensures
            *r == self.tenants(),
    {
        &self.registry
    }

    /// Whether `self` is what follows `before` once the tenant `tenant` was
    /// entered and provisioned at `now_ms`, with `r` reported: the tenant's
    /// name and API key are taken; a tenant in the shared database, or one
    /// with a database of its own for which a port is left, is active with
    /// its configuration; for one in a cluster, or for which no port is
    /// left, an error is reported and the tenant stays as it was entered.
    pub open spec fn created(
        &self,
        before: &Self,
        tenant: Tenant,
        now_ms: i64,
        r: ControlPlaneResult<CreateTenantResponse>,
    ) -> bool {
        let id = tenant.tenant_id;
        let entered = before.tenants().tenants().insert(id, tenant);
        &&& self.schemas() == before.schemas()
        &&& self.tenants().tracker() == before.tenants().tracker()
        &&& self.tenants().names() == before.tenants().names().push(
            IndexEntry { key: tenant.name, tenant_id: id },
        )
        &&& self.tenants().api_keys() == before.tenants().api_keys().push(
            IndexEntry { key: tenant.api_key, tenant_id: id },
        )
        &&& self.tenants().tenants().dom() == entered.dom()
        &&& forall|other: u128|
            other != id && entered.dom().contains(other) ==> #[trigger] self.tenants().tenants()[other]
                == entered[other]
        &&& match tenant.isolation {
            IsolationModel::Schema => {
                &&& r is Ok
                &&& is_response_for(r->Ok_0, tenant)
                &&& self.databases().ports() == before.databases().ports()
                &&& self.tenants().tenants()[id].config is Some
                &&& is_schema_config(
                    self.tenants().tenants()[id].config->Some_0,
                    before.schemas().base(),
                    id,
                )
                &&& is_provisioned(
                    self.tenants().tenants()[id],
                    tenant,
                    self.tenants().tenants()[id].config->Some_0,
                    now_ms,
                )
            },
            IsolationModel::Database => {
                let ports = before.databases().ports();
                if !ports.dom().contains(id) && before.databases().next() >= PORT_RANGE_END {
                    &&& r is Err
                    &&& is_provisioning_failed(r->Err_0, uuid_text(id), "No available ports"@)
                    &&& self.databases().ports() == ports
                    &&& self.tenants().tenants()[id] == tenant
                } else {
                    let port = if ports.dom().contains(id) {
                        ports[id]
                    } else {
                        before.databases().next()
                    };
                    &&& r is Ok
                    &&& is_response_for(r->Ok_0, tenant)
                    &&& self.databases().ports() == ports.insert(id, port)
                    &&& self.tenants().tenants()[id].config is Some
                    &&& is_database_config(
                        self.tenants().tenants()[id].config->Some_0,
                        before.databases().base_dir(),
                        id,
                        port,
                    )
                    &&& is_provisioned(
                        self.tenants().tenants()[id],
                        tenant,
                        self.tenants().tenants()[id].config->Some_0,
                        now_ms,
                    )
                }
            },
            IsolationModel::Cluster => {
                &&& r is Err
                &&& r->Err_0 is InvalidIsolationModel
                &&& r->Err_0->InvalidIsolationModel_model@ == "cluster"@
                &&& r->Err_0->InvalidIsolationModel_reason@
                    == "Cluster isolation is not yet implemented"@
                &&& self.databases().ports() == before.databases().ports()
                &&& self.tenants().tenants()[id] == tenant
            },
        }
    }

    /// Whether a request is refused before anything is entered, with `r`
    /// reported: its name is not valid, or it is taken.
    pub open spec fn refused(
        &self,
        request: CreateTenantRequest,
        r: ControlPlaneResult<CreateTenantResponse>,
    ) -> bool {
        match name_fault(request.name@) {
            Some(reason) => r is Err && r->Err_0 is InvalidTenantName
                && r->Err_0->InvalidTenantName_name@ == request.name@
                && r->Err_0->InvalidTenantName_reason@ == reason,
            None => indexed(self.tenants().names(), request.name@) is Some && r is Err
                && r->Err_0 is TenantNameExists && r->Err_0->TenantNameExists_name@
                == request.name@,
        }
    }

    /// Whether a request's name is valid and free.
    pub open spec fn accepts(&self, request: CreateTenantRequest) -> bool {
        name_fault(request.name@) is None && indexed(self.tenants().names(), request.name@) is None
    }

    /// Create and provision a tenant with the identifier and the key
    /// identifier given.
    pub fn create_tenant_with_ids(
        &mut self,
        request: CreateTenantRequest,
        now_ms: i64,
        tenant_id: u128,
        key_id: u128,
    ) -> (r: ControlPlaneResult<CreateTenantResponse>)
        requires
            old(self).wf(),
        ensures
            final(self).wf(),
            !old(self).accepts(request) ==> *final(self) == *old(self) && old(self).refused(
                request,
                r,
            ),
            old(self).accepts(request) ==> exists|tenant: Tenant|
                tenant.is_new(
                    request.name@,
                    request.plan,
                    request.region@,
                    request.isolation,
                    now_ms,
                    tenant_id,
                    key_id,
                ) && #[trigger] final(self).created(old(self), tenant, now_ms, r),
    {
        let tenant = Tenant::with_ids(
            request.name.clone(),
            request.plan,
            request.region.clone(),
            request.isolation,
            now_ms,
            tenant_id,
            key_id,
        );
        let r = self.enter_and_provision(tenant, now_ms);
        r
    }

    fn enter_and_provision(&mut self, tenant: Tenant, now_ms: i64) -> (r: ControlPlaneResult<
        CreateTenantResponse,
    >)
        requires
            old(self).wf(),
            tenant.config is None,
            tenant.status == TenantStatus::Provisioning,
        ensures
            final(self).wf(),
            match name_fault(tenant.name@) {
                Some(reason) => *final(self) == *old(self) && r is Err
                    && r->Err_0 is InvalidTenantName && r->Err_0->InvalidTenantName_name@
                    == tenant.name@ && r->Err_0->InvalidTenantName_reason@ == reason,
                None => if indexed(old(self).tenants().names(), tenant.name@) is Some {
                    *final(self) == *old(self) && r is Err && r->Err_0 is TenantNameExists
                        && r->Err_0->TenantNameExists_name@ == tenant.name@
                } else {
                    final(self).created(old(self), tenant, now_ms, r)
                },
            },
    {
        let id = tenant.tenant_id;
        let response = CreateTenantResponse::from_tenant(&tenant);
        let isolation = tenant.isolation;
        let ghost shown = tenant;
        let probe = Tenant {
            tenant_id: tenant.tenant_id,
            name: tenant.name.clone(),
            plan: tenant.plan,
            region: tenant.region.clone(),
            isolation: tenant.isolation,
            status: tenant.status,
            database_url: tenant.database_url.clone(),
            api_key: tenant.api_key.clone(),
            config: None,
            created_at_ms: tenant.created_at_ms,
            updated_at_ms: tenant.updated_at_ms,
            deleted_at_ms: tenant.deleted_at_ms,
        };
        assert(probe == tenant);
        match self.registry.insert(tenant) {
            Err(e) => {
                return Err(e);
            },
            Ok(_) => {},
        }
        let config = match isolation {
            IsolationModel::Schema => match self.schema_provisioner.provision(&probe) {
                Ok(config) => config,
                Err(e) => {
                    return Err(e);
                },
            },
            IsolationModel::Database => match self.database_provisioner.provision(&probe) {
                Ok(config) => config,
                Err(e) => {
                    return Err(e);
                },
            },
            IsolationModel::Cluster => {
                return Err(
                    ControlPlaneError::InvalidIsolationModel {
                        model: owned("cluster"),
                        reason: owned("Cluster isolation is not yet implemented"),
                    },
                );
            },
        };
        match self.registry.set_config(id, config, now_ms) {
            Err(e) => {
                return Err(e);
            },
            Ok(_) => {},
        }
        match self.registry.activate(id, now_ms) {
            Err(e) => {
                return Err(e);
            },
            Ok(_) => {},
        }
        assert(final(self).tenants().tenants().dom() =~= old(self).tenants().tenants().insert(
            id,
            shown,
        ).dom());
        Ok(response)
    }

    /// Create and provision a new tenant, with a fresh random identifier and
    /// a fresh random API key.
    pub fn create_tenant(&mut self, request: CreateTenantRequest, now_ms: i64) -> (r:
        ControlPlaneResult<CreateTenantResponse>)
        requires
            old(self).wf(),
        ensures
            final(self).wf(),
            !old(self).accepts(request) ==> *final(self) == *old(self) && old(self).refused(
                request,
                r,
            ),
            old(self).accepts(request) ==> exists|tenant: Tenant|
                is_fresh_for(tenant, request, now_ms) && #[trigger] final(self).created(
                    old(self),
                    tenant,
                    now_ms,
                    r,
                ),
    {
        let tenant = Tenant::new(
            request.name.clone(),
            request.plan,
            request.region.clone(),
            request.isolation,
            now_ms,
        );
        self.enter_and_provision(tenant, now_ms)
    }

    /// Delete a tenant: its resources are deprovisioned and it is marked as
    /// deleted. An unknown tenant and one that is deleted already are
    /// refused. The result is the data directory that is to be removed, for
    /// a tenant with a database of its own where processes are started.
    pub fn delete_tenant(&mut self, tenant_id: u128, now_ms: i64) -> (r: ControlPlaneResult<
        Option<String>,
    >)
        requires
            old(self).wf(),
        ensures
            final(self).wf(),
            final(self).schemas() == old(self).schemas(),
            !old(self).tenants().tenants().dom().contains(tenant_id) ==> is_not_found(
                r,
                uuid_text(tenant_id),
            ) && *final(self) == *old(self),
            old(self).tenants().tenants().dom().contains(tenant_id) ==> {
                let tenant = old(self).tenants().tenants()[tenant_id];
                if (tenant.status == TenantStatus::Deleted || tenant.deleted_at_ms is Some) {
                    &&& r is Err
                    &&& r->Err_0 is TenantDeleted
                    &&& r->Err_0->TenantDeleted_tenant_id@ == uuid_text(tenant_id)
                    &&& *final(self) == *old(self)
                } else {
                    &&& r is Ok
                    &&& final(self).tenants().tenants() == old(self).tenants().tenants().insert(
                        tenant_id,
                        Tenant {
                            status: TenantStatus::Deleted,
                            deleted_at_ms: Some(now_ms),
                            updated_at_ms: now_ms,
                            ..tenant
                        },
                    )
                    &&& final(self).tenants().names() == unindexed(
                        old(self).tenants().names(),
                        tenant.name@,
                    )
                    &&& final(self).tenants().api_keys() == unindexed(
                        old(self).tenants().api_keys(),
                        tenant.api_key@,
                    )
                    &&& final(self).databases().ports() == (if tenant.isolation
                        == IsolationModel::Database {
                        old(self).databases().ports().remove(tenant.tenant_id)
                    } else {
                        old(self).databases().ports()
                    })
                    &&& (r->Ok_0 is Some) == (tenant.isolation == IsolationModel::Database && old(self).databases().starts_processes())
                    &&& (r->Ok_0 is Some ==> r->Ok_0->Some_0@ == joined_path(
                        old(self).databases().base_dir(),
                        uuid_text(tenant.tenant_id),
                    ))
                }
            },
    {
        let tenant = match self.registry.get(tenant_id) {
            Ok(tenant) => tenant,
            Err(e) => {
                return Err(e);
            },
        };
        if tenant.is_deleted() {
            return Err(ControlPlaneError::TenantDeleted { tenant_id: uuid_to_string(tenant_id) });
        }
        let removal = match tenant.isolation {
            IsolationModel::Schema => {
                match self.schema_provisioner.deprovision(&tenant) {
                    Ok(_) => None,
                    Err(e) => {
                        return Err(e);
                    },
                }
            },
            IsolationModel::Database => {
                match self.database_provisioner.deprovision(&tenant) {
                    Ok(removal) => removal,
                    Err(e) => {
                        return Err(e);
                    },
                }
            },
            IsolationModel::Cluster => None,
        };
        match self.registry.delete(tenant_id, now_ms) {
            Ok(_) => Ok(removal),
            Err(e) => Err(e),
        }
    }

    /// Get tenant details.
    pub fn get_tenant(&self, tenant_id: u128) -> (r: ControlPlaneResult<Tenant>)
        ensures
            self.tenants().tenants().dom().contains(tenant_id) ==> r == Ok::<
                Tenant,
                ControlPlaneError,
            >(self.tenants().tenants()[tenant_id]),
            !self.tenants().tenants().dom().contains(tenant_id) ==> is_not_found(
                r,
                uuid_text(tenant_id),
            ),
    {
        self.registry.get(tenant_id)
    }

    /// Get a tenant by its name.
    pub fn get_tenant_by_name(&self, name: &str) -> (r: ControlPlaneResult<Tenant>)
        ensures
            match indexed(self.tenants().names(), name@) {
                None => is_not_found(r, name@),
                Some(id) => if self.tenants().tenants().dom().contains(id) {
                    r == Ok::<Tenant, ControlPlaneError>(self.tenants().tenants()[id])
                } else {
                    is_not_found(r, uuid_text(id))
                },
            },
    {
        self.registry.get_by_name(name)
    }

    /// Get a tenant by its API key.
    pub fn get_tenant_by_api_key(&self, api_key: &str) -> (r: ControlPlaneResult<Tenant>)
        ensures
            match indexed(self.tenants().api_keys(), api_key@) {
                None => is_not_found(r, "invalid api key"@),
                Some(id) => if self.tenants().tenants().dom().contains(id) {
                    r == Ok::<Tenant, ControlPlaneError>(self.tenants().tenants()[id])
                } else {
                    is_not_found(r, uuid_text(id))
                },
            },
    {
        self.registry.get_by_api_key(api_key)
    }

    /// List all tenants that are not deleted, each once and with its usage
    /// in the month given as the current one.
    pub fn list_tenants(&self, month: &str) -> (r: Vec<TenantListItem>)
        ensures
            r@.len() == live_ids(self.tenants().tenants()).len(),
            forall|i: int|
                0 <= i < r@.len() ==> is_listed(
                    #[trigger] r@[i],
                    self.tenants().tenants(),
                    self.tenants().tracker(),
                    month@,
                ),
            forall|id: u128| #[trigger]
                live_ids(self.tenants().tenants()).contains(id) ==> is_shown(
                    r@,
                    self.tenants().tenants()[id],
                    self.tenants().tracker(),
                    month@,
                ),
    {
        self.registry.list(month)
    }

    /// Check that a tenant may be served: it is known, not deleted and not
    /// suspended.
    pub fn verify_tenant_access(&self, tenant_id: u128) -> (r: ControlPlaneResult<Tenant>)
        ensures
            !self.tenants().tenants().dom().contains(tenant_id) ==> is_not_found(
                r,
                uuid_text(tenant_id),
            ),
            self.tenants().tenants().dom().contains(tenant_id) ==> {
                let tenant = self.tenants().tenants()[tenant_id];
                if (tenant.status == TenantStatus::Deleted || tenant.deleted_at_ms is Some) {
                    r is Err && r->Err_0 is TenantDeleted && r->Err_0->TenantDeleted_tenant_id@
                        == uuid_text(tenant_id)
                } else if tenant.status == TenantStatus::Suspended {
                    r is Err && r->Err_0 is TenantSuspended
                        && r->Err_0->TenantSuspended_tenant_id@ == uuid_text(tenant_id)
                } else {
                    r == Ok::<Tenant, ControlPlaneError>(tenant)
                }
            },
    {
        let tenant = match self.registry.get(tenant_id) {
            Ok(tenant) => tenant,
            Err(e) => {
                return Err(e);
            },
        };
        if tenant.is_deleted() {
            return Err(ControlPlaneError::TenantDeleted { tenant_id: uuid_to_string(tenant_id) });
        }
        let suspended = match tenant.status {
            TenantStatus::Suspended => true,
            _ => false,
        };
        if suspended {
            return Err(
                ControlPlaneError::TenantSuspended { tenant_id: uuid_to_string(tenant_id) },
            );
        }
        Ok(tenant)
    }

    /// Suspend a tenant, for instance one that went over a quota.
    pub fn suspend_tenant(&mut self, tenant_id: u128, now_ms: i64) -> (r: ControlPlaneResult<()>)
        ensures
            final(self).schemas() == old(self).schemas(),
            final(self).databases() == old(self).databases(),
            final(self).tenants().same_indexes(&old(self).tenants()),
            !old(self).tenants().tenants().dom().contains(tenant_id) ==> is_not_found(
                r,
                uuid_text(tenant_id),
            ) && final(self).tenants().tenants() == old(self).tenants().tenants(),
            old(self).tenants().tenants().dom().contains(tenant_id) ==> r is Ok && final(self).tenants().tenants() == old(self).tenants().tenants().insert(
                tenant_id,
                Tenant {
                    status: TenantStatus::Suspended,
                    updated_at_ms: now_ms,
                    ..old(self).tenants().tenants()[tenant_id]
                },
            ),
    {
        self.registry.suspend(tenant_id, now_ms)
    }

    /// Reactivate a suspended tenant.
    pub fn activate_tenant(&mut self, tenant_id: u128, now_ms: i64) -> (r: ControlPlaneResult<()>)
        ensures
            final(self).schemas() == old(self).schemas(),
            final(self).databases() == old(self).databases(),
            final(self).tenants().same_indexes(&old(self).tenants()),
            !old(self).tenants().tenants().dom().contains(tenant_id) ==> is_not_found(
                r,
                uuid_text(tenant_id),
            ) && final(self).tenants().tenants() == old(self).tenants().tenants(),
            old(self).tenants().tenants().dom().contains(tenant_id) ==> r is Ok && final(self).tenants().tenants() == old(self).tenants().tenants().insert(
                tenant_id,
                Tenant {
                    status: TenantStatus::Active,
                    updated_at_ms: now_ms,
                    ..old(self).tenants().tenants()[tenant_id]
                },
            ),
    {
        self.registry.activate(tenant_id, now_ms)
    }
}

} // verus!
