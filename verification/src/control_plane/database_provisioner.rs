//! Database-per-tenant provisioning: each tenant gets a database process of
//! its own, on a port of its own and in a data directory of its own.

use std::collections::HashMap;
use vstd::prelude::*;
use vstd::std_specs::hash::*;
use vstd::std_specs::iter::IteratorSpec;
use vstd::string::*;
use crate::control_plane::errors::{ControlPlaneError, ControlPlaneResult};
use crate::control_plane::tenant::{Tenant, TenantConfig};
use crate::ids::{uuid_text, uuid_to_string};
use crate::text::{decimal, decimal_string, join_path, joined_path, owned, push_decimal};

verus! {

broadcast use vstd::std_specs::hash::group_hash_axioms;

/// The first port that a tenant's database may get.
pub const PORT_RANGE_START: u16 = 50000;

/// The end of the ports that a tenant's database may get; this port itself
/// is never given.
pub const PORT_RANGE_END: u16 = 60000;

/// The data directory under which the tenants' directories lie unless
/// another is given.
pub const DEFAULT_TENANTS_DIR: &'static str = "/data/tenants";

/// The seconds to wait for a started database to answer.
pub const HEALTH_TIMEOUT_SECS: u64 = 30;

/// The milliseconds between two health checks.
pub const HEALTH_RETRY_MS: u64 = 500;

/// The URL of a tenant's database on a port.
pub open spec fn local_url_text(port: u16) -> Seq<char> {
    "http://localhost:"@ + decimal(port as nat)
}

/// The URL at which a database on a port reports its health.
pub open spec fn health_url_text(port: u16) -> Seq<char> {
    local_url_text(port) + "/health"@
}

/// The URL of a tenant's database on a port.
pub fn local_url(port: u16) -> (r: String)
    ensures
        r@ == local_url_text(port),
{
    let mut out = owned("http://localhost:");
    push_decimal(&mut out, port as u64);
    out
}

/// The URL at which a database on a port reports its health.
pub fn health_url(port: u16) -> (r: String)
    ensures
        r@ == health_url_text(port),
{
    let mut out = local_url(port);
    out.append("/health");
    out
}

/// A step of bringing up a tenant's database that can fail.
#[derive(Debug, Clone, Copy, PartialEq, Eq)]
pub enum LaunchStep {
    /// Creating the data directory.
    CreateDataDir,
    /// Running the command that initialises the database.
    RunInit,
    /// The initialising command, which ran and reported a failure.
    InitResult,
    /// Starting the database process.
    Start,
}

/// Whether an error says that provisioning a tenant failed for a reason.
pub open spec fn is_provisioning_failed(e: ControlPlaneError, tenant: Seq<char>, reason: Seq<char>)
    -> bool {
    e is ProvisioningFailed && e->ProvisioningFailed_tenant_id@ == tenant
        && e->ProvisioningFailed_reason@ == reason
}

/// Whether an error says that a process could not be handled.
pub open spec fn is_process_error(e: ControlPlaneError, message: Seq<char>) -> bool {
    e is ProcessError && e->ProcessError_message@ == message
}

/// Whether an error reports the failure of a step of bringing up a tenant's
/// database, `detail` being what the system said.
pub open spec fn is_launch_failure(
    e: ControlPlaneError,
    tenant_id: u128,
    step: LaunchStep,
    detail: Seq<char>,
) -> bool {
    match step {
        LaunchStep::CreateDataDir => is_provisioning_failed(
            e,
            uuid_text(tenant_id),
            "Failed to create data directory: "@ + detail,
        ),
        LaunchStep::RunInit => is_process_error(e, "Failed to initialize database: "@ + detail),
        LaunchStep::InitResult => is_provisioning_failed(
            e,
            uuid_text(tenant_id),
            "Database init failed: "@ + detail,
        ),
        LaunchStep::Start => is_process_error(e, "Failed to start database: "@ + detail),
    }
}

/// The error for a failed step of bringing up a tenant's database.
pub fn launch_failure(tenant_id: u128, step: LaunchStep, detail: &str) -> (r: ControlPlaneError)
    ensures
        is_launch_failure(r, tenant_id, step, detail@),
{
    match step {
        LaunchStep::CreateDataDir => {
            let mut reason = owned("Failed to create data directory: ");
            reason.append(detail);
            ControlPlaneError::ProvisioningFailed { tenant_id: uuid_to_string(tenant_id), reason }
        },
        LaunchStep::RunInit => {
            let mut message = owned("Failed to initialize database: ");
            message.append(detail);
            ControlPlaneError::ProcessError { message }
        },
        LaunchStep::InitResult => {
            let mut reason = owned("Database init failed: ");
            reason.append(detail);
            ControlPlaneError::ProvisioningFailed { tenant_id: uuid_to_string(tenant_id), reason }
        },
        LaunchStep::Start => {
            let mut message = owned("Failed to start database: ");
            message.append(detail);
            ControlPlaneError::ProcessError { message }
        },
    }
}

/// The error for a data directory that could not be removed.
pub fn removal_failure(tenant_id: u128, detail: &str) -> (r: ControlPlaneError)
    ensures
        r is DeprovisioningFailed,
        r->DeprovisioningFailed_tenant_id@ == uuid_text(tenant_id),
        r->DeprovisioningFailed_reason@ == "Failed to remove data directory: "@ + detail@,
{
    let mut reason = owned("Failed to remove data directory: ");
    reason.append(detail);
    ControlPlaneError::DeprovisioningFailed { tenant_id: uuid_to_string(tenant_id), reason }
}

/// What to do after a health check of a started database.
#[derive(Debug, Clone, PartialEq, Eq)]
pub enum HealthStep {
    /// The database answered: it is ready.
    Ready,
    /// Wait for the milliseconds given and check again.
    RetryAfterMs(u64),
    /// The database did not answer in time.
    TimedOut(ControlPlaneError),
}

/// What follows a health check: a database that answered is ready, whatever
/// the time; one that did not is checked again after half a second until
/// more than `timeout_secs` whole seconds have passed since the first check.
pub fn health_step(answered: bool, elapsed_secs: u64, timeout_secs: u64) -> (r: HealthStep)
    ensures
        answered ==> r == HealthStep::Ready,
        !answered && elapsed_secs <= timeout_secs ==> r == HealthStep::RetryAfterMs(
            HEALTH_RETRY_MS,
        ),
        !answered && elapsed_secs > timeout_secs ==> r is TimedOut && is_provisioning_failed(
            r->TimedOut_0,
            "unknown"@,
            "Health check timeout"@,
        ),
{
    if answered {
        HealthStep::Ready
    } else if elapsed_secs > timeout_secs {
        HealthStep::TimedOut(
            ControlPlaneError::ProvisioningFailed {
                tenant_id: owned("unknown"),
                reason: owned("Health check timeout"),
            },
        )
    } else {
        HealthStep::RetryAfterMs(HEALTH_RETRY_MS)
    }
}

/// What is run to bring up a tenant's database.
#[derive(Debug, Clone, PartialEq, Eq)]
pub struct LaunchPlan {
    /// The directory to create.
    pub data_dir: String,
    /// The program to run, twice.
    pub program: String,
    /// The arguments that initialise the database.
    pub init_args: Vec<String>,
    /// The arguments that start the database.
    pub serve_args: Vec<String>,
    /// The URL at which the started database reports its health.
    pub health_url: String,
    /// The seconds to wait for it.
    pub timeout_secs: u64,
}

/// The arguments that initialise a database in a data directory.
pub open spec fn init_arg_texts(data_dir: Seq<char>) -> Seq<Seq<char>> {
    seq!["init"@, "--data-dir"@, data_dir]
}

/// The arguments that start a database on a port in a data directory.
pub open spec fn serve_arg_texts(port: u16, data_dir: Seq<char>) -> Seq<Seq<char>> {
    seq!["serve"@, "--port"@, decimal(port as nat), "--data-dir"@, data_dir]
}

/// The texts of a list of arguments.
pub open spec fn arg_texts(args: Seq<String>) -> Seq<Seq<char>> {
    args.map_values(|a: String| a@)
}

/// Database-per-tenant provisioner.
#[derive(Debug)]
pub struct DatabaseProvisioner {
    base_data_dir: String,
    allocated_ports: HashMap<u128, u16>,
    next_port: u16,
    start_processes: bool,
}

impl DatabaseProvisioner {
    /// The directory under which the tenants' directories lie.
    pub closed spec fn base_dir(&self) -> Seq<char> {
        self.base_data_dir@
    }

    /// The ports that are allocated, by tenant.
    pub closed spec fn ports(&self) -> Map<u128, u16> {
        self.allocated_ports@
    }

    /// The port that the next tenant gets.
    pub closed spec fn next(&self) -> u16 {
        self.next_port
    }

    /// Whether database processes are started.
    pub closed spec fn starts_processes(&self) -> bool {
        self.start_processes
    }

    /// The provisioner's invariant: the next port is in the range or at its
    /// end, every allocated port lies in the range and below the next port,
    /// and no two tenants have the same port.
    pub open spec fn wf(&self) -> bool {
        &&& PORT_RANGE_START <= self.next() <= PORT_RANGE_END
        &&& forall|id: u128| #[trigger]
            self.ports().dom().contains(id) ==> PORT_RANGE_START <= self.ports()[id] < self.next()
        &&& forall|a: u128, b: u128|
            a != b && #[trigger] self.ports().dom().contains(a) && #[trigger] self.ports().dom().contains(
                b,
            ) ==> self.ports()[a] != self.ports()[b]
    }

    /// Create a new database provisioner, which starts no processes.
    pub fn new() -> (r: Self)
        ensures
            r.wf(),
            r.base_dir() == DEFAULT_TENANTS_DIR@,
            r.ports() == Map::<u128, u16>::empty(),
            r.next() == PORT_RANGE_START,
            !r.starts_processes(),
    {
        DatabaseProvisioner {
            base_data_dir: owned(DEFAULT_TENANTS_DIR),
            allocated_ports: HashMap::new(),
            next_port: PORT_RANGE_START,
            start_processes: false,
        }
    }

    /// Create with the data directory given.
    pub fn with_data_dir(data_dir: String) -> (r: Self)
        ensures
            r.wf(),
            r.base_dir() == data_dir@,
            r.ports() == Map::<u128, u16>::empty(),
            r.next() == PORT_RANGE_START,
            !r.starts_processes(),
    {
        DatabaseProvisioner {
            base_data_dir: data_dir,
            allocated_ports: HashMap::new(),
            next_port: PORT_RANGE_START,
            start_processes: false,
        }
    }

    /// Enable the starting of processes.
    pub fn with_process_spawning(self) -> (r: Self)
        ensures
            r.base_dir() == self.base_dir(),
            r.ports() == self.ports(),
            r.next() == self.next(),
            r.starts_processes(),
    {
        DatabaseProvisioner {
            base_data_dir: self.base_data_dir,
            allocated_ports: self.allocated_ports,
            next_port: self.next_port,
            start_processes: true,
        }
    }

    /// Allocate a port for a tenant: the one that it has, or else the next
    /// one, unless the range is used up.
    pub fn allocate_port(&mut self, tenant_id: u128) -> (r: ControlPlaneResult<u16>)
        requires
            old(self).wf(),
        ensures
            final(self).wf(),
            final(self).base_dir() == old(self).base_dir(),
            final(self).starts_processes() == old(self).starts_processes(),
            old(self).ports().dom().contains(tenant_id) ==> r == Ok::<u16, ControlPlaneError>(
                old(self).ports()[tenant_id],
            ) && final(self).ports() == old(self).ports() && final(self).next() == old(self).next(),
            !old(self).ports().dom().contains(tenant_id) && old(self).next() >= PORT_RANGE_END
                ==> r is Err && is_provisioning_failed(
                r->Err_0,
                uuid_text(tenant_id),
                "No available ports"@,
            ) && final(self).ports() == old(self).ports() && final(self).next() == old(self).next(),
            !old(self).ports().dom().contains(tenant_id) && old(self).next() < PORT_RANGE_END
                ==> r == Ok::<u16, ControlPlaneError>(old(self).next()) && final(self).ports()
                == old(self).ports().insert(tenant_id, old(self).next()) && final(self).next()
                == old(self).next() + 1,
    {
        match self.allocated_ports.get(&tenant_id) {
            Some(port) => {
                return Ok(*port);
            },
            None => {},
        }
        let port = self.next_port;
        if port >= PORT_RANGE_END {
            return Err(
                ControlPlaneError::ProvisioningFailed {
                    tenant_id: uuid_to_string(tenant_id),
                    reason: owned("No available ports"),
                },
            );
        }
        self.next_port = port + 1;
        self.allocated_ports.insert(tenant_id, port);
        Ok(port)
    }

    /// Release a tenant's port. The port is not given again.
    pub fn release_port(&mut self, tenant_id: u128)
        requires
            old(self).wf(),
        ensures
            final(self).wf(),
            final(self).ports() == old(self).ports().remove(tenant_id),
            final(self).next() == old(self).next(),
            final(self).base_dir() == old(self).base_dir(),
            final(self).starts_processes() == old(self).starts_processes(),
    {
        let ghost before = self.allocated_ports@;
        self.allocated_ports.remove(&tenant_id);
        proof {
            let after = self.allocated_ports@;
            assert(after == before.remove(tenant_id));
            assert forall|id: u128| #[trigger] after.dom().contains(id) implies PORT_RANGE_START
                <= after[id] < self.next_port by {
                assert(old(self).ports().dom().contains(id));
                assert(after[id] == before[id]);
            }
            assert forall|a: u128, b: u128|
                a != b && #[trigger] after.dom().contains(a) && #[trigger] after.dom().contains(
                    b,
                ) implies after[a] != after[b] by {
                assert(old(self).ports().dom().contains(a));
                assert(old(self).ports().dom().contains(b));
                assert(before[a] != before[b]);
                assert(after[a] == before[a]);
                assert(after[b] == before[b]);
            }
        }
    }

    /// Get the data directory of a tenant.
    pub fn tenant_data_dir(&self, tenant_id: u128) -> (r: String)
        ensures
            r@ == joined_path(self.base_dir(), uuid_text(tenant_id)),
    {
        join_path(self.base_data_dir.as_str(), uuid_to_string(tenant_id).as_str())
    }

    /// Provision the resources of a tenant with a database of its own: the
    /// tenant gets its port, the URL of that port and its data directory.
    pub fn provision(&mut self, tenant: &Tenant) -> (r: ControlPlaneResult<TenantConfig>)
        requires
            old(self).wf(),
        ensures
            final(self).wf(),
            final(self).base_dir() == old(self).base_dir(),
            final(self).starts_processes() == old(self).starts_processes(),
            !old(self).ports().dom().contains(tenant.tenant_id) && old(self).next()
                >= PORT_RANGE_END ==> r is Err && is_provisioning_failed(
                r->Err_0,
                uuid_text(tenant.tenant_id),
                "No available ports"@,
            ) && final(self).ports() == old(self).ports(),
            old(self).ports().dom().contains(tenant.tenant_id) || old(self).next()
                < PORT_RANGE_END ==> {
                &&& r is Ok
                &&& final(self).ports().dom().contains(tenant.tenant_id)
                &&& r->Ok_0.port == Some(final(self).ports()[tenant.tenant_id])
                &&& r->Ok_0.port->Some_0 == (if old(self).ports().dom().contains(
                    tenant.tenant_id,
                ) {
                    old(self).ports()[tenant.tenant_id]
                } else {
                    old(self).next()
                })
                &&& final(self).ports() == old(self).ports().insert(
                    tenant.tenant_id,
                    r->Ok_0.port->Some_0,
                )
                &&& r->Ok_0.database_url@ == local_url_text(r->Ok_0.port->Some_0)
                &&& r->Ok_0.data_dir is Some
                &&& r->Ok_0.data_dir->Some_0@ == joined_path(
                    old(self).base_dir(),
                    uuid_text(tenant.tenant_id),
                )
                &&& r->Ok_0.process_id is None
            },
    {
        let port = match self.allocate_port(tenant.tenant_id) {
            Ok(port) => port,
            Err(e) => {
                return Err(e);
            },
        };
        let data_dir = self.tenant_data_dir(tenant.tenant_id);
        assert(final(self).ports() =~= old(self).ports().insert(tenant.tenant_id, port));
        Ok(
            TenantConfig {
                database_url: local_url(port),
                port: Some(port),
                data_dir: Some(data_dir),
                process_id: None,
            },
        )
    }

    /// What is to be run to bring up the database of a tenant that was
    /// provisioned on `port`, where processes are started; nothing
    /// otherwise.
    pub fn launch_plan(&self, tenant: &Tenant, port: u16) -> (r: Option<LaunchPlan>)
        ensures
            r is Some == self.starts_processes(),
            r is Some ==> {
                let dir = joined_path(self.base_dir(), uuid_text(tenant.tenant_id));
                &&& r->Some_0.data_dir@ == dir
                &&& r->Some_0.program@ == "aerodb"@
                &&& arg_texts(r->Some_0.init_args@) == init_arg_texts(dir)
                &&& arg_texts(r->Some_0.serve_args@) == serve_arg_texts(port, dir)
                &&& r->Some_0.health_url@ == health_url_text(port)
                &&& r->Some_0.timeout_secs == HEALTH_TIMEOUT_SECS
            },
    {
        if !self.start_processes {
            return None;
        }
        let data_dir = self.tenant_data_dir(tenant.tenant_id);
        let mut init_args: Vec<String> = Vec::new();
        init_args.push(owned("init"));
        init_args.push(owned("--data-dir"));
        init_args.push(data_dir.clone());
        let mut serve_args: Vec<String> = Vec::new();
        serve_args.push(owned("serve"));
        serve_args.push(owned("--port"));
        serve_args.push(decimal_string(port as u64));
        serve_args.push(owned("--data-dir"));
        serve_args.push(data_dir.clone());
        assert(arg_texts(init_args@) =~= init_arg_texts(data_dir@));
        assert(arg_texts(serve_args@) =~= serve_arg_texts(port, data_dir@));
        Some(
            LaunchPlan {
                data_dir,
                program: owned("aerodb"),
                init_args,
                serve_args,
                health_url: health_url(port),
                timeout_secs: HEALTH_TIMEOUT_SECS,
            },
        )
    }

    /// Deprovision the resources of a tenant: its port is released. Where
    /// processes are started, the result is the data directory to remove.
    pub fn deprovision(&mut self, tenant: &Tenant) -> (r: ControlPlaneResult<Option<String>>)
        requires
            old(self).wf(),
        ensures
            final(self).wf(),
            final(self).ports() == old(self).ports().remove(tenant.tenant_id),
            final(self).next() == old(self).next(),
            final(self).base_dir() == old(self).base_dir(),
            final(self).starts_processes() == old(self).starts_processes(),
            r is Ok,
            r->Ok_0 is Some == old(self).starts_processes(),
            r->Ok_0 is Some ==> r->Ok_0->Some_0@ == joined_path(
                old(self).base_dir(),
                uuid_text(tenant.tenant_id),
            ),
    {
        self.release_port(tenant.tenant_id);
        if self.start_processes {
            Ok(Some(self.tenant_data_dir(tenant.tenant_id)))
        } else {
            Ok(None)
        }
    }

    /// Get the allocated port of a tenant.
    pub fn get_port(&self, tenant_id: u128) -> (r: Option<u16>)
        ensures
            r == (if self.ports().dom().contains(tenant_id) {
                Some(self.ports()[tenant_id])
            } else {
                None
            }),
    {
        match self.allocated_ports.get(&tenant_id) {
            Some(port) => Some(*port),
            None => None,
        }
    }

    /// List all tenants with a port, each once and with its port.
    pub fn list_allocated(&self) -> (r: Vec<(u128, u16)>)
        ensures
            r@.len() == self.ports().dom().len(),
            forall|i: int|
                0 <= i < r@.len() ==> self.ports().dom().contains((#[trigger] r@[i]).0)
                    && self.ports()[r@[i].0] == r@[i].1,
            forall|i: int, j: int| 0 <= i < j < r@.len() ==> r@[i].0 != r@[j].0,
    {
        let mut out: Vec<(u128, u16)> = Vec::new();
        let keys = self.allocated_ports.keys();
        let ghost all = keys.remaining();
        assert(all.unref().to_set() == self.allocated_ports@.dom());
        for key in it: keys
            invariant
                it.seq() == all,
                all.unref().to_set() == self.allocated_ports@.dom(),
                all.no_duplicates(),
                all.len() == self.allocated_ports@.dom().len(),
                out@.len() == it.index(),
                forall|i: int|
                    0 <= i < out@.len() ==> (#[trigger] out@[i]).0 == *all[i]
                        && self.allocated_ports@.dom().contains(out@[i].0)
                        && self.allocated_ports@[out@[i].0] == out@[i].1,
        {
            proof {
                assert(all.unref()[it.index()] == *key);
                assert(all.unref().to_set().contains(*key));
            }
            match self.allocated_ports.get(key) {
                Some(port) => {
                    out.push((*key, *port));
                },
                None => {
                    assert(false);
                },
            }
        }
        out
    }
}

impl Default for DatabaseProvisioner {
    fn default() -> (r: Self)
        ensures
            r.wf(),
            r.ports() == Map::<u128, u16>::empty(),
            !r.starts_processes(),
    {
        DatabaseProvisioner::new()
    }
}

/// Database instance information.
#[derive(Debug, Clone, PartialEq, Eq)]
pub struct TenantDatabase {
    /// The tenant.
    pub tenant_id: u128,
    /// The port.
    pub port: u16,
    /// The data directory.
    pub data_dir: String,
    /// The process, if it runs.
    pub process_id: Option<u32>,
}

} // verus!
