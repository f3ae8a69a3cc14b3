//! Schema-per-tenant provisioning: all tenants share one database and are
//! kept apart by row-level security policies.

use vstd::prelude::*;
use vstd::string::*;
use crate::control_plane::errors::ControlPlaneResult;
use crate::control_plane::tenant::{Tenant, TenantConfig};
use crate::ids::{push_uuid_groups, uuid_groups, uuid_text};
use crate::text::{char_count, find_char, owned, slice_chars, starts_with};

verus! {

/// The base URL that a provisioner has unless another is given.
pub const DEFAULT_BASE_URL: &'static str = "http://localhost:54321";

/// The name of a tenant's schema: `tenant_` and the tenant's identifier with
/// underscores between its groups.
pub open spec fn schema_name_text(tenant_id: u128) -> Seq<char> {
    "tenant_"@ + uuid_groups(tenant_id, "_"@)
}

/// The row-level security policy of a table for a tenant.
pub open spec fn rls_policy_text(table: Seq<char>, tenant_id: u128) -> Seq<char> {
    "\nCREATE POLICY tenant_isolation_"@ + table + "_"@ + uuid_groups(tenant_id, "_"@) + " ON "@
        + table + "\nFOR ALL\nUSING (tenant_id = '"@ + uuid_text(tenant_id)
        + "'::uuid)\nWITH CHECK (tenant_id = '"@ + uuid_text(tenant_id) + "'::uuid);\n"@
}

/// The statement that adds the tenant column to a table.
pub open spec fn tenant_column_text(table: Seq<char>) -> Seq<char> {
    "ALTER TABLE "@ + table + " ADD COLUMN IF NOT EXISTS tenant_id UUID NOT NULL;"@
}

/// The statements that create a tenant's schema.
pub open spec fn schema_sql_texts(tenant_id: u128) -> Seq<Seq<char>> {
    seq![
        "CREATE SCHEMA IF NOT EXISTS "@ + schema_name_text(tenant_id) + ";"@,
        "GRANT USAGE ON SCHEMA "@ + schema_name_text(tenant_id) + " TO authenticated;"@,
        "GRANT ALL ON ALL TABLES IN SCHEMA "@ + schema_name_text(tenant_id) + " TO authenticated;"@,
    ]
}

/// The statement that drops a tenant's schema.
pub open spec fn drop_schema_text(tenant_id: u128) -> Seq<char> {
    "DROP SCHEMA IF EXISTS "@ + schema_name_text(tenant_id) + " CASCADE;"@
}

/// The database URL of a tenant in a shared database.
pub open spec fn schema_url_text(base_url: Seq<char>, tenant_id: u128) -> Seq<char> {
    base_url + "?schema="@ + schema_name_text(tenant_id) + "&tenant_id="@ + uuid_text(tenant_id)
}

/// Schema-per-tenant provisioner.
#[derive(Debug, Clone)]
pub struct SchemaProvisioner {
    base_url: String,
    create_schema: bool,
}

impl SchemaProvisioner {
    /// The base URL of the shared database.
    pub closed spec fn base(&self) -> Seq<char> {
        self.base_url@
    }

    /// Whether the schema's statements are issued.
    pub closed spec fn creates_schema(&self) -> bool {
        self.create_schema
    }

    /// Create a new schema provisioner, which issues no statements.
    pub fn new() -> (r: Self)
        ensures
            r.base() == DEFAULT_BASE_URL@,
            !r.creates_schema(),
    {
        SchemaProvisioner { base_url: owned(DEFAULT_BASE_URL), create_schema: false }
    }

    /// Create with the base URL given.
    pub fn with_base_url(base_url: String) -> (r: Self)
        ensures
            r.base() == base_url@,
            !r.creates_schema(),
    {
        SchemaProvisioner { base_url, create_schema: false }
    }

    /// Enable the creation of schemas.
    pub fn with_schema_creation(self) -> (r: Self)
        ensures
            r.base() == self.base(),
            r.creates_schema(),
    {
        SchemaProvisioner { base_url: self.base_url, create_schema: true }
    }

    /// Generate the schema name for a tenant.
    pub fn schema_name(tenant_id: u128) -> (r: String)
        ensures
            r@ == schema_name_text(tenant_id),
    {
        let mut out = owned("tenant_");
        push_uuid_groups(&mut out, tenant_id, "_");
        out
    }

    /// Generate the row-level security policy for a table.
    pub fn generate_rls_policy(table: &str, tenant_id: u128) -> (r: String)
        ensures
            r@ == rls_policy_text(table@, tenant_id),
    {
        let mut out = owned("\nCREATE POLICY tenant_isolation_");
        out.append(table);
        out.append("_");
        push_uuid_groups(&mut out, tenant_id, "_");
        out.append(" ON ");
        out.append(table);
        out.append("\nFOR ALL\nUSING (tenant_id = '");
        push_uuid_groups(&mut out, tenant_id, "-");
        out.append("'::uuid)\nWITH CHECK (tenant_id = '");
        push_uuid_groups(&mut out, tenant_id, "-");
        out.append("'::uuid);\n");
        out
    }

    /// Generate the statement that adds the tenant column to a table.
    pub fn generate_tenant_column(table: &str) -> (r: String)
        ensures
            r@ == tenant_column_text(table@),
    {
        let mut out = owned("ALTER TABLE ");
        out.append(table);
        out.append(" ADD COLUMN IF NOT EXISTS tenant_id UUID NOT NULL;");
        out
    }

    /// Generate the statements that create a tenant's schema.
    pub fn generate_schema_sql(tenant_id: u128) -> (r: Vec<String>)
        ensures
            r@.len() == 3,
            forall|i: int| 0 <= i < 3 ==> (#[trigger] r@[i])@ == schema_sql_texts(tenant_id)[i],
    {
        let name = SchemaProvisioner::schema_name(tenant_id);
        let mut create = owned("CREATE SCHEMA IF NOT EXISTS ");
        create.append(name.as_str());
        create.append(";");
        let mut usage = owned("GRANT USAGE ON SCHEMA ");
        usage.append(name.as_str());
        usage.append(" TO authenticated;");
        let mut tables = owned("GRANT ALL ON ALL TABLES IN SCHEMA ");
        tables.append(name.as_str());
        tables.append(" TO authenticated;");
        let mut out: Vec<String> = Vec::new();
        out.push(create);
        out.push(usage);
        out.push(tables);
        out
    }

    /// The statements to issue when a tenant is provisioned: those of its
    /// schema where schemas are created, none otherwise.
    pub fn provision_statements(&self, tenant: &Tenant) -> (r: Vec<String>)
        ensures
            self.creates_schema() ==> r@.len() == 3 && forall|i: int|
                0 <= i < 3 ==> (#[trigger] r@[i])@ == schema_sql_texts(tenant.tenant_id)[i],
            !self.creates_schema() ==> r@.len() == 0,
    {
        if self.create_schema {
            SchemaProvisioner::generate_schema_sql(tenant.tenant_id)
        } else {
            Vec::new()
        }
    }

    /// Provision the resources of a tenant in the shared database: the
    /// tenant gets a database URL that names its schema, and no port, data
    /// directory or process.
    pub fn provision(&self, tenant: &Tenant) -> (r: ControlPlaneResult<TenantConfig>)
        ensures
            r is Ok,
            r->Ok_0.database_url@ == schema_url_text(self.base(), tenant.tenant_id),
            r->Ok_0.port is None,
            r->Ok_0.data_dir is None,
            r->Ok_0.process_id is None,
    {
        let name = SchemaProvisioner::schema_name(tenant.tenant_id);
        let mut database_url = self.base_url.clone();
        database_url.append("?schema=");
        database_url.append(name.as_str());
        database_url.append("&tenant_id=");
        push_uuid_groups(&mut database_url, tenant.tenant_id, "-");
        Ok(TenantConfig { database_url, port: None, data_dir: None, process_id: None })
    }

    /// The statement to issue when a tenant is deprovisioned, where schemas
    /// are created.
    pub fn deprovision_statement(&self, tenant: &Tenant) -> (r: Option<String>)
        ensures
            self.creates_schema() ==> r is Some && r->Some_0@ == drop_schema_text(
                tenant.tenant_id,
            ),
            !self.creates_schema() ==> r is None,
    {
        if self.create_schema {
            let mut sql = owned("DROP SCHEMA IF EXISTS ");
            sql.append(SchemaProvisioner::schema_name(tenant.tenant_id).as_str());
            sql.append(" CASCADE;");
            Some(sql)
        } else {
            None
        }
    }

    /// Deprovision the resources of a tenant: this always succeeds.
    pub fn deprovision(&self, tenant: &Tenant) -> (r: ControlPlaneResult<()>)
        ensures
            r is Ok,
    {
        Ok(())
    }
}

impl Default for SchemaProvisioner {
    fn default() -> (r: Self)
        ensures
            r.base() == DEFAULT_BASE_URL@,
            !r.creates_schema(),
    {
        SchemaProvisioner::new()
    }
}

/// The tenant context of a request.
pub struct RlsContext {
    tenant_id: u128,
}

impl RlsContext {
    /// The tenant of the context.
    pub closed spec fn tenant(&self) -> u128 {
        self.tenant_id
    }

    /// Create a new context.
    pub fn new(tenant_id: u128) -> (r: Self)
        ensures
            r.tenant() == tenant_id,
    {
        RlsContext { tenant_id }
    }

    /// Get the tenant's identifier.
    pub fn tenant_id(&self) -> (r: u128)
        ensures
            r == self.tenant(),
    {
        self.tenant_id
    }

    /// Generate the statement that sets the tenant context.
    pub fn set_context_sql(&self) -> (r: String)
        ensures
            r@ == "SET LOCAL app.tenant_id = '"@ + uuid_text(self.tenant()) + "';"@,
    {
        let mut out = owned("SET LOCAL app.tenant_id = '");
        push_uuid_groups(&mut out, self.tenant_id, "-");
        out.append("';");
        out
    }

    /// Generate the statement that reads the current tenant.
    pub fn get_context_sql() -> (r: &'static str)
        ensures
            r@ == "SELECT current_setting('app.tenant_id', true)::uuid AS tenant_id;"@,
    {
        "SELECT current_setting('app.tenant_id', true)::uuid AS tenant_id;"
    }
}

/// The tenant that a host name gives: what stands before its first dot, if
/// it has a dot.
pub open spec fn subdomain_of(host: Seq<char>) -> Option<Seq<char>> {
    match host.index_of_first('.') {
        Some(at) => Some(host.take(at)),
        None => None,
    }
}

/// Extract the tenant from a request's host name, as in
/// `tenant-name.aerodb.com`.
pub fn extract_tenant_id_from_subdomain(host: &str) -> (r: Option<String>)
    ensures
        match subdomain_of(host@) {
            Some(name) => r is Some && r->Some_0@ == name,
            None => r is None,
        },
{
    proof {
        host@.index_of_first_ensures('.');
    }
    match find_char(host, '.') {
        Some(at) => {
            proof {
                assert(host@.contains('.'));
                let first = host@.index_of_first('.')->Some_0;
                assert(first == at) by {
                    if first < at {
                        assert(host@[first] != '.');
                    }
                    if at < first {
                        assert(host@[at as int] != '.');
                    }
                }
                assert(host@.take(at as int) =~= host@.subrange(0, at as int));
            }
            Some(owned(slice_chars(host, 0, at)))
        },
        None => {
            assert(!host@.contains('.'));
            None
        },
    }
}

/// The tenant that an API key gives: what follows `ak_`, if it starts so.
pub open spec fn api_key_tenant(api_key: Seq<char>) -> Option<Seq<char>> {
    if "ak_"@.is_prefix_of(api_key) {
        Some(api_key.skip(3))
    } else {
        None
    }
}

/// Extract the tenant from an API key of the form `ak_<tenant>`.
pub fn extract_tenant_id_from_api_key(api_key: &str) -> (r: Option<String>)
    ensures
        match api_key_tenant(api_key@) {
            Some(name) => r is Some && r->Some_0@ == name,
            None => r is None,
        },
{
    if starts_with(api_key, "ak_") {
        proof {
            reveal_strlit("ak_");
            assert(api_key@.skip(3) =~= api_key@.subrange(3, api_key@.len() as int));
        }
        let n = char_count(api_key);
        Some(owned(slice_chars(api_key, 3, n)))
    } else {
        None
    }
}

} // verus!
