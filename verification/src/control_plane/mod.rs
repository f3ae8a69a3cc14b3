//! Multi-tenant control plane: tenants, their plans and quotas, and the
//! errors of tenant operations.

pub mod billing;
pub mod database_provisioner;
pub mod errors;
pub mod metering;
pub mod provisioning;
pub mod quota;
pub mod registry;
pub mod schema_provisioner;
pub mod tenant;
