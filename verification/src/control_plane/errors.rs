//! Control plane errors: error types for multi-tenant operations.

use vstd::prelude::*;
use vstd::string::*;
use crate::text::{decimal, owned, push_decimal};

verus! {

/// Control plane error types.
#[derive(Debug, Clone, PartialEq, Eq)]
#[allow(inconsistent_fields)]
pub enum ControlPlaneError {
    /// Tenant not found.
    TenantNotFound { tenant_id: String },
    /// Tenant name already exists.
    TenantNameExists { name: String },
    /// Invalid tenant name.
    InvalidTenantName { name: String, reason: String },
    /// Provisioning failed.
    ProvisioningFailed { tenant_id: String, reason: String },
    /// Deprovisioning failed.
    DeprovisioningFailed { tenant_id: String, reason: String },
    /// Quota exceeded.
    QuotaExceeded { tenant_id: String, resource: String, used: u64, limit: u64 },
    /// Tenant is suspended.
    TenantSuspended { tenant_id: String },
    /// Tenant is deleted.
    TenantDeleted { tenant_id: String },
    /// Invalid isolation model for operation.
    InvalidIsolationModel { model: String, reason: String },
    /// Database connection error.
    DatabaseError { message: String },
    /// Process management error.
    ProcessError { message: String },
    /// Configuration error.
    ConfigError { message: String },
    /// Internal error.
    Internal { message: String },
}

/// Result type for control plane operations.
pub type ControlPlaneResult<T> = Result<T, ControlPlaneError>;

impl ControlPlaneError {
    /// The HTTP status of the error.
    pub open spec fn spec_status_code(self) -> u16 {
        match self {
            ControlPlaneError::TenantNotFound { .. } => 404,
            ControlPlaneError::TenantNameExists { .. } => 409,
            ControlPlaneError::InvalidTenantName { .. } => 400,
            ControlPlaneError::ProvisioningFailed { .. } => 500,
            ControlPlaneError::DeprovisioningFailed { .. } => 500,
            ControlPlaneError::QuotaExceeded { .. } => 429,
            ControlPlaneError::TenantSuspended { .. } => 403,
            ControlPlaneError::TenantDeleted { .. } => 410,
            ControlPlaneError::InvalidIsolationModel { .. } => 400,
            ControlPlaneError::DatabaseError { .. } => 500,
            ControlPlaneError::ProcessError { .. } => 500,
            ControlPlaneError::ConfigError { .. } => 400,
            ControlPlaneError::Internal { .. } => 500,
        }
    }

    /// The code of the error for API responses.
    pub open spec fn code_text(self) -> Seq<char> {
        match self {
            ControlPlaneError::TenantNotFound { .. } => "TENANT_NOT_FOUND"@,
            ControlPlaneError::TenantNameExists { .. } => "TENANT_NAME_EXISTS"@,
            ControlPlaneError::InvalidTenantName { .. } => "INVALID_TENANT_NAME"@,
            ControlPlaneError::ProvisioningFailed { .. } => "PROVISIONING_FAILED"@,
            ControlPlaneError::DeprovisioningFailed { .. } => "DEPROVISIONING_FAILED"@,
            ControlPlaneError::QuotaExceeded { .. } => "QUOTA_EXCEEDED"@,
            ControlPlaneError::TenantSuspended { .. } => "TENANT_SUSPENDED"@,
            ControlPlaneError::TenantDeleted { .. } => "TENANT_DELETED"@,
            ControlPlaneError::InvalidIsolationModel { .. } => "INVALID_ISOLATION_MODEL"@,
            ControlPlaneError::DatabaseError { .. } => "DATABASE_ERROR"@,
            ControlPlaneError::ProcessError { .. } => "PROCESS_ERROR"@,
            ControlPlaneError::ConfigError { .. } => "CONFIG_ERROR"@,
            ControlPlaneError::Internal { .. } => "INTERNAL_ERROR"@,
        }
    }

    /// The text of the error.
    pub open spec fn message_text(self) -> Seq<char> {
        match self {
            ControlPlaneError::TenantNotFound { tenant_id } => "Tenant not found: "@ + tenant_id@,
            ControlPlaneError::TenantNameExists { name } => "Tenant name already exists: "@
                + name@,
            ControlPlaneError::InvalidTenantName { name, reason } => "Invalid tenant name '"@
                + name@ + "': "@ + reason@,
            ControlPlaneError::ProvisioningFailed { tenant_id, reason } => "Provisioning failed for "@
                + tenant_id@ + ": "@ + reason@,
            ControlPlaneError::DeprovisioningFailed { tenant_id, reason } => "Deprovisioning failed for "@
                + tenant_id@ + ": "@ + reason@,
            ControlPlaneError::QuotaExceeded { tenant_id, resource, used, limit } => "Quota exceeded for "@
                + tenant_id@ + " on "@ + resource@ + ": "@ + decimal(used as nat) + " / "@
                + decimal(limit as nat),
            ControlPlaneError::TenantSuspended { tenant_id } => "Tenant is suspended: "@
                + tenant_id@,
            ControlPlaneError::TenantDeleted { tenant_id } => "Tenant is deleted: "@ + tenant_id@,
            ControlPlaneError::InvalidIsolationModel { model, reason } => "Invalid isolation model '"@
                + model@ + "': "@ + reason@,
            ControlPlaneError::DatabaseError { message } => "Database error: "@ + message@,
            ControlPlaneError::ProcessError { message } => "Process error: "@ + message@,
            ControlPlaneError::ConfigError { message } => "Configuration error: "@ + message@,
            ControlPlaneError::Internal { message } => "Internal error: "@ + message@,
        }
    }

    /// Get HTTP status code for this error.
    pub fn status_code(&self) -> (r: u16)
        ensures
            r == self.spec_status_code(),
    {
        match self {
            ControlPlaneError::TenantNotFound { .. } => 404,
            ControlPlaneError::TenantNameExists { .. } => 409,
            ControlPlaneError::InvalidTenantName { .. } => 400,
            ControlPlaneError::ProvisioningFailed { .. } => 500,
            ControlPlaneError::DeprovisioningFailed { .. } => 500,
            ControlPlaneError::QuotaExceeded { .. } => 429,
            ControlPlaneError::TenantSuspended { .. } => 403,
            ControlPlaneError::TenantDeleted { .. } => 410,
            ControlPlaneError::InvalidIsolationModel { .. } => 400,
            ControlPlaneError::DatabaseError { .. } => 500,
            ControlPlaneError::ProcessError { .. } => 500,
            ControlPlaneError::ConfigError { .. } => 400,
            ControlPlaneError::Internal { .. } => 500,
        }
    }

    /// Get error code for API responses.
    pub fn error_code(&self) -> (r: &'static str)
        ensures
            r@ == self.code_text(),
    {
        match self {
            ControlPlaneError::TenantNotFound { .. } => "TENANT_NOT_FOUND",
            ControlPlaneError::TenantNameExists { .. } => "TENANT_NAME_EXISTS",
            ControlPlaneError::InvalidTenantName { .. } => "INVALID_TENANT_NAME",
            ControlPlaneError::ProvisioningFailed { .. } => "PROVISIONING_FAILED",
            ControlPlaneError::DeprovisioningFailed { .. } => "DEPROVISIONING_FAILED",
            ControlPlaneError::QuotaExceeded { .. } => "QUOTA_EXCEEDED",
            ControlPlaneError::TenantSuspended { .. } => "TENANT_SUSPENDED",
            ControlPlaneError::TenantDeleted { .. } => "TENANT_DELETED",
            ControlPlaneError::InvalidIsolationModel { .. } => "INVALID_ISOLATION_MODEL",
            ControlPlaneError::DatabaseError { .. } => "DATABASE_ERROR",
            ControlPlaneError::ProcessError { .. } => "PROCESS_ERROR",
            ControlPlaneError::ConfigError { .. } => "CONFIG_ERROR",
            ControlPlaneError::Internal { .. } => "INTERNAL_ERROR",
        }
    }

    /// The text of the error.
    pub fn to_string(&self) -> (r: String)
        ensures
            r@ == self.message_text(),
    {
        match self {
            ControlPlaneError::TenantNotFound { tenant_id } => {
                let mut out = owned("Tenant not found: ");
                out.append(tenant_id.as_str());
                out
            },
            ControlPlaneError::TenantNameExists { name } => {
                let mut out = owned("Tenant name already exists: ");
                out.append(name.as_str());
                out
            },
            ControlPlaneError::InvalidTenantName { name, reason } => {
                let mut out = owned("Invalid tenant name '");
                out.append(name.as_str());
                out.append("': ");
                out.append(reason.as_str());
                out
            },
            ControlPlaneError::ProvisioningFailed { tenant_id, reason } => {
                let mut out = owned("Provisioning failed for ");
                out.append(tenant_id.as_str());
                out.append(": ");
                out.append(reason.as_str());
                out
            },
            ControlPlaneError::DeprovisioningFailed { tenant_id, reason } => {
                let mut out = owned("Deprovisioning failed for ");
                out.append(tenant_id.as_str());
                out.append(": ");
                out.append(reason.as_str());
                out
            },
            ControlPlaneError::QuotaExceeded { tenant_id, resource, used, limit } => {
                let mut out = owned("Quota exceeded for ");
                out.append(tenant_id.as_str());
                out.append(" on ");
                out.append(resource.as_str());
                out.append(": ");
                push_decimal(&mut out, *used);
                out.append(" / ");
                push_decimal(&mut out, *limit);
                out
            },
            ControlPlaneError::TenantSuspended { tenant_id } => {
                let mut out = owned("Tenant is suspended: ");
                out.append(tenant_id.as_str());
                out
            },
            ControlPlaneError::TenantDeleted { tenant_id } => {
                let mut out = owned("Tenant is deleted: ");
                out.append(tenant_id.as_str());
                out
            },
            ControlPlaneError::InvalidIsolationModel { model, reason } => {
                let mut out = owned("Invalid isolation model '");
                out.append(model.as_str());
                out.append("': ");
                out.append(reason.as_str());
                out
            },
            ControlPlaneError::DatabaseError { message } => {
                let mut out = owned("Database error: ");
                out.append(message.as_str());
                out
            },
            ControlPlaneError::ProcessError { message } => {
                let mut out = owned("Process error: ");
                out.append(message.as_str());
                out
            },
            ControlPlaneError::ConfigError { message } => {
                let mut out = owned("Configuration error: ");
                out.append(message.as_str());
                out
            },
            ControlPlaneError::Internal { message } => {
                let mut out = owned("Internal error: ");
                out.append(message.as_str());
                out
            },
        }
    }
}

/// API error response: the error's text, its code and its HTTP status.
#[derive(Debug, Clone, PartialEq, Eq)]
pub struct ErrorResponse {
    pub error: String,
    pub code: &'static str,
    pub status: u16,
}

impl ErrorResponse {
    /// The response that reports an error.
    pub fn from_error(err: &ControlPlaneError) -> (r: Self)
        ensures
            r.error@ == err.message_text(),
            r.code@ == err.code_text(),
            r.status == err.spec_status_code(),
    {
        ErrorResponse { error: err.to_string(), code: err.error_code(), status: err.status_code() }
    }
}

} // verus!
