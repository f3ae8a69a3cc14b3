//! Errors of resource exhaustion and limits.

use vstd::prelude::*;
use vstd::string::*;
use crate::text::{decimal, owned, push_decimal};

verus! {

/// The resource that an error is about.
#[derive(Debug, Clone, Copy, PartialEq, Eq, Structural)]
pub enum ResourceType {
    Memory,
    Disk,
    FileDescriptors,
    Connections,
    ResultSet,
}

impl ResourceType {
    /// The resource's name in lower case with underscores.
    pub open spec fn name_text(self) -> Seq<char> {
        match self {
            ResourceType::Memory => "memory"@,
            ResourceType::Disk => "disk"@,
            ResourceType::FileDescriptors => "file_descriptors"@,
            ResourceType::Connections => "connections"@,
            ResourceType::ResultSet => "result_set"@,
        }
    }

    /// The resource's name.
    pub fn as_str(&self) -> (r: &'static str)
        ensures
            r@ == self.name_text(),
    {
        match self {
            ResourceType::Memory => "memory",
            ResourceType::Disk => "disk",
            ResourceType::FileDescriptors => "file_descriptors",
            ResourceType::Connections => "connections",
            ResourceType::ResultSet => "result_set",
        }
    }

    /// The resource's name as an owned string.
    pub fn to_string(&self) -> (r: String)
        ensures
            r@ == self.name_text(),
    {
        owned(self.as_str())
    }
}

/// A refusal for want of a resource, naming the usage and the limit.
#[derive(Debug, Clone, PartialEq, Eq)]
#[allow(inconsistent_fields)]
pub enum ResourceError {
    /// Free disk space is below what the write needs on top of the reserve.
    DiskFull { available: u64, required: u64 },
    /// The allocation would pass the memory limit.
    MemoryExhausted { current: u64, requested: u64, limit: u64 },
    /// The file descriptor limit is reached.
    FileDescriptorLimit { current: usize, limit: usize },
    /// The connection limit is reached.
    ConnectionLimit { current: usize, limit: usize },
    /// The result set is larger than allowed.
    ResultSetTooLarge { requested: usize, limit: usize },
    /// The write is refused because the system is in read-only mode.
    ReadOnlyMode,
    /// A resource reading could not be taken.
    IoError(String),
}

impl ResourceError {
    /// The resource this error is about.
    pub open spec fn spec_resource_type(self) -> ResourceType {
        match self {
            ResourceError::DiskFull { .. } => ResourceType::Disk,
            ResourceError::MemoryExhausted { .. } => ResourceType::Memory,
            ResourceError::FileDescriptorLimit { .. } => ResourceType::FileDescriptors,
            ResourceError::ConnectionLimit { .. } => ResourceType::Connections,
            ResourceError::ResultSetTooLarge { .. } => ResourceType::ResultSet,
            ResourceError::ReadOnlyMode => ResourceType::Disk,
            ResourceError::IoError(_) => ResourceType::Disk,
        }
    }

    /// The HTTP status that reports this error.
    pub open spec fn spec_http_status_code(self) -> u16 {
        match self {
            ResourceError::DiskFull { .. } => 507,
            ResourceError::MemoryExhausted { .. } => 503,
            ResourceError::FileDescriptorLimit { .. } => 503,
            ResourceError::ConnectionLimit { .. } => 503,
            ResourceError::ResultSetTooLarge { .. } => 400,
            ResourceError::ReadOnlyMode => 503,
            ResourceError::IoError(_) => 500,
        }
    }

    /// Whether the condition can pass without an operator.
    pub open spec fn spec_is_recoverable(self) -> bool {
        match self {
            ResourceError::DiskFull { .. } => false,
            ResourceError::MemoryExhausted { .. } => true,
            ResourceError::FileDescriptorLimit { .. } => true,
            ResourceError::ConnectionLimit { .. } => true,
            ResourceError::ResultSetTooLarge { .. } => true,
            ResourceError::ReadOnlyMode => false,
            ResourceError::IoError(_) => false,
        }
    }

    /// The stable code of this error.
    pub open spec fn code_text(self) -> Seq<char> {
        match self {
            ResourceError::DiskFull { .. } => "AERO_RESOURCE_DISK_FULL"@,
            ResourceError::MemoryExhausted { .. } => "AERO_RESOURCE_MEMORY_EXHAUSTED"@,
            ResourceError::FileDescriptorLimit { .. } => "AERO_RESOURCE_FILE_DESCRIPTOR_LIMIT"@,
            ResourceError::ConnectionLimit { .. } => "AERO_RESOURCE_CONNECTION_LIMIT"@,
            ResourceError::ResultSetTooLarge { .. } => "AERO_RESOURCE_RESULT_SET_TOO_LARGE"@,
            ResourceError::ReadOnlyMode => "AERO_RESOURCE_READ_ONLY_MODE"@,
            ResourceError::IoError(_) => "AERO_RESOURCE_IO_ERROR"@,
        }
    }

    /// The text of the error.
    pub open spec fn message_text(self) -> Seq<char> {
        match self {
            ResourceError::DiskFull { available, required } => {
                "Disk space exhausted: "@ + decimal(available as nat) + " bytes available, "@
                    + decimal(required as nat)
                    + " bytes required. Free disk space or increase storage to continue writes."@
            },
            ResourceError::MemoryExhausted { current, requested, limit } => {
                "Memory limit exceeded: "@ + decimal(current as nat) + " bytes in use, "@
                    + decimal(requested as nat) + " bytes requested, "@ + decimal(limit as nat)
                    + " bytes limit. Reduce query scope or increase max_memory_bytes configuration."@
            },
            ResourceError::FileDescriptorLimit { current, limit } => {
                "File descriptor limit reached: "@ + decimal(current as nat) + " open, "@
                    + decimal(limit as nat)
                    + " max. Close unused connections or increase max_file_descriptors configuration."@
            },
            ResourceError::ConnectionLimit { current, limit } => {
                "Connection limit reached: "@ + decimal(current as nat) + " active, "@ + decimal(
                    limit as nat,
                ) + " max. Close unused connections or try again later."@
            },
            ResourceError::ResultSetTooLarge { requested, limit } => {
                "Result set too large: "@ + decimal(requested as nat) + " documents requested, "@
                    + decimal(limit as nat)
                    + " max allowed. Add filters or pagination to reduce result size."@
            },
            ResourceError::ReadOnlyMode => {
                "System is in read-only mode due to resource exhaustion. Free resources and restart to resume writes."@
            },
            ResourceError::IoError(msg) => "Resource check failed: "@ + msg@,
        }
    }

    /// Get the resource type for this error.
    pub fn resource_type(&self) -> (r: ResourceType)
        ensures
            r == self.spec_resource_type(),
    {
        match self {
            ResourceError::DiskFull { .. } => ResourceType::Disk,
            ResourceError::MemoryExhausted { .. } => ResourceType::Memory,
            ResourceError::FileDescriptorLimit { .. } => ResourceType::FileDescriptors,
            ResourceError::ConnectionLimit { .. } => ResourceType::Connections,
            ResourceError::ResultSetTooLarge { .. } => ResourceType::ResultSet,
            ResourceError::ReadOnlyMode => ResourceType::Disk,
            ResourceError::IoError(_) => ResourceType::Disk,
        }
    }

    /// Get the HTTP status code for this error.
    pub fn http_status_code(&self) -> (r: u16)
        ensures
            r == self.spec_http_status_code(),
    {
        match self {
            ResourceError::DiskFull { .. } => 507,
            ResourceError::MemoryExhausted { .. } => 503,
            ResourceError::FileDescriptorLimit { .. } => 503,
            ResourceError::ConnectionLimit { .. } => 503,
            ResourceError::ResultSetTooLarge { .. } => 400,
            ResourceError::ReadOnlyMode => 503,
            ResourceError::IoError(_) => 500,
        }
    }

    /// Whether the error can pass without a restart.
    pub fn is_recoverable(&self) -> (r: bool)
        ensures
            r == self.spec_is_recoverable(),
    {
        match self {
            ResourceError::DiskFull { .. } => false,
            ResourceError::MemoryExhausted { .. } => true,
            ResourceError::FileDescriptorLimit { .. } => true,
            ResourceError::ConnectionLimit { .. } => true,
            ResourceError::ResultSetTooLarge { .. } => true,
            ResourceError::ReadOnlyMode => false,
            ResourceError::IoError(_) => false,
        }
    }

    /// The stable code of this error, of the form `AERO_RESOURCE_<REASON>`.
    pub fn code(&self) -> (r: &'static str)
        ensures
            r@ == self.code_text(),
    {
        match self {
            ResourceError::DiskFull { .. } => "AERO_RESOURCE_DISK_FULL",
            ResourceError::MemoryExhausted { .. } => "AERO_RESOURCE_MEMORY_EXHAUSTED",
            ResourceError::FileDescriptorLimit { .. } => "AERO_RESOURCE_FILE_DESCRIPTOR_LIMIT",
            ResourceError::ConnectionLimit { .. } => "AERO_RESOURCE_CONNECTION_LIMIT",
            ResourceError::ResultSetTooLarge { .. } => "AERO_RESOURCE_RESULT_SET_TOO_LARGE",
            ResourceError::ReadOnlyMode => "AERO_RESOURCE_READ_ONLY_MODE",
            ResourceError::IoError(_) => "AERO_RESOURCE_IO_ERROR",
        }
    }

    /// The text of the error, naming the resource's usage and its limit.
    pub fn to_string(&self) -> (r: String)
        ensures
            r@ == self.message_text(),
    {
        match self {
            ResourceError::DiskFull { available, required } => {
                let mut out = owned("Disk space exhausted: ");
                push_decimal(&mut out, *available);
                out.append(" bytes available, ");
                push_decimal(&mut out, *required);
                out.append(
                    " bytes required. Free disk space or increase storage to continue writes.",
                );
                out
            },
            ResourceError::MemoryExhausted { current, requested, limit } => {
                let mut out = owned("Memory limit exceeded: ");
                push_decimal(&mut out, *current);
                out.append(" bytes in use, ");
                push_decimal(&mut out, *requested);
                out.append(" bytes requested, ");
                push_decimal(&mut out, *limit);
                out.append(
                    " bytes limit. Reduce query scope or increase max_memory_bytes configuration.",
                );
                out
            },
            ResourceError::FileDescriptorLimit { current, limit } => {
                let mut out = owned("File descriptor limit reached: ");
                push_decimal(&mut out, *current as u64);
                out.append(" open, ");
                push_decimal(&mut out, *limit as u64);
                out.append(
                    " max. Close unused connections or increase max_file_descriptors configuration.",
                );
                out
            },
            ResourceError::ConnectionLimit { current, limit } => {
                let mut out = owned("Connection limit reached: ");
                push_decimal(&mut out, *current as u64);
                out.append(" active, ");
                push_decimal(&mut out, *limit as u64);
                out.append(" max. Close unused connections or try again later.");
                out
            },
            ResourceError::ResultSetTooLarge { requested, limit } => {
                let mut out = owned("Result set too large: ");
                push_decimal(&mut out, *requested as u64);
                out.append(" documents requested, ");
                push_decimal(&mut out, *limit as u64);
                out.append(" max allowed. Add filters or pagination to reduce result size.");
                out
            },
            ResourceError::ReadOnlyMode => {
                owned(
                    "System is in read-only mode due to resource exhaustion. Free resources and restart to resume writes.",
                )
            },
            ResourceError::IoError(msg) => {
                let mut out = owned("Resource check failed: ");
                out.append(msg.as_str());
                out
            },
        }
    }
}

/// Result type for resource operations.
pub type ResourceResult<T> = Result<T, ResourceError>;

} // verus!
