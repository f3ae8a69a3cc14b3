//! Migrations: deterministic, checksummed, reversible changes of the schema.

use vstd::prelude::*;
use crate::text::owned;

pub mod checksum;
pub mod errors;
pub mod generator;
pub mod operations;
pub mod runner;
pub mod state;

use errors::{MigrationError, MigrationResult};

verus! {

/// Migration version number.
pub type MigrationVersion = u64;

/// A single operation of a migration. Schemas and default values are JSON
/// texts.
#[derive(Debug, Clone, PartialEq, Eq)]
#[allow(inconsistent_fields)]
pub enum MigrationOperation {
    CreateCollection { name: String, schema: String },
    DropCollection { name: String },
    AddField {
        collection: String,
        field: String,
        field_type: String,
        required: bool,
        default: Option<String>,
    },
    RemoveField { collection: String, field: String },
    RenameField { collection: String, from: String, to: String },
    CreateIndex { collection: String, fields: Vec<String>, unique: bool, name: Option<String> },
    DropIndex { collection: String, name: String },
    RenameCollection { from: String, to: String },
    Raw { operation: String },
}

/// A migration: its operations forward and back.
#[derive(Debug, Clone, PartialEq, Eq)]
pub struct Migration {
    pub version: MigrationVersion,
    pub name: String,
    pub checksum: String,
    /// When the migration was written, in RFC 3339 form.
    pub timestamp: String,
    /// The file the migration was read from.
    pub file_path: Option<String>,
    pub up: Vec<MigrationOperation>,
    pub down: Vec<MigrationOperation>,
}

/// Why a migration is not valid, if it is not: the version is zero, there is
/// no operation forward, or the checksum is missing, looked at in this
/// order.
pub open spec fn invalid_reason(m: Migration) -> Option<Seq<char>> {
    if m.version == 0 {
        Some("Version must be >= 1"@)
    } else if m.up@.len() == 0 {
        Some("Migration must have at least one 'up' operation"@)
    } else if m.checksum@.len() == 0 {
        Some("Checksum is required"@)
    } else {
        None
    }
}

impl Migration {
    /// Validate the migration.
    pub fn validate(&self) -> (r: MigrationResult<()>)
        ensures
            match invalid_reason(*self) {
                None => r is Ok,
                Some(reason) => r is Err && r->Err_0 is InvalidMigration
                    && r->Err_0->InvalidMigration_reason@ == reason,
            },
    {
        if self.version == 0 {
            return Err(MigrationError::InvalidMigration { reason: owned("Version must be >= 1") });
        }
        if self.up.len() == 0 {
            return Err(
                MigrationError::InvalidMigration {
                    reason: owned("Migration must have at least one 'up' operation"),
                },
            );
        }
        if self.checksum.as_str().is_empty() {
            return Err(MigrationError::InvalidMigration { reason: owned("Checksum is required") });
        }
        Ok(())
    }
}

} // verus!
