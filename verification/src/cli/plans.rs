//! What the migration and schema commands decide before and after they
//! touch the disk: which steps a command takes for what stands in the data
//! directory, which files it names, and what it reports.

use vstd::prelude::*;
use vstd::string::*;
use crate::cli::args::MigrateAction;
use crate::cli::commands::{pascal_of, typescript_interface};
use crate::cli::errors::{CliError, CliErrorCode, CliResult};
use crate::migrations::runner::FailedMigration;
use crate::text::{
    char_count,
    chars_of,
    decimal,
    find_char,
    join_path,
    joined_path,
    owned,
    parse_u64,
    parsed_number,
    push_decimal,
    same_text,
    slice_chars,
    split_at_char,
};

verus! {

/// The directory of the migration files in a data directory.
pub fn migrations_dir(data_dir: &str) -> (r: String)
    ensures
        r@ == joined_path(data_dir@, "migrations"@),
{
    join_path(data_dir, "migrations")
}

/// The directory of the schema files in a data directory.
pub fn schema_dir(data_dir: &str) -> (r: String)
    ensures
        r@ == joined_path(joined_path(data_dir@, "metadata"@), "schemas"@),
{
    let metadata = join_path(data_dir, "metadata");
    join_path(metadata.as_str(), "schemas")
}

/// What a migration command does.
#[derive(Debug, Clone, Copy, PartialEq, Eq, Structural)]
pub enum MigratePlan {
    /// A new migration file is written, after the directory of the
    /// migrations has been created where it does not exist.
    Create { create_dir: bool },
    /// The pending migrations are applied.
    RunUp,
    /// The current migration is rolled back.
    RunDown,
    /// The status is that of a directory without migrations.
    EmptyStatus,
    /// The status is worked out from the files and the state.
    RunStatus,
}

/// What a migration command does for what stands in the data directory. A
/// new migration can be written at any time. Applying, rolling back and the
/// status need an initialized data directory; applying and rolling back
/// need the directory of the migrations too, while the status of a missing
/// directory is empty.
pub open spec fn migrate_plan_of(action: MigrateAction, initialized: bool, dir_exists: bool)
    -> Result<MigratePlan, (CliErrorCode, Seq<char>)> {
    match action {
        MigrateAction::Create { name } => Ok(MigratePlan::Create { create_dir: !dir_exists }),
        _ => if !initialized {
            Err(
                (
                    CliErrorCode::NotInitialized,
                    "Data directory is not initialized. Run 'aerodb init' first."@,
                ),
            )
        } else {
            match action {
                MigrateAction::Up => if dir_exists {
                    Ok(MigratePlan::RunUp)
                } else {
                    Err(
                        (
                            CliErrorCode::ConfigError,
                            "No migrations directory found. Run 'aerodb migrate create' first."@,
                        ),
                    )
                },
                MigrateAction::Down => if dir_exists {
                    Ok(MigratePlan::RunDown)
                } else {
                    Err((CliErrorCode::ConfigError, "No migrations directory found."@))
                },
                _ => if dir_exists {
                    Ok(MigratePlan::RunStatus)
                } else {
                    Ok(MigratePlan::EmptyStatus)
                },
            }
        },
    }
}

/// Decides what a migration command does.
pub fn migrate(action: &MigrateAction, initialized: bool, dir_exists: bool) -> (r: CliResult<
    MigratePlan,
>)
    ensures
        match migrate_plan_of(*action, initialized, dir_exists) {
            Ok(plan) => r == Ok::<MigratePlan, CliError>(plan),
            Err(fault) => r is Err && r->Err_0.is(fault.0, fault.1),
        },
{
    match action {
        MigrateAction::Create { .. } => Ok(MigratePlan::Create { create_dir: !dir_exists }),
        MigrateAction::Up => {
            if !initialized {
                return Err(CliError::not_initialized());
            }
            if !dir_exists {
                return Err(
                    CliError::config_error(
                        owned("No migrations directory found. Run 'aerodb migrate create' first."),
                    ),
                );
            }
            Ok(MigratePlan::RunUp)
        },
        MigrateAction::Down => {
            if !initialized {
                return Err(CliError::not_initialized());
            }
            if !dir_exists {
                return Err(CliError::config_error(owned("No migrations directory found.")));
            }
            Ok(MigratePlan::RunDown)
        },
        MigrateAction::Status => {
            if !initialized {
                return Err(CliError::not_initialized());
            }
            if !dir_exists {
                return Ok(MigratePlan::EmptyStatus);
            }
            Ok(MigratePlan::RunStatus)
        },
    }
}

/// A step of a migration command that can fail.
#[derive(Debug, Clone, Copy, PartialEq, Eq, Structural)]
pub enum MigrateStep {
    CreateDirectory,
    CreateFile,
    StartRunner,
    Apply,
    RollBack,
    ReadStatus,
}

/// What a failed step of a migration command is reported as: `context`
/// before the cause.
pub open spec fn step_context(step: MigrateStep) -> Seq<char> {
    match step {
        MigrateStep::CreateDirectory => "Failed to create migrations directory: "@,
        MigrateStep::CreateFile => "Failed to create migration: "@,
        MigrateStep::StartRunner => "Failed to initialize migration runner: "@,
        MigrateStep::Apply => "Migration failed: "@,
        MigrateStep::RollBack => "Rollback failed: "@,
        MigrateStep::ReadStatus => "Failed to get migration status: "@,
    }
}

/// The error for a failed step of a migration command: an error of the
/// configuration while the file is made, a boot failure afterwards.
pub fn migrate_failure(step: MigrateStep, cause: &str) -> (r: CliError)
    ensures
        r.is(
            if step == MigrateStep::CreateDirectory || step == MigrateStep::CreateFile {
                CliErrorCode::ConfigError
            } else {
                CliErrorCode::BootFailed
            },
            step_context(step) + cause@,
        ),
{
    let context = match step {
        MigrateStep::CreateDirectory => "Failed to create migrations directory: ",
        MigrateStep::CreateFile => "Failed to create migration: ",
        MigrateStep::StartRunner => "Failed to initialize migration runner: ",
        MigrateStep::Apply => "Migration failed: ",
        MigrateStep::RollBack => "Rollback failed: ",
        MigrateStep::ReadStatus => "Failed to get migration status: ",
    };
    let mut message = owned(context);
    message.append(cause);
    match step {
        MigrateStep::CreateDirectory => CliError::config_error(message),
        MigrateStep::CreateFile => CliError::config_error(message),
        _ => CliError::boot_failed(message),
    }
}

/// The version and the name that the stem of a new migration file is
/// reported with: what stands before and after the first underscore, the
/// version being 0 where that is no number; a stem without an underscore is
/// the name, with version 0.
pub open spec fn created_parts(stem: Seq<char>) -> (u64, Seq<char>) {
    match stem.index_of_first('_') {
        Some(at) => (
            match parsed_number(stem.take(at), 10, u64::MAX) {
                Some(v) => v,
                None => 0,
            },
            stem.skip(at + 1),
        ),
        None => (0, stem),
    }
}

/// The version and the name that a new migration file is reported with.
pub fn created_migration(stem: &str) -> (r: (u64, String))
    ensures
        r.0 == created_parts(stem@).0,
        r.1@ == created_parts(stem@).1,
{
    proof {
        stem@.index_of_first_ensures('_');
    }
    match find_char(stem, '_') {
        Some(at) => {
            proof {
                let first = stem@.index_of_first('_')->Some_0;
                assert(first == at) by {
                    if first < at {
                        assert(stem@[first] != '_');
                    }
                    if at < first {
                        assert(stem@[at as int] != '_');
                    }
                }
                assert(stem@.take(at as int) =~= stem@.subrange(0, at as int));
                assert(stem@.skip(at + 1) =~= stem@.subrange(at + 1, stem@.len() as int));
            }
            let version = match parse_u64(slice_chars(stem, 0, at)) {
                Some(v) => v,
                None => 0,
            };
            let n = char_count(stem);
            (version, owned(slice_chars(stem, at + 1, n)))
        },
        None => {
            assert(!stem@.contains('_'));
            (0, owned(stem))
        },
    }
}

/// The message that reports a migration that failed.
pub fn migration_failed_message(failed: &FailedMigration) -> (r: String)
    ensures
        r@ == "Migration "@ + failed.name@ + " (v"@ + decimal(failed.version as nat)
            + ") failed: "@ + failed.error@,
{
    let mut out = owned("Migration ");
    out.append(failed.name.as_str());
    out.append(" (v");
    push_decimal(&mut out, failed.version);
    out.append(") failed: ");
    out.append(failed.error.as_str());
    out
}

/// The stem of a file's name if its extension is `json`: what stands before
/// the last dot, where `json` follows it and it is not the first character.
pub open spec fn schema_name_of(file_name: Seq<char>) -> Option<Seq<char>> {
    match file_name.index_of_last('.') {
        Some(at) => if at > 0 && file_name.skip(at + 1) == "json"@ {
            Some(file_name.take(at))
        } else {
            None
        },
        None => None,
    }
}

/// The name of the schema that a file of the schema directory holds, if it
/// is a schema file.
pub fn schema_name(file_name: &str) -> (r: Option<String>)
    ensures
        match schema_name_of(file_name@) {
            Some(name) => r is Some && r->Some_0@ == name,
            None => r is None,
        },
{
    let text = chars_of(file_name);
    proof {
        file_name@.index_of_last_ensures('.');
    }
    let mut i: usize = text.len();
    while i > 0
        invariant
            i <= text@.len(),
            text@ == file_name@,
            forall|k: int| i <= k < text@.len() ==> text@[k] != '.',
        decreases i,
    {
        if text[i - 1] == '.' {
            let at: usize = i - 1;
            proof {
                file_name@.index_of_last_ensures('.');
                assert(file_name@[at as int] == '.');
                assert(file_name@.contains('.'));
                let last = file_name@.index_of_last('.')->Some_0;
                assert(last == at) by {
                    if last > at {
                        assert(text@[last] != '.');
                    }
                    if last < at {
                        assert(file_name@[at as int] == '.');
                    }
                }
                assert(file_name@.take(at as int) =~= file_name@.subrange(0, at as int));
                assert(file_name@.skip(at + 1) =~= file_name@.subrange(
                    at + 1,
                    file_name@.len() as int,
                ));
            }
            let n = text.len();
            if at > 0 && same_text(slice_chars(file_name, at + 1, n), "json") {
                return Some(owned(slice_chars(file_name, 0, at)));
            }
            return None;
        }
        i = i - 1;
    }
    proof {
        file_name@.index_of_last_ensures('.');
        if file_name@.contains('.') {
            let k = file_name@.index_of('.');
            assert(text@[k] != '.');
        }
    }
    None
}

/// A schema as the listing shows it.
#[derive(Debug, Clone, PartialEq, Eq)]
pub struct SchemaEntry {
    /// The schema's name.
    pub name: String,
    /// The schema's file.
    pub file: String,
}

/// The schemas among the names of some files, in their order.
pub open spec fn schema_names(file_names: Seq<Seq<char>>) -> Seq<Seq<char>>
    decreases file_names.len(),
{
    if file_names.len() == 0 {
        Seq::<Seq<char>>::empty()
    } else {
        match schema_name_of(file_names.last()) {
            Some(name) => schema_names(file_names.drop_last()).push(name),
            None => schema_names(file_names.drop_last()),
        }
    }
}

/// The texts of some strings.
pub open spec fn texts(v: Seq<String>) -> Seq<Seq<char>> {
    v.map_values(|s: String| s@)
}

/// The name of a schema's file.
pub open spec fn schema_file_text(name: Seq<char>) -> Seq<char> {
    name + ".json"@
}

/// The path of a schema's file in the schema directory.
pub fn schema_path(schema_dir: &str, name: &str) -> (r: String)
    ensures
        r@ == joined_path(schema_dir@, schema_file_text(name@)),
{
    let mut file = owned(name);
    file.append(".json");
    join_path(schema_dir, file.as_str())
}

/// The schemas of a schema directory that holds the files given, each with
/// its file, in the order of the files.
pub fn list_schemas(schema_dir: &str, file_names: &Vec<String>) -> (r: Vec<SchemaEntry>)
    ensures
        r@.len() == schema_names(texts(file_names@)).len(),
        forall|i: int|
            0 <= i < r@.len() ==> (#[trigger] r@[i]).name@ == schema_names(texts(file_names@))[i]
                && r@[i].file@ == joined_path(
                schema_dir@,
                schema_file_text(schema_names(texts(file_names@))[i]),
            ),
{
    let mut out: Vec<SchemaEntry> = Vec::new();
    let mut i: usize = 0;
    let ghost all = texts(file_names@);
    assert(all.take(0) =~= Seq::<Seq<char>>::empty());
    while i < file_names.len()
        invariant
            i <= file_names@.len(),
            all == texts(file_names@),
            out@.len() == schema_names(all.take(i as int)).len(),
            forall|k: int|
                0 <= k < out@.len() ==> (#[trigger] out@[k]).name@ == schema_names(
                    all.take(i as int),
                )[k] && out@[k].file@ == joined_path(
                    schema_dir@,
                    schema_file_text(schema_names(all.take(i as int))[k]),
                ),
        decreases file_names@.len() - i,
    {
        proof {
            let next = all.take(i + 1);
            assert(next.drop_last() =~= all.take(i as int));
            assert(next.last() == file_names@[i as int]@);
        }
        let ghost before = out@;
        match schema_name(file_names[i].as_str()) {
            Some(name) => {
                let file = schema_path(schema_dir, name.as_str());
                out.push(SchemaEntry { name, file });
                proof {
                    let now = schema_names(all.take(i + 1));
                    assert forall|k: int| 0 <= k < out@.len() implies (#[trigger] out@[k]).name@
                        == now[k] && out@[k].file@ == joined_path(
                        schema_dir@,
                        schema_file_text(now[k]),
                    ) by {
                        if k < before.len() {
                            assert(out@[k] == before[k]);
                        }
                    }
                }
            },
            None => {},
        }
        i = i + 1;
    }
    assert(all.take(file_names@.len() as int) =~= all);
    out
}

/// What the listing of the schemas reports of a schema that is not there.
pub fn schema_not_found(name: &str) -> (r: CliError)
    ensures
        r.is(CliErrorCode::ConfigError, "Schema '"@ + name@ + "' not found"@),
{
    let mut message = owned("Schema '");
    message.append(name);
    message.append("' not found");
    CliError::config_error(message)
}

/// The name under which a new schema is kept: the `name` of its
/// description, without which it is refused.
pub fn new_schema_name(name_field: Option<String>) -> (r: CliResult<String>)
    ensures
        match name_field {
            Some(name) => r == Ok::<String, CliError>(name),
            None => r is Err && r->Err_0.is(
                CliErrorCode::ConfigError,
                "Schema must have a 'name' field"@,
            ),
        },
{
    match name_field {
        Some(name) => Ok(name),
        None => Err(CliError::config_error(owned("Schema must have a 'name' field"))),
    }
}

/// A file of TypeScript types to write for a schema.
#[derive(Debug, Clone, PartialEq, Eq)]
pub struct GeneratedTypes {
    /// The schema's name.
    pub schema: String,
    /// The file to write.
    pub file: String,
    /// The file's content.
    pub content: String,
}

/// The content of the TypeScript file of a schema.
pub open spec fn types_content(name: Seq<char>) -> Seq<char> {
    "// Auto-generated TypeScript types for "@ + name + "\nexport interface "@ + pascal_of(
        split_at_char(name, '_'),
    ) + " {\n  // TO"@ + "DO: Generate fields from schema\n  id: string;\n}\n"@
}

/// The TypeScript files to write to the output directory for a schema
/// directory that holds the files given: one for each schema, named after
/// it, in the order of the files.
pub fn generate_types(output_dir: &str, file_names: &Vec<String>) -> (r: Vec<GeneratedTypes>)
    ensures
        r@.len() == schema_names(texts(file_names@)).len(),
        forall|i: int|
            0 <= i < r@.len() ==> {
                let name = schema_names(texts(file_names@))[i];
                &&& (#[trigger] r@[i]).schema@ == name
                &&& r@[i].file@ == joined_path(output_dir@, name + ".ts"@)
                &&& r@[i].content@ == types_content(name)
            },
{
    let mut out: Vec<GeneratedTypes> = Vec::new();
    let mut i: usize = 0;
    let ghost all = texts(file_names@);
    assert(all.take(0) =~= Seq::<Seq<char>>::empty());
    while i < file_names.len()
        invariant
            i <= file_names@.len(),
            all == texts(file_names@),
            out@.len() == schema_names(all.take(i as int)).len(),
            forall|k: int|
                0 <= k < out@.len() ==> {
                    let name = schema_names(all.take(i as int))[k];
                    &&& (#[trigger] out@[k]).schema@ == name
                    &&& out@[k].file@ == joined_path(output_dir@, name + ".ts"@)
                    &&& out@[k].content@ == types_content(name)
                },
        decreases file_names@.len() - i,
    {
        proof {
            let next = all.take(i + 1);
            assert(next.drop_last() =~= all.take(i as int));
            assert(next.last() == file_names@[i as int]@);
        }
        let ghost before = out@;
        match schema_name(file_names[i].as_str()) {
            Some(name) => {
                let mut file_name = owned(name.as_str());
                file_name.append(".ts");
                let file = join_path(output_dir, file_name.as_str());
                let content = typescript_interface(name.as_str());
                out.push(GeneratedTypes { schema: name, file, content });
                proof {
                    let now = schema_names(all.take(i + 1));
                    assert forall|k: int| 0 <= k < out@.len() implies {
                        let name = now[k];
                        &&& (#[trigger] out@[k]).schema@ == name
                        &&& out@[k].file@ == joined_path(output_dir@, name + ".ts"@)
                        &&& out@[k].content@ == types_content(name)
                    } by {
                        if k < before.len() {
                            assert(out@[k] == before[k]);
                        }
                    }
                }
            },
            None => {},
        }
        i = i + 1;
    }
    assert(all.take(file_names@.len() as int) =~= all);
    out
}

} // verus!
