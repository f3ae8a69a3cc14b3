use aerodb::migrations::checksum::{
    compute_checksum, content_without_checksum, format_checksum, generate_checksum_for_file,
    parse_checksum, verify_checksum,
};
use aerodb::migrations::errors::MigrationError;
use aerodb::migrations::generator::{sanitize_name, version_of_stem, MigrationGenerator};
use aerodb::migrations::operations::{InMemoryExecutor, OperationExecutor};
use aerodb::migrations::runner::{
    apply_failure, check_loaded, failure_note, name_of_stem, rollback_failure, MigrationRunner,
};
use aerodb::migrations::state::{MigrationRecord, MigrationState, MigrationStatus};
use aerodb::migrations::{Migration, MigrationOperation};
use std::collections::BTreeMap;

const NOW: &str = "2024-08-01T12:00:00Z";

// Checksums

#[test]
fn test_compute_checksum_deterministic() {
    let content = "hello world";
    let c1 = compute_checksum(content);
    let c2 = compute_checksum(content);
    assert_eq!(c1, c2);
}

#[test]
fn test_compute_checksum_format() {
    let checksum = compute_checksum("test");
    assert!(checksum.starts_with("crc32:"));
    assert_eq!(checksum.len(), 6 + 8);
}

#[test]
fn checksums_are_the_crc32_in_upper_hex() {
    assert_eq!(compute_checksum("123456789"), "crc32:CBF43926");
    assert_eq!(compute_checksum(""), "crc32:00000000");
    assert_eq!(compute_checksum("test"), "crc32:D87F7E0C");
    assert_eq!(format_checksum(0xABC), "crc32:00000ABC");
    assert_eq!(format_checksum(u32::MAX), "crc32:FFFFFFFF");
}

#[test]
fn test_verify_checksum_valid() {
    let content = "migration content";
    let checksum = compute_checksum(content);
    assert!(verify_checksum(content, &checksum));
}

#[test]
fn test_verify_checksum_invalid() {
    let content = "migration content";
    let checksum = compute_checksum(content);
    assert!(!verify_checksum("modified content", &checksum));
}

#[test]
fn test_parse_checksum_valid() {
    let result = parse_checksum("crc32:ABC12345");
    assert!(result.is_some());
    assert_eq!(result.unwrap(), 0xABC12345);
}

#[test]
fn test_parse_checksum_invalid_format() {
    assert!(parse_checksum("md5:ABC12345").is_none());
    assert!(parse_checksum("ABC12345").is_none());
}

#[test]
fn parse_checksum_edge_cases() {
    assert_eq!(parse_checksum("crc32:0"), Some(0));
    assert_eq!(parse_checksum("crc32:ffffffff"), Some(u32::MAX));
    assert_eq!(parse_checksum("crc32:+1f"), Some(0x1f));
    assert_eq!(parse_checksum("crc32:100000000"), None);
    assert_eq!(parse_checksum("crc32:"), None);
    assert_eq!(parse_checksum("crc32:12G4"), None);
    assert_eq!(parse_checksum("crc32:-1"), None);
    assert_eq!(parse_checksum("CRC32:12"), None);
}

#[test]
fn test_generate_checksum_excludes_checksum_line() {
    let content = "version: 1\nchecksum: crc32:OLD\nname: test";
    let checksum = generate_checksum_for_file(content);

    let expected = compute_checksum("version: 1\nname: test");
    assert_eq!(checksum, expected);
}

#[test]
fn only_lines_that_start_with_the_checksum_key_are_left_out() {
    assert_eq!(
        content_without_checksum("a\n  checksum: x\nb\nchecksum:y\nc\n"),
        "a\n  checksum: x\nb\nc"
    );
    assert_eq!(content_without_checksum("no such line"), "no such line");
    assert_eq!(content_without_checksum("x checksum: 1\ny"), "x checksum: 1\ny");
    assert_eq!(content_without_checksum(""), "");
}

// Errors

#[test]
fn test_checksum_mismatch_message() {
    let err = MigrationError::ChecksumMismatch {
        migration: "001_create_users".to_string(),
        expected: "crc32:ABC12345".to_string(),
        actual: "crc32:DEF67890".to_string(),
    };

    let msg = err.to_string();
    assert!(msg.contains("001_create_users"));
    assert!(msg.contains("ABC12345"));
    assert!(msg.contains("DEF67890"));
    assert!(msg.contains("manually modified"));
}

#[test]
fn test_migration_locked_message() {
    let err = MigrationError::MigrationLocked {
        holder: "process-1234".to_string(),
        since: NOW.to_string(),
    };

    let msg = err.to_string();
    assert!(msg.contains("process-1234"));
    assert!(msg.contains("locked"));
}

// Migrations

fn create(name: &str) -> MigrationOperation {
    MigrationOperation::CreateCollection { name: name.to_string(), schema: "{}".to_string() }
}

fn drop_collection(name: &str) -> MigrationOperation {
    MigrationOperation::DropCollection { name: name.to_string() }
}

fn migration(version: u64, name: &str) -> Migration {
    Migration {
        version,
        name: name.to_string(),
        checksum: "crc32:00000000".to_string(),
        timestamp: NOW.to_string(),
        file_path: None,
        up: vec![create(name)],
        down: vec![drop_collection(name)],
    }
}

#[test]
fn test_migration_validation_empty_up() {
    let migration = Migration {
        version: 1,
        name: "test".to_string(),
        checksum: "crc32:ABC12345".to_string(),
        timestamp: NOW.to_string(),
        file_path: None,
        up: vec![],
        down: vec![],
    };

    let result = migration.validate();
    assert!(result.is_err());
    assert!(result.unwrap_err().to_string().contains("up"));
}

#[test]
fn test_migration_validation_zero_version() {
    let migration = Migration {
        version: 0,
        name: "test".to_string(),
        checksum: "crc32:ABC12345".to_string(),
        timestamp: NOW.to_string(),
        file_path: None,
        up: vec![create("test")],
        down: vec![],
    };

    let result = migration.validate();
    assert!(result.is_err());
    assert!(result.unwrap_err().to_string().contains("Version"));
}

#[test]
fn a_complete_migration_is_valid() {
    assert!(migration(1, "users").validate().is_ok());
}

// Executor

#[test]
fn test_create_collection() {
    let mut executor = InMemoryExecutor::new();
    executor.execute(&create("users")).unwrap();
    assert!(executor.collection_exists("users").unwrap());
}

#[test]
fn test_create_collection_duplicate() {
    let mut executor = InMemoryExecutor::new();
    let op = create("users");

    executor.execute(&op).unwrap();
    let result = executor.execute(&op);
    assert!(result.is_err());
    assert!(result.unwrap_err().to_string().contains("already exists"));
}

#[test]
fn test_drop_collection() {
    let mut executor = InMemoryExecutor::new();
    executor.execute(&create("users")).unwrap();
    executor.execute(&drop_collection("users")).unwrap();
    assert!(!executor.collection_exists("users").unwrap());
}

#[test]
fn test_create_index() {
    let mut executor = InMemoryExecutor::new();
    executor.execute(&create("users")).unwrap();

    executor
        .execute(&MigrationOperation::CreateIndex {
            collection: "users".to_string(),
            fields: vec!["email".to_string()],
            unique: true,
            name: Some("idx_email".to_string()),
        })
        .unwrap();

    assert!(executor.index_exists("users", "idx_email").unwrap());
}

#[test]
fn operations_on_a_missing_collection_are_refused() {
    let mut executor = InMemoryExecutor::new();
    let missing = |operation: &str| MigrationError::ExecutionFailed {
        version: 0,
        operation: operation.to_string(),
        reason: "Collection 'users' does not exist".to_string(),
    };
    assert_eq!(executor.execute(&drop_collection("users")).unwrap_err(), missing("drop_collection"));
    assert_eq!(
        executor
            .execute(&MigrationOperation::RemoveField {
                collection: "users".to_string(),
                field: "age".to_string(),
            })
            .unwrap_err(),
        missing("remove_field")
    );
    assert_eq!(
        executor
            .execute(&MigrationOperation::RenameCollection {
                from: "users".to_string(),
                to: "people".to_string(),
            })
            .unwrap_err(),
        missing("rename_collection")
    );
    assert!(!executor.collection_exists("users").unwrap());
    assert!(!executor.index_exists("users", "idx_email").unwrap());
}

#[test]
fn collections_are_renamed() {
    let mut executor = InMemoryExecutor::new();
    executor.execute(&create("users")).unwrap();
    executor.execute(&create("posts")).unwrap();
    assert!(executor
        .execute(&MigrationOperation::RenameCollection {
            from: "users".to_string(),
            to: "posts".to_string(),
        })
        .is_err());
    executor
        .execute(&MigrationOperation::RenameCollection {
            from: "users".to_string(),
            to: "people".to_string(),
        })
        .unwrap();
    assert!(!executor.collection_exists("users").unwrap());
    assert!(executor.collection_exists("people").unwrap());
    assert!(executor.execute(&MigrationOperation::Raw { operation: "x".to_string() }).is_ok());
}

// State

#[test]
fn test_migration_state_new() {
    let state = MigrationState::new("/tmp/data");
    assert_eq!(state.current_version(), 0);
}

#[test]
fn test_migration_state_record_lifecycle() {
    let mut state = MigrationState::new("/tmp/data");

    state.record_start(1, "create_users".to_string(), "crc32:ABC".to_string(), NOW.to_string());

    assert!(!state.is_applied(1));

    state.record_success(1, 100);

    assert!(state.is_applied(1));
    assert_eq!(state.current_version(), 1);
    // The record names who applied the migration.
    let by = state.get_all()[0].applied_by.clone();
    assert!(by.is_some());
    assert!(!by.unwrap().is_empty());
}

#[test]
fn test_migration_state_lock() {
    let mut state = MigrationState::new("/tmp/data");

    state.acquire_lock("process-1".to_string(), NOW.to_string()).unwrap();

    let result = state.acquire_lock("process-2".to_string(), NOW.to_string());
    assert!(result.is_err());
    assert_eq!(
        result.unwrap_err(),
        MigrationError::MigrationLocked { holder: "process-1".to_string(), since: NOW.to_string() }
    );

    state.release_lock();
    state.acquire_lock("process-2".to_string(), NOW.to_string()).unwrap();
}

#[test]
fn state_records_failures_and_rollbacks() {
    let mut state = MigrationState::new("/tmp/data");
    state.record_start_by(
        1,
        "one".to_string(),
        "crc32:1".to_string(),
        NOW.to_string(),
        "tester".to_string(),
    );
    state.record_success(1, 5);
    state.record_start_by(
        2,
        "two".to_string(),
        "crc32:2".to_string(),
        NOW.to_string(),
        "tester".to_string(),
    );
    state.record_failure(2, "boom".to_string(), 7);
    assert_eq!(state.current_version(), 1);
    assert!(!state.is_applied(2));
    let all = state.get_all();
    assert_eq!(all.len(), 2);
    assert_eq!(all[0].version, 1);
    assert_eq!(all[0].status, MigrationStatus::Applied);
    assert_eq!(all[0].duration_ms, Some(5));
    assert_eq!(all[0].applied_by, Some("tester".to_string()));
    assert_eq!(all[1].status, MigrationStatus::Failed);
    assert_eq!(all[1].error, Some("boom".to_string()));
    assert_eq!(state.get_applied().len(), 1);

    state.record_rollback(1);
    assert_eq!(state.current_version(), 0);
    assert!(!state.is_applied(1));
    assert!(state.get_applied().is_empty());
    // A version without a record is left alone.
    state.record_success(9, 1);
    assert_eq!(state.get_all().len(), 2);
}

#[test]
fn state_keeps_what_was_saved() {
    let saved = vec![
        MigrationRecord {
            version: 3,
            name: "three".to_string(),
            checksum: "crc32:3".to_string(),
            status: MigrationStatus::Applied,
            applied_at: Some(NOW.to_string()),
            duration_ms: Some(1),
            error: None,
            applied_by: None,
        },
        MigrationRecord {
            version: 1,
            name: "one".to_string(),
            checksum: "crc32:1".to_string(),
            status: MigrationStatus::Applied,
            applied_at: Some(NOW.to_string()),
            duration_ms: Some(1),
            error: None,
            applied_by: None,
        },
    ];
    let mut state = MigrationState::new("/tmp/data");
    state.load(saved);
    assert_eq!(state.current_version(), 3);
    let versions: Vec<u64> = state.get_all().iter().map(|r| r.version).collect();
    assert_eq!(versions, vec![1, 3]);
    assert!(state.state_file().starts_with("/tmp/data"));
}

// Generator

#[test]
fn test_create_first_migration() {
    let generator = MigrationGenerator::new("/tmp/migrations".to_string());
    let made = generator.create("create_users", &Vec::new(), NOW);

    assert!(made.file_path.contains("001_create_users.yaml"));
    assert!(made.content.contains("version: 1"));
    assert!(made.content.contains("checksum:"));
}

#[test]
fn test_create_sequential_migrations() {
    let generator = MigrationGenerator::new("/tmp/migrations".to_string());
    let mut stems: Vec<String> = Vec::new();

    let first = generator.create("create_users", &stems, NOW);
    stems.push("001_create_users".to_string());
    let second = generator.create("create_posts", &stems, NOW);
    stems.push("002_create_posts".to_string());
    let third = generator.create("add_comments", &stems, NOW);

    assert!(first.file_path.contains("001_"));
    assert!(second.file_path.contains("002_"));
    assert!(third.file_path.contains("003_"));
    assert_eq!(first.file_name, "001_create_users.yaml");
    assert_eq!(first.file_path, "/tmp/migrations/001_create_users.yaml");
    assert_eq!(third.version, 3);
}

#[test]
fn generated_files_carry_their_own_checksum() {
    let generator = MigrationGenerator::new("/tmp/migrations".to_string());
    let made = generator.create("create_users", &Vec::new(), NOW);
    assert!(made.content.contains("version: 1"));
    assert!(made.content.contains("checksum:"));
    assert!(made.content.contains(&format!("timestamp: \"{}\"", NOW)));
    assert!(made.content.starts_with("# Migration: create_users\n# Created: "));
    // The checksum is that of the file as it stands before the line of the
    // checksum is put in.
    let line = made.content.lines().find(|l| l.starts_with("checksum: ")).unwrap();
    let without: Vec<&str> =
        made.content.lines().filter(|l| !l.starts_with("checksum: ")).collect();
    let mut before = without.join("\n");
    before.push('\n');
    assert_eq!(line, format!("checksum: \"{}\"", compute_checksum(&before)));
}

#[test]
fn test_sanitize_name() {
    let generator = MigrationGenerator::new("/tmp/migrations".to_string());
    let made = generator.create("Add User's Table!", &Vec::new(), NOW);
    assert!(made.file_path.contains("add_user_s_table_"));
    assert_eq!(sanitize_name("Add User's Table!"), "add_user_s_table_");
    assert_eq!(sanitize_name("already_fine_1"), "already_fine_1");
    assert_eq!(sanitize_name(""), "");
}

#[test]
fn next_version_follows_the_highest_numbered_file() {
    let generator = MigrationGenerator::new("m".to_string());
    assert_eq!(generator.next_version(&Vec::new()), 1);
    let stems = vec![
        "002_b".to_string(),
        "010_c".to_string(),
        "readme".to_string(),
        "x9_d".to_string(),
        "007".to_string(),
    ];
    assert_eq!(generator.next_version(&stems), 11);
    assert_eq!(version_of_stem("010_c"), Some(10));
    assert_eq!(version_of_stem("readme"), None);
    assert_eq!(version_of_stem("_x"), None);
    assert_eq!(generator.migrations_dir(), "m");
}

#[test]
fn test_template() {
    let template = MigrationGenerator::template();
    assert!(template.contains("version:"));
    assert!(template.contains("up:"));
    assert!(template.contains("down:"));
    assert!(template.contains("create_collection"));
    assert!(template.contains("drop_collection"));
}

// Runner

fn runner() -> MigrationRunner<InMemoryExecutor> {
    MigrationRunner::new("/tmp/migrations".to_string(), "/tmp/data", InMemoryExecutor::new(), vec![])
}

fn loaded(runner: &MigrationRunner<InMemoryExecutor>, all: Vec<Migration>) -> BTreeMap<u64, Migration> {
    runner.load_migrations(true, all).unwrap()
}

#[test]
fn test_load_migrations() {
    let runner = runner();
    let migrations = loaded(&runner, vec![migration(2, "create_posts"), migration(1, "create_users")]);
    assert_eq!(migrations.len(), 2);
    assert!(migrations.contains_key(&1));
    assert!(migrations.contains_key(&2));
}

#[test]
fn loading_refuses_a_missing_directory_and_a_version_twice() {
    let runner = runner();
    assert_eq!(
        runner.load_migrations(false, vec![]).unwrap_err(),
        MigrationError::DirectoryNotFound { path: "/tmp/migrations".to_string() }
    );
    assert_eq!(
        runner.load_migrations(true, vec![migration(1, "a"), migration(1, "b")]).unwrap_err(),
        MigrationError::DuplicateVersion { version: 1 }
    );
    assert!(runner.load_migrations(true, vec![]).unwrap().is_empty());
}

#[test]
fn test_migrate_up() {
    let mut runner = runner();
    let all = loaded(&runner, vec![migration(1, "users"), migration(2, "posts")]);

    let report = runner.migrate_up(&all, "tester".to_string(), NOW).unwrap();
    assert_eq!(report.applied.len(), 2);
    assert!(report.failed.is_none());
    assert_eq!(report.applied[0].version, 1);
    assert_eq!(report.applied[1].name, "posts");

    assert!(runner.executor().collection_exists("users").unwrap());
    assert!(runner.executor().collection_exists("posts").unwrap());
    assert_eq!(runner.state().current_version(), 2);

    // Nothing is pending any more.
    assert!(runner.get_pending(&all).is_empty());
    let again = runner.migrate_up(&all, "tester".to_string(), NOW).unwrap();
    assert!(again.applied.is_empty());
}

#[test]
fn test_migrate_down() {
    let mut runner = runner();
    let all = loaded(&runner, vec![migration(1, "users")]);

    runner.migrate_up(&all, "tester".to_string(), NOW).unwrap();
    assert!(runner.executor().collection_exists("users").unwrap());

    let result = runner.migrate_down(&all, "tester".to_string(), NOW).unwrap();
    assert!(result.is_some());
    assert_eq!(result.unwrap().version, 1);
    assert!(!runner.executor().collection_exists("users").unwrap());
    assert_eq!(runner.state().current_version(), 0);
    assert_eq!(runner.migrate_down(&all, "tester".to_string(), NOW).unwrap(), None);
}

#[test]
fn a_run_stops_at_the_first_migration_that_fails() {
    let mut runner = runner();
    // The second migration creates a collection that the first has made.
    let all = loaded(
        &runner,
        vec![migration(1, "users"), migration(2, "users"), migration(3, "posts")],
    );
    let report = runner.migrate_up(&all, "tester".to_string(), NOW).unwrap();
    assert_eq!(report.applied.len(), 1);
    let failed = report.failed.unwrap();
    assert_eq!(failed.version, 2);
    assert!(failed.error.contains("already exists"));
    assert_eq!(runner.state().current_version(), 1);
    assert!(!runner.executor().collection_exists("posts").unwrap());

    let status = runner.status(&all);
    assert_eq!(status.current_version, 1);
    assert_eq!(status.total_migrations, 3);
    assert_eq!(status.applied_count, 1);
}

#[test]
fn loaded_files_are_checked() {
    let content = "version: 1\nname: users\n";
    let mut good = migration(1, "");
    good.checksum = generate_checksum_for_file(content);
    good.up = vec![create("users")];
    let checked = check_loaded(good, "/m/001_create_users.yaml", "001_create_users", content).unwrap();
    assert_eq!(checked.name, "create_users");
    assert_eq!(checked.file_path, Some("/m/001_create_users.yaml".to_string()));

    let mut bad = migration(1, "users");
    bad.checksum = "crc32:00000000".to_string();
    assert!(matches!(
        check_loaded(bad, "/m/001_users.yaml", "001_users", content),
        Err(MigrationError::ChecksumMismatch { .. })
    ));

    let mut invalid = migration(0, "users");
    invalid.checksum = String::new();
    assert_eq!(invalid.validate().unwrap_err().to_string().contains("Version"), true);
    assert!(matches!(
        check_loaded(invalid, "/m/000_users.yaml", "000_users", content),
        Err(MigrationError::InvalidMigration { .. })
    ));
    assert_eq!(name_of_stem("001_create_users"), "create_users");
    assert_eq!(name_of_stem("plain"), "plain");
}

#[test]
fn failures_name_the_operation() {
    assert_eq!(
        apply_failure(3, 2, "boom"),
        MigrationError::ExecutionFailed {
            version: 3,
            operation: "operation[2]".to_string(),
            reason: "boom".to_string(),
        }
    );
    assert_eq!(failure_note(2, "boom"), "Operation 2 failed: boom");
    assert_eq!(
        rollback_failure(3, 0, "boom"),
        MigrationError::CannotRollback {
            version: 3,
            reason: "Down operation 0 failed: boom".to_string(),
        }
    );
}

#[test]
fn migration_errors_show_paths_in_quotes() {
    assert_eq!(
        MigrationError::FileRead {
            path: "/m/a \"b\".yaml".to_string(),
            source: "denied".to_string()
        }
        .to_string(),
        "Failed to read migration file \"/m/a \\\"b\\\".yaml\": denied"
    );
    assert_eq!(
        MigrationError::DirectoryNotFound { path: "/m".to_string() }.to_string(),
        "Migration directory not found: \"/m\""
    );
    assert_eq!(
        MigrationError::DuplicateVersion { version: 7 }.to_string(),
        "Migration version 7 already exists"
    );
    assert_eq!(
        MigrationError::ExecutionFailed {
            version: 3,
            operation: "create_collection".to_string(),
            reason: "boom".to_string()
        }
        .to_string(),
        "Migration 3 failed at operation 'create_collection': boom"
    );
}
