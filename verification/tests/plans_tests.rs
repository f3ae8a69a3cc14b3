use aerodb::auth::errors::AuthError;
use aerodb::auth::oauth::{
    link_decision, required_email, user_from_account, LinkDecision, OAuthIdentity, OAuthProvider,
    OAuthProviderConfig, OAuthService, OAuthUserInfo,
};
use aerodb::auth::oauth::InMemoryOAuthRepository;
use aerodb::auth::user::InMemoryUserRepository;
use aerodb::cli::args::MigrateAction;
use aerodb::cli::boot::{boot_failure, BootStep};
use aerodb::cli::errors::CliErrorCode;
use aerodb::cli::plans::{
    created_migration, generate_types, list_schemas, migrate, migrate_failure,
    migration_failed_message, migrations_dir, new_schema_name, schema_dir, schema_name,
    schema_not_found, schema_path, MigratePlan, MigrateStep, SchemaEntry,
};
use aerodb::migrations::runner::FailedMigration;
use aerodb::resource_limits::errors::ResourceError;
use aerodb::resource_limits::{free_space_from_df, total_space_from_df};
use aerodb::snapshot::{
    command, file_entry, next_stage, snapshot_dir, snapshot_manifest, snapshot_temp_dir,
    verify_file, SnapshotCommand, SnapshotStage,
};
use aerodb::text::parse_u64_or_fault;

// Migration and schema commands

#[test]
fn migration_commands_check_the_data_directory() {
    let create = MigrateAction::Create { name: "x".to_string() };
    assert_eq!(migrate(&create, false, false), Ok(MigratePlan::Create { create_dir: true }));
    assert_eq!(migrate(&create, true, true), Ok(MigratePlan::Create { create_dir: false }));

    for action in [MigrateAction::Up, MigrateAction::Down, MigrateAction::Status] {
        for dir_exists in [false, true] {
            let error = migrate(&action, false, dir_exists).unwrap_err();
            assert_eq!(error.code(), &CliErrorCode::NotInitialized);
        }
    }
    assert_eq!(migrate(&MigrateAction::Up, true, true), Ok(MigratePlan::RunUp));
    assert_eq!(migrate(&MigrateAction::Down, true, true), Ok(MigratePlan::RunDown));
    assert_eq!(migrate(&MigrateAction::Status, true, true), Ok(MigratePlan::RunStatus));
    assert_eq!(migrate(&MigrateAction::Status, true, false), Ok(MigratePlan::EmptyStatus));

    let up = migrate(&MigrateAction::Up, true, false).unwrap_err();
    assert_eq!(up.code(), &CliErrorCode::ConfigError);
    assert_eq!(
        up.message(),
        "No migrations directory found. Run 'aerodb migrate create' first."
    );
    let down = migrate(&MigrateAction::Down, true, false).unwrap_err();
    assert_eq!(down.message(), "No migrations directory found.");
}

#[test]
fn migration_failures_are_reported_with_their_step() {
    let cases = [
        (MigrateStep::CreateDirectory, CliErrorCode::ConfigError, "Failed to create migrations directory: boom"),
        (MigrateStep::CreateFile, CliErrorCode::ConfigError, "Failed to create migration: boom"),
        (MigrateStep::StartRunner, CliErrorCode::BootFailed, "Failed to initialize migration runner: boom"),
        (MigrateStep::Apply, CliErrorCode::BootFailed, "Migration failed: boom"),
        (MigrateStep::RollBack, CliErrorCode::BootFailed, "Rollback failed: boom"),
        (MigrateStep::ReadStatus, CliErrorCode::BootFailed, "Failed to get migration status: boom"),
    ];
    for (step, code, message) in cases {
        let error = migrate_failure(step, "boom");
        assert_eq!(error.code(), &code);
        assert_eq!(error.message(), message);
    }
    let failed = FailedMigration { version: 7, name: "add_users".to_string(), error: "boom".to_string() };
    assert_eq!(migration_failed_message(&failed), "Migration add_users (v7) failed: boom");
}

#[test]
fn new_migrations_are_reported_by_their_file_stem() {
    for stem in ["001_create_users", "12_a_b", "x_y", "_y", "plain", "", "007", "+5_plus",
        "99999999999999999999_big"]
    {
        let expected = match stem.split_once('_') {
            Some((version, name)) => (version.parse::<u64>().unwrap_or(0), name.to_string()),
            None => (0, stem.to_string()),
        };
        assert_eq!(created_migration(stem), expected, "for {:?}", stem);
    }
    assert_eq!(created_migration("001_create_users"), (1, "create_users".to_string()));
}

#[test]
fn directories_of_the_commands() {
    assert_eq!(migrations_dir("/t/a"), "/t/a/migrations");
    assert_eq!(schema_dir("/t/a"), "/t/a/metadata/schemas");
    assert_eq!(schema_path("/t/a/metadata/schemas", "users"), "/t/a/metadata/schemas/users.json");
}

#[test]
fn schema_files_are_told_by_their_extension() {
    for name in ["users.json", "a.b.json", ".json", "users.JSON", "users.json.bak", "users",
        "json", "users.", ".hidden.json", "..json", "x.jsonl", ""]
    {
        let path = std::path::Path::new(name);
        let expected = if path.extension().and_then(|e| e.to_str()) == Some("json") {
            path.file_stem().and_then(|s| s.to_str()).map(|s| s.to_string())
        } else {
            None
        };
        assert_eq!(schema_name(name), expected, "for {:?}", name);
    }
    assert_eq!(schema_name("users.json"), Some("users".to_string()));
}

#[test]
fn schemas_are_listed_and_typed_in_the_order_of_their_files() {
    let files: Vec<String> = ["users.json", "notes.txt", "blog_posts.json", ".json"]
        .iter()
        .map(|s| s.to_string())
        .collect();
    assert_eq!(
        list_schemas("/s", &files),
        vec![
            SchemaEntry { name: "users".to_string(), file: "/s/users.json".to_string() },
            SchemaEntry { name: "blog_posts".to_string(), file: "/s/blog_posts.json".to_string() },
        ]
    );
    assert!(list_schemas("/s", &Vec::new()).is_empty());

    let types = generate_types("out", &files);
    assert_eq!(types.len(), 2);
    assert_eq!(types[1].schema, "blog_posts");
    assert_eq!(types[1].file, "out/blog_posts.ts");
    assert!(types[1].content.starts_with("// Auto-generated TypeScript types for blog_posts\n"));
    assert!(types[1].content.contains("export interface BlogPosts {\n"));
    assert!(types[1].content.ends_with("  id: string;\n}\n"));

    assert_eq!(schema_not_found("users").message(), "Schema 'users' not found");
    assert_eq!(new_schema_name(Some("users".to_string())).unwrap(), "users");
    let missing = new_schema_name(None).unwrap_err();
    assert_eq!(missing.code(), &CliErrorCode::ConfigError);
    assert_eq!(missing.message(), "Schema must have a 'name' field");
}

#[test]
fn boot_failures_name_the_step() {
    let cases = [
        (BootStep::LoadSchemas, "Schema load failed: boom"),
        (BootStep::Recover, "Recovery failed (FATAL): boom. System cannot serve requests."),
        (BootStep::RemoveShutdownMarker, "Failed to remove shutdown marker: boom"),
        (BootStep::OpenStorage, "Storage writer open failed: boom"),
        (BootStep::OpenWal, "WAL writer open failed: boom"),
        (BootStep::CheckVersion, "Boot failed: boom"),
    ];
    for (step, message) in cases {
        let error = boot_failure(step, "boom");
        assert_eq!(error.code(), &CliErrorCode::BootFailed);
        assert_eq!(error.exit_code(), 5);
        assert_eq!(error.message(), message);
    }
}

// Free disk space

#[test]
fn free_space_is_read_from_the_second_line_of_df() {
    let output = "Filesystem     1B-blocks       Used   Available Use% Mounted on\n/dev/sda1    105089261568 8747339776 90950348800   9% /\n";
    assert_eq!(free_space_from_df(output), Ok(90950348800));
    assert_eq!(free_space_from_df("a b c 5\n  x\ty   z\t 42  rest\n"), Ok(42));

    let format = Err(ResourceError::IoError("Unexpected df output format".to_string()));
    assert_eq!(free_space_from_df(""), format);
    assert_eq!(free_space_from_df("only one line\n"), format);
    assert_eq!(free_space_from_df("header\n1 2 3\n"), format);

    assert_eq!(
        free_space_from_df("header\n/dev/sda1 1 2 lots 9% /\n"),
        Err(ResourceError::IoError(
            "Failed to parse free space: invalid digit found in string".to_string()
        ))
    );
    assert_eq!(
        free_space_from_df("header\n/dev/sda1 1 2 99999999999999999999 9% /\n"),
        Err(ResourceError::IoError(
            "Failed to parse free space: number too large to fit in target type".to_string()
        ))
    );
}

#[test]
fn number_faults_are_worded_as_the_integer_types_word_them() {
    for text in ["", "+", "-", "-5", "12a", "a12", "18446744073709551616", "+18446744073709551616",
        "0", "42", "+42", "18446744073709551615", " 1", "1.5", "٣"]
    {
        let expected = text.parse::<u64>().map_err(|e| e.to_string());
        let got = parse_u64_or_fault(text).map_err(|e| e.to_string());
        assert_eq!(got, expected, "for {:?}", text);
    }
}

// Snapshots

fn run(outcomes: &[bool]) -> Vec<SnapshotCommand> {
    let mut stage = next_stage(SnapshotStage::NotStarted, true);
    let mut commands = vec![command(stage)];
    for &ok in outcomes {
        stage = next_stage(stage, ok);
        commands.push(command(stage));
    }
    commands
}

#[test]
fn a_snapshot_takes_its_steps_in_order() {
    assert_eq!(
        run(&[true; 7]),
        vec![
            SnapshotCommand::AcquireLock,
            SnapshotCommand::SyncWal,
            SnapshotCommand::CopyFiles,
            SnapshotCommand::WriteManifest,
            SnapshotCommand::SyncFiles,
            SnapshotCommand::Publish,
            SnapshotCommand::ReleaseLock,
            SnapshotCommand::ReportSuccess,
        ]
    );
    // A published snapshot is a success whatever comes of releasing the lock.
    let mut outcomes = [true; 7];
    outcomes[6] = false;
    assert_eq!(run(&outcomes).last(), Some(&SnapshotCommand::ReportSuccess));
    assert_eq!(next_stage(SnapshotStage::Succeeded, false), SnapshotStage::Succeeded);
    assert_eq!(next_stage(SnapshotStage::Failed, true), SnapshotStage::Failed);
}

#[test]
fn a_failed_snapshot_removes_its_directory_and_releases_the_lock() {
    for failing in 1..6 {
        let mut outcomes = vec![true; failing];
        outcomes.push(false);
        for removed in [true, false] {
            for released in [true, false] {
                let mut all = outcomes.clone();
                all.push(removed);
                all.push(released);
                let commands = run(&all);
                let n = commands.len();
                assert_eq!(commands[n - 3], SnapshotCommand::RemoveTempDir);
                assert_eq!(commands[n - 2], SnapshotCommand::ReleaseLock);
                assert_eq!(commands[n - 1], SnapshotCommand::ReportFailure);
            }
        }
    }
    // A lock that cannot be taken fails the snapshot at once.
    assert_eq!(run(&[false]), vec![SnapshotCommand::AcquireLock, SnapshotCommand::ReportFailure]);
}

#[test]
fn snapshot_files_are_checked_by_length_and_checksum() {
    let entry = file_entry("pages/0001".to_string(), b"123456789");
    assert_eq!(entry.path, "pages/0001");
    assert_eq!(entry.size, 9);
    assert_eq!(entry.checksum, 0xE3069283);
    assert!(verify_file(&entry, b"123456789"));
    assert!(!verify_file(&entry, b"123456780"));
    assert!(!verify_file(&entry, b"12345678"));
    assert!(!verify_file(&entry, b""));

    assert_eq!(snapshot_dir("/d/snapshots", "s1"), "/d/snapshots/s1");
    assert_eq!(snapshot_temp_dir("/d/snapshots", "s1"), "/d/snapshots/s1.tmp");
    let manifest = snapshot_manifest("s1".to_string(), 42, vec![entry.clone()]);
    assert_eq!(manifest.snapshot_id, "s1");
    assert_eq!(manifest.wal_cut_lsn, 42);
    assert_eq!(manifest.files, vec![entry]);
}

// OAuth decisions

fn github_info(id: i64, email: Option<&str>) -> OAuthUserInfo {
    OAuthUserInfo::from_github(id, email.map(|e| e.to_string()), Some("Name".to_string()), None)
}

#[test]
fn linking_refuses_the_account_of_another_user() {
    let info = github_info(5, None);
    let identity = OAuthIdentity::with_id(1, 2, &info, 0);
    assert_eq!(link_decision(None, 2), Ok(LinkDecision::Create));
    assert_eq!(link_decision(Some(identity.clone()), 2), Ok(LinkDecision::Keep(identity.clone())));
    assert_eq!(
        link_decision(Some(identity), 3),
        Err(AuthError::OAuthError(
            "This provider account is already linked to another user".to_string()
        ))
    );
}

#[test]
fn new_oauth_users_need_an_address() {
    assert_eq!(
        required_email(&github_info(5, None)),
        Err(AuthError::OAuthError("Email is required from OAuth provider".to_string()))
    );
    let info = github_info(5, Some("u@example.com"));
    let email = required_email(&info).unwrap();
    let user = user_from_account(&info, email, 9, 100);
    assert_eq!(user.id, 9);
    assert_eq!(user.email, "u@example.com");
    assert!(user.email_verified);
    assert_eq!(user.password_hash, "");
    assert_eq!(user.name, Some("Name".to_string()));
    assert_eq!(user.created_at_ms, 100);
}

#[test]
fn a_provider_is_registered_once_per_kind() {
    let mut service =
        OAuthService::new(InMemoryUserRepository::new(), InMemoryOAuthRepository::new());
    let first = OAuthProviderConfig::google("a".to_string(), "s".to_string(), "r".to_string());
    let second = OAuthProviderConfig::google("b".to_string(), "s".to_string(), "r".to_string());
    service.register_provider(first);
    service.register_provider(second.clone());
    assert_eq!(service.get_provider_config(OAuthProvider::Google).unwrap(), &second);
    assert!(service.get_provider_config(OAuthProvider::GitHub).is_err());
    let (url, params) = service.build_token_request(OAuthProvider::Google, "code-1").unwrap();
    assert_eq!(url, "https://oauth2.googleapis.com/token");
    assert_eq!(params[0], ("client_id".to_string(), "b".to_string()));
    assert_eq!(params[2], ("code".to_string(), "code-1".to_string()));
    assert_eq!(params[4], ("grant_type".to_string(), "authorization_code".to_string()));
    assert_eq!(
        service.get_userinfo_url(OAuthProvider::Google).unwrap(),
        "https://www.googleapis.com/oauth2/v3/userinfo"
    );
    assert_eq!(
        service.get_userinfo_url(OAuthProvider::Discord).unwrap_err(),
        AuthError::OAuthError("Provider discord not configured".to_string())
    );
    // An expired state is refused and gone.
    let (_, state) = service.get_authorization_url(OAuthProvider::Google, None, 1_000).unwrap();
    assert_eq!(
        service.validate_state(&state, 1_601).unwrap_err(),
        AuthError::OAuthError("State expired".to_string())
    );
    assert_eq!(
        service.validate_state(&state, 1_001).unwrap_err(),
        AuthError::OAuthError("Invalid or expired state".to_string())
    );
}

#[test]
fn total_space_is_read_from_the_second_column_of_df() {
    let output = "Filesystem     1B-blocks       Used   Available Use% Mounted on\n/dev/sda1    105089261568 8747339776 90950348800   9% /\n";
    assert_eq!(total_space_from_df(output), Ok(105089261568));
    assert_eq!(
        total_space_from_df("header\n/dev/sda1\n"),
        Err(ResourceError::IoError("Unexpected df output format".to_string()))
    );
    assert_eq!(
        total_space_from_df("header\n/dev/sda1 12x 3 4\n"),
        Err(ResourceError::IoError(
            "Failed to parse total space: invalid digit found in string".to_string()
        ))
    );
}
