use aerodb::cli::args::{
    Command, ControlAction, DeployAction, DiagTarget, InspectTarget, MigrateAction,
};
use aerodb::cli::boot::{is_initialized, next_step, BootStep, InitState};
use aerodb::cli::commands::{
    acknowledged_risks, build_command, deploy, init, init_directories, logs, parse_uuid_arg,
    to_pascal_case, typescript_interface, AuthorityLevel, Config, ControlCommand,
    ControlPlaneCommand, DiagnosticCommand, InitStep, InspectionCommand, ReplicationConfig,
    ReplicationState, DOCKER_COMPOSE, ENV_TEMPLATE, K8S_DEPLOYMENT, K8S_PVC, K8S_SERVICE,
};
use aerodb::cli::errors::{CliError, CliErrorCode};

const ID_TEXT: &str = "12345678-1234-1234-1234-123456789012";
const ID: u128 = 0x12345678_1234_1234_1234_123456789012;

#[test]
fn test_init_creates_directories() {
    let config = Config::with_defaults("/t/data".to_string());
    let plan = init(&config, false).unwrap();
    let dirs = vec!["/t/data/wal", "/t/data/data", "/t/data/metadata/schemas"];
    assert_eq!(init_directories("/t/data/"), dirs);
    // The directories come first, then the version marker; the marker of a
    // complete initialization is written last.
    assert_eq!(
        plan,
        vec![
            InitStep::CreateDirectory("/t/data/wal".to_string()),
            InitStep::CreateDirectory("/t/data/data".to_string()),
            InitStep::CreateDirectory("/t/data/metadata/schemas".to_string()),
            InitStep::WriteVersionMarker("/t/data/.aerodb_version".to_string()),
            InitStep::WriteInitMarker("/t/data/.aerodb_initialized".to_string()),
        ]
    );
}

#[test]
fn test_init_refuses_reinit() {
    let config = Config::with_defaults("/t/data".to_string());
    let result = init(&config, true);
    assert!(result.is_err());
    assert_eq!(result.unwrap_err().code(), &CliErrorCode::AlreadyInitialized);
}

#[test]
fn test_start_requires_init() {
    // A directory without all of its three directories is not initialized.
    for (wal, data, schemas) in [
        (false, false, false),
        (true, false, false),
        (true, true, false),
        (false, true, true),
    ] {
        let state = InitState { has_wal_dir: wal, has_data_dir: data, has_schema_dir: schemas };
        assert!(!is_initialized(state));
    }
    assert!(is_initialized(InitState {
        has_wal_dir: true,
        has_data_dir: true,
        has_schema_dir: true
    }));
    let error = CliError::not_initialized();
    assert_eq!(error.code(), &CliErrorCode::NotInitialized);
    assert_eq!(error.exit_code(), 5);
}

#[test]
fn test_config_validates_sync_mode() {
    let mut config = Config::with_defaults("/t/data".to_string());
    config.wal_sync_mode = "none".to_string();
    let result = config.validate();
    assert!(result.is_err());
    let error = result.unwrap_err();
    assert_eq!(error.code(), &CliErrorCode::ConfigError);
    assert_eq!(error.message(), "Invalid wal_sync_mode: 'none'. Only 'fsync' is allowed.");
    assert!(init(&config, false).is_err());
}

#[test]
fn commands_test_config_defaults() {
    let config = Config::with_defaults("/t/data".to_string());
    assert_eq!(config.max_wal_size_bytes, 1073741824);
    assert_eq!(config.max_memory_bytes, 536870912);
    assert_eq!(config.wal_sync_mode, "fsync");
    assert_eq!(config.data_path(), "/t/data");
    assert!(config.validate().is_ok());
}

#[test]
fn config_sizes_must_not_be_zero() {
    let mut config = Config::with_defaults("/t/data".to_string());
    config.max_wal_size_bytes = 0;
    config.max_memory_bytes = 0;
    assert_eq!(config.validate().unwrap_err().message(), "max_wal_size_bytes must be > 0");
    config.max_wal_size_bytes = 1;
    assert_eq!(config.validate().unwrap_err().message(), "max_memory_bytes must be > 0");
    config.max_memory_bytes = 1;
    assert!(config.validate().is_ok());
}

#[test]
fn replication_settings_are_checked() {
    let mut config = Config::with_defaults("/t/data".to_string());
    assert_eq!(config.to_replication_config().unwrap(), ReplicationConfig::Disabled);
    assert_eq!(config.init_replication_state().unwrap(), ReplicationState::Disabled);

    config.replication_enabled = true;
    assert_eq!(config.to_replication_config().unwrap(), ReplicationConfig::Primary);
    assert_eq!(config.init_replication_state().unwrap(), ReplicationState::PrimaryActive);

    config.replication_role = "observer".to_string();
    assert_eq!(
        config.validate().unwrap_err().message(),
        "Invalid replication_role: 'observer'. Must be 'primary' or 'replica'."
    );

    config.replication_role = "replica".to_string();
    assert_eq!(
        config.to_replication_config().unwrap_err().message(),
        "primary_address is required when replication_role is 'replica'"
    );

    config.primary_address = Some("10.0.0.1:5432".to_string());
    assert_eq!(
        config.to_replication_config().unwrap(),
        ReplicationConfig::Replica { primary_address: "10.0.0.1:5432".to_string(), replica_id: None }
    );
    assert!(matches!(
        config.init_replication_state().unwrap(),
        ReplicationState::ReplicaActive { .. }
    ));

    config.replica_id = Some(ID_TEXT.to_string());
    assert_eq!(
        config.init_replication_state().unwrap(),
        ReplicationState::ReplicaActive { replica_id: ID }
    );
    config.replica_id = Some("not-a-uuid".to_string());
    let error = config.validate().unwrap_err();
    assert!(error.message().starts_with("Invalid replica_id UUID: "));
}

#[test]
fn cli_errors_have_codes_and_exit_codes() {
    let cases = [
        (CliError::already_initialized(), "AERO_CLI_ALREADY_INITIALIZED", 2u8),
        (CliError::config_error("x".to_string()), "AERO_CLI_CONFIG_ERROR", 3),
        (CliError::io_error("x".to_string()), "AERO_CLI_IO_ERROR", 4),
        (CliError::not_initialized(), "AERO_CLI_NOT_INITIALIZED", 5),
        (CliError::boot_failed("x".to_string()), "AERO_CLI_BOOT_FAILED", 5),
        (CliError::runtime_error("x".to_string()), "AERO_CLI_RUNTIME_ERROR", 6),
    ];
    for (error, code, exit) in cases {
        assert_eq!(error.code_str(), code);
        assert_eq!(error.code().as_str(), code);
        assert_eq!(error.exit_code(), exit);
        assert_eq!(error.code().exit_code(), exit);
    }
    assert_eq!(CliError::boot_failed("no log".to_string()).message(), "no log");
}

#[test]
fn the_boot_sequence_recovers_before_it_serves() {
    let mut step = BootStep::LoadConfig;
    let mut seen = vec![step];
    while step != BootStep::Serving {
        step = next_step(step, true, true);
        seen.push(step);
        assert!(seen.len() < 20);
    }
    assert_eq!(
        seen,
        vec![
            BootStep::LoadConfig,
            BootStep::CheckInitialized,
            BootStep::CheckVersion,
            BootStep::LoadSchemas,
            BootStep::Recover,
            BootStep::RemoveShutdownMarker,
            BootStep::OpenWal,
            BootStep::Serving,
        ]
    );
    // A failed recovery halts the boot for good.
    assert_eq!(next_step(BootStep::Recover, false, true), BootStep::Halted);
    assert_eq!(next_step(BootStep::Halted, true, true), BootStep::Halted);
    assert_eq!(next_step(BootStep::Serving, false, true), BootStep::Serving);
    // The marker of a clean shutdown is removed on every boot.
    assert_eq!(next_step(BootStep::Recover, true, true), BootStep::RemoveShutdownMarker);
    assert_eq!(next_step(BootStep::RemoveShutdownMarker, true, true), BootStep::OpenWal);
    assert_eq!(next_step(BootStep::RemoveShutdownMarker, false, true), BootStep::Halted);
    // Without a log there is nothing to recover.
    assert_eq!(next_step(BootStep::LoadSchemas, true, false), BootStep::RemoveShutdownMarker);
    assert_eq!(next_step(BootStep::RemoveShutdownMarker, true, false), BootStep::OpenStorage);
    assert_eq!(next_step(BootStep::OpenStorage, true, false), BootStep::OpenWal);
    assert_eq!(next_step(BootStep::OpenWal, true, false), BootStep::Serving);
    for step in [
        BootStep::LoadConfig,
        BootStep::CheckInitialized,
        BootStep::CheckVersion,
        BootStep::LoadSchemas,
        BootStep::OpenWal,
    ] {
        assert_eq!(next_step(step, false, true), BootStep::Halted);
    }
}

#[test]
fn commands_know_their_configuration_and_whether_they_boot() {
    let start = Command::Start { config: "a.json".to_string() };
    assert_eq!(start.config_path(), "a.json");
    assert!(start.needs_boot());
    assert!(Command::Query { config: "a".to_string() }.needs_boot());
    assert!(Command::Explain { config: "a".to_string() }.needs_boot());
    assert!(Command::Serve { config: "a".to_string(), port: 1 }.needs_boot());
    assert!(!Command::Init { config: "a".to_string() }.needs_boot());
    let migrate = Command::Migrate { config: "m.json".to_string(), action: MigrateAction::Up };
    assert!(!migrate.needs_boot());
    assert_eq!(migrate.config_path(), "m.json");
    let logs = Command::Logs { config: "l".to_string(), lines: 10, level: None, follow: false };
    assert_eq!(logs.config_path(), "l");
    assert!(!logs.needs_boot());
}

#[test]
fn names_become_upper_camel_case() {
    assert_eq!(to_pascal_case("user_profiles"), "UserProfiles");
    assert_eq!(to_pascal_case("users"), "Users");
    assert_eq!(to_pascal_case("a_b_c"), "ABC");
    assert_eq!(to_pascal_case("_x__y_"), "XY");
    assert_eq!(to_pascal_case(""), "");
    assert_eq!(to_pascal_case("already_Upper"), "AlreadyUpper");
    let interface = typescript_interface("user_profiles");
    assert!(interface.starts_with("// Auto-generated TypeScript types for user_profiles\n"));
    assert!(interface.contains("export interface UserProfiles {\n"));
    assert!(interface.ends_with("  id: string;\n}\n"));
}

#[test]
fn logs_show_the_last_lines_that_pass_the_level() {
    let content = "1 INFO start\n2 error disk\n3 INFO ok\n4 ERROR again\n5 WARN slow\n";
    let all = logs(content, 100, &None);
    assert_eq!(all.total, 5);
    assert_eq!(all.lines.len(), 5);
    let last_two = logs(content, 2, &None);
    assert_eq!(last_two.lines, vec!["4 ERROR again", "5 WARN slow"]);
    assert_eq!(last_two.total, 5);
    let errors = logs(content, 100, &Some("error".to_string()));
    assert_eq!(errors.lines, vec!["2 error disk", "4 ERROR again"]);
    let last_error = logs(content, 1, &Some("Error".to_string()));
    assert_eq!(last_error.lines, vec!["4 ERROR again"]);
    assert!(logs(content, 0, &None).lines.is_empty());
    assert_eq!(logs("", 5, &None).total, 0);
}

#[test]
fn uuids_are_read_from_arguments() {
    assert_eq!(parse_uuid_arg(ID_TEXT).unwrap(), ID);
    assert_eq!(parse_uuid_arg("12345678123412341234123456789012").unwrap(), ID);
    let error = parse_uuid_arg("nope").unwrap_err();
    assert_eq!(error.code(), &CliErrorCode::ConfigError);
    assert!(error.message().starts_with("Invalid UUID 'nope': "));
}

#[test]
fn risks_are_split_at_commas_and_trimmed() {
    assert_eq!(acknowledged_risks("data_loss, split_brain ,x"), vec!["data_loss", "split_brain", "x"]);
    assert_eq!(acknowledged_risks("one"), vec!["one"]);
    assert_eq!(acknowledged_risks(""), vec![""]);
    assert_eq!(acknowledged_risks("a,,b"), vec!["a", "", "b"]);
}

#[test]
fn control_actions_become_commands_of_an_operator() {
    let (command, authority) =
        build_command(ControlAction::Inspect { target: InspectTarget::Cluster }).unwrap();
    assert_eq!(command, ControlPlaneCommand::Inspection(InspectionCommand::InspectClusterState));
    assert_eq!(authority.level, AuthorityLevel::Operator);

    let (command, _) = build_command(ControlAction::Inspect {
        target: InspectTarget::Node { node_id: ID_TEXT.to_string() },
    })
    .unwrap();
    assert_eq!(
        command,
        ControlPlaneCommand::Inspection(InspectionCommand::InspectNode { node_id: ID })
    );
    assert!(build_command(ControlAction::Inspect {
        target: InspectTarget::Node { node_id: "x".to_string() },
    })
    .is_err());

    let (command, _) =
        build_command(ControlAction::Diag { target: DiagTarget::Wal }).unwrap();
    assert_eq!(command, ControlPlaneCommand::Diagnostic(DiagnosticCommand::InspectWal));

    let (command, _) = build_command(ControlAction::Promote {
        replica_id: ID_TEXT.to_string(),
        reason: Some("planned".to_string()),
        confirm: None,
    })
    .unwrap();
    assert_eq!(
        command,
        ControlPlaneCommand::Control(ControlCommand::RequestPromotion {
            replica_id: ID,
            reason: Some("planned".to_string()),
        })
    );

    let (command, _) = build_command(ControlAction::ForcePromote {
        replica_id: ID_TEXT.to_string(),
        reason: "primary lost".to_string(),
        acknowledge_risks: "data_loss, split_brain".to_string(),
        confirm: None,
    })
    .unwrap();
    assert_eq!(
        command,
        ControlPlaneCommand::Control(ControlCommand::ForcePromotion {
            replica_id: ID,
            reason: "primary lost".to_string(),
            acknowledged_risks: vec!["data_loss".to_string(), "split_brain".to_string()],
        })
    );
    assert!(build_command(ControlAction::Demote {
        node_id: "bad".to_string(),
        reason: None,
        confirm: None,
    })
    .is_err());
}

#[test]
fn deployment_files() {
    let docker = deploy(&DeployAction::Docker { output: "docker-compose.yml".to_string() });
    assert_eq!(docker.len(), 1);
    assert_eq!(docker[0].path, "docker-compose.yml");
    assert_eq!(docker[0].content, DOCKER_COMPOSE);
    assert!(DOCKER_COMPOSE.contains("54321:54321"));

    let k8s = deploy(&DeployAction::K8s { output: "k8s".to_string() });
    let paths: Vec<&str> = k8s.iter().map(|f| f.path.as_str()).collect();
    assert_eq!(paths, vec!["k8s/deployment.yaml", "k8s/service.yaml", "k8s/pvc.yaml"]);
    assert_eq!(k8s[0].content, K8S_DEPLOYMENT);
    assert_eq!(k8s[1].content, K8S_SERVICE);
    assert_eq!(k8s[2].content, K8S_PVC);

    let env = deploy(&DeployAction::Env { output: ".env.example".to_string() });
    assert_eq!(env.len(), 1);
    assert_eq!(env[0].path, ".env.example");
    assert_eq!(env[0].content, ENV_TEMPLATE);

    assert!(deploy(&DeployAction::Status).is_empty());
}
