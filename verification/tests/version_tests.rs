use aerodb::version::{
    DataDirState, VersionCheck, VersionChecker, VersionError, VersionMarker, BINARY_VERSION,
    INIT_MARKER_FILE, SCHEMA_FORMAT_VERSION, VERSION_FILE, WAL_FORMAT_VERSION,
};

const NOW: &str = "2024-08-01T12:00:00Z";

fn empty_dir() -> DataDirState {
    DataDirState {
        exists: true,
        has_init_marker: false,
        has_version_file: false,
        has_wal_dir: false,
        has_storage_dir: false,
    }
}

fn initialized_dir() -> DataDirState {
    DataDirState {
        exists: true,
        has_init_marker: true,
        has_version_file: true,
        has_wal_dir: true,
        has_storage_dir: true,
    }
}

#[test]
fn test_new_installation() {
    let checker = VersionChecker::new("/t/a".to_string());

    match checker.check(empty_dir(), Ok(None)) {
        VersionCheck::NewInstallation => {}
        other => panic!("Expected NewInstallation, got {:?}", other),
    }
}

#[test]
fn test_compatible_after_init() {
    let checker = VersionChecker::new("/t/a".to_string());
    let marker = VersionMarker::new(NOW.to_string());

    match checker.check(initialized_dir(), Ok(Some(marker))) {
        VersionCheck::Compatible => {}
        other => panic!("Expected Compatible, got {:?}", other),
    }
}

#[test]
fn test_version_marker_roundtrip() {
    let marker = VersionMarker::new(NOW.to_string());
    let loaded = marker.clone();

    assert_eq!(loaded.binary_version, BINARY_VERSION);
    assert_eq!(loaded.wal_format_version, WAL_FORMAT_VERSION);
    assert_eq!(loaded.schema_format_version, SCHEMA_FORMAT_VERSION);
    assert_eq!(loaded.created_at, NOW);
    assert_eq!(loaded.last_accessed_by, None);
    assert_eq!(VERSION_FILE, ".aerodb_version");
    assert_eq!(INIT_MARKER_FILE, ".aerodb_initialized");
}

#[test]
fn test_partial_init_detection() {
    let checker = VersionChecker::new("/t/a".to_string());
    let state = DataDirState { has_wal_dir: true, ..empty_dir() };
    match checker.check(state, Ok(None)) {
        VersionCheck::Incompatible(VersionError::PartialInitialization { .. }) => {}
        other => panic!("Expected PartialInitialization error, got {:?}", other),
    }
}

#[test]
fn an_interrupted_init_is_refused_whatever_was_created() {
    let checker = VersionChecker::new("/t/a".to_string());
    for bits in 1..8u8 {
        let state = DataDirState {
            exists: true,
            has_init_marker: false,
            has_wal_dir: bits & 1 != 0,
            has_storage_dir: bits & 2 != 0,
            has_version_file: bits & 4 != 0,
        };
        let marker = VersionMarker::new(NOW.to_string());
        for loaded in [Ok(None), Ok(Some(marker)), Err(VersionError::IoError("x".to_string()))] {
            match checker.check(state, loaded) {
                VersionCheck::Incompatible(VersionError::PartialInitialization { message }) => {
                    assert_eq!(
                        message,
                        "Data files exist but initialization marker '.aerodb_initialized' is missing. Previous initialization may have failed or files were tampered with."
                    );
                }
                other => panic!("unexpected: {:?}", other),
            }
        }
        assert!(checker.check_initialization_state(state).is_err());
    }
    // A directory that does not exist, an empty one and a complete one pass.
    let absent = DataDirState { exists: false, has_wal_dir: true, ..empty_dir() };
    assert!(checker.check_initialization_state(absent).is_ok());
    assert!(checker.check_initialization_state(empty_dir()).is_ok());
    assert!(checker.check_initialization_state(initialized_dir()).is_ok());
}

#[test]
fn other_formats_are_refused_and_other_binaries_reported() {
    let checker = VersionChecker::new("/t/a".to_string());
    let mut newer = VersionMarker::new(NOW.to_string());
    newer.wal_format_version = WAL_FORMAT_VERSION + 1;
    assert_eq!(
        checker.check(initialized_dir(), Ok(Some(newer))),
        VersionCheck::Incompatible(VersionError::DowngradeDetected {
            data_version: "0.1.0".to_string(),
            binary_version: "0.1.0".to_string(),
        })
    );
    let mut far_newer = VersionMarker::new(NOW.to_string());
    far_newer.wal_format_version = u16::MAX;
    far_newer.binary_version = "9.0.0".to_string();
    far_newer.schema_format_version = 7;
    assert_eq!(
        checker.check(initialized_dir(), Ok(Some(far_newer))),
        VersionCheck::Incompatible(VersionError::DowngradeDetected {
            data_version: "9.0.0".to_string(),
            binary_version: "0.1.0".to_string(),
        })
    );
    let mut older = VersionMarker::new(NOW.to_string());
    older.wal_format_version = 0;
    assert_eq!(
        checker.check(initialized_dir(), Ok(Some(older))),
        VersionCheck::Incompatible(VersionError::WalFormatMismatch {
            expected: 1,
            found: 0,
            message: "Data was written with WAL format v0 but this binary requires v1. Run 'aerodb migrate' to upgrade the data format.".to_string(),
        })
    );
    let mut schema = VersionMarker::new(NOW.to_string());
    schema.schema_format_version = 5;
    assert_eq!(
        checker.check(initialized_dir(), Ok(Some(schema))),
        VersionCheck::Incompatible(VersionError::SchemaFormatMismatch {
            expected: 1,
            found: 5,
            message: "Downgrade not supported.".to_string(),
        })
    );
    let mut old_binary = VersionMarker::new(NOW.to_string());
    old_binary.binary_version = "0.0.9".to_string();
    assert_eq!(
        checker.check(initialized_dir(), Ok(Some(old_binary))),
        VersionCheck::UpgradeCompatible { from: "0.0.9".to_string(), to: "0.1.0".to_string() }
    );
    let io = VersionError::IoError("denied".to_string());
    assert_eq!(
        checker.check(initialized_dir(), Err(io.clone())),
        VersionCheck::Incompatible(io)
    );
}

#[test]
fn access_is_recorded_in_the_marker() {
    let checker = VersionChecker::new("/t/a".to_string());
    assert_eq!(checker.data_dir(), "/t/a");
    assert_eq!(checker.update_access(None), None);
    let mut marker = VersionMarker::new(NOW.to_string());
    marker.binary_version = "0.0.9".to_string();
    let updated = checker.update_access(Some(marker.clone())).unwrap();
    assert_eq!(updated.last_accessed_by, Some("0.1.0".to_string()));
    assert_eq!(updated.binary_version, "0.0.9");
    assert_eq!(updated.created_at, NOW);
    marker.touch();
    assert_eq!(marker, updated);
}

#[test]
fn version_errors_are_shown() {
    let error = VersionError::DowngradeDetected {
        data_version: "0.2.0".to_string(),
        binary_version: "0.1.0".to_string(),
    };
    let text = error.to_string();
    assert!(text.contains("0.2.0"));
    assert!(text.contains("0.1.0"));
    assert!(VersionError::IoError("denied".to_string()).to_string().contains("denied"));
}
