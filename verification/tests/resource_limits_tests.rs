use aerodb::resource_limits::{
    DiskSpaceChecker, FileDescriptorTracker, HealthStatus, MemoryTracker, ResourceError,
    ResourceLimitsConfig, ResourceManager, ResourceType,
};

#[test]
fn test_memory_tracker_basic() {
    let mut tracker = MemoryTracker::new(1000);
    assert!(tracker.try_allocate(500).is_ok());
    assert_eq!(tracker.current(), 500);
    assert!(tracker.try_allocate(600).is_err());
    tracker.release(500);
    assert_eq!(tracker.current(), 0);
}

#[test]
fn test_fd_tracker_basic() {
    let mut tracker = FileDescriptorTracker::new(10);
    for _ in 0..10 {
        assert!(tracker.try_open().is_ok());
    }
    assert!(tracker.try_open().is_err());
    tracker.close();
    assert!(tracker.try_open().is_ok());
}

#[test]
fn test_usage_percent() {
    let mut tracker = MemoryTracker::new(100);
    tracker.try_allocate(75).unwrap();
    assert_eq!(tracker.usage_percent(), 75);
}

#[test]
fn test_http_status_codes() {
    assert_eq!(ResourceError::DiskFull { available: 0, required: 1 }.http_status_code(), 507);
    assert_eq!(
        ResourceError::MemoryExhausted { current: 0, requested: 1, limit: 0 }.http_status_code(),
        503
    );
    assert_eq!(ResourceError::ResultSetTooLarge { requested: 10, limit: 5 }.http_status_code(), 400);
}

#[test]
fn memory_rejection_names_usage_request_and_limit() {
    let mut tracker = MemoryTracker::new(1000);
    tracker.try_allocate(400).unwrap();
    assert_eq!(
        tracker.try_allocate(601),
        Err(ResourceError::MemoryExhausted { current: 400, requested: 601, limit: 1000 })
    );
    assert_eq!(tracker.current(), 400);
    assert_eq!(tracker.try_allocate(600), Ok(()));
    assert_eq!(tracker.current(), 1000);
    assert_eq!(tracker.limit(), 1000);
}

#[test]
fn memory_request_beyond_the_integer_range_is_rejected() {
    let mut tracker = MemoryTracker::new(u64::MAX);
    tracker.try_allocate(10).unwrap();
    assert_eq!(
        tracker.try_allocate(u64::MAX),
        Err(ResourceError::MemoryExhausted { current: 10, requested: u64::MAX, limit: u64::MAX })
    );
    assert_eq!(tracker.current(), 10);
}

#[test]
fn allocated_never_exceeds_limit_over_a_sequence() {
    let mut tracker = MemoryTracker::new(100);
    let sizes = [30u64, 50, 40, 20, 1, 100, 0];
    let mut held: Vec<u64> = Vec::new();
    for size in sizes {
        if tracker.try_allocate(size).is_ok() {
            held.push(size);
        }
        assert!(tracker.current() <= 100);
    }
    assert_eq!(held, vec![30, 50, 20, 0]);
    for size in held {
        tracker.release(size);
        assert!(tracker.current() <= 100);
    }
    assert_eq!(tracker.current(), 0);
}

#[test]
fn release_of_more_than_allocated_wraps() {
    let mut tracker = MemoryTracker::new(100);
    tracker.release(1);
    assert_eq!(tracker.current(), u64::MAX);
}

#[test]
fn usage_percent_rounds_down_and_handles_zero_limit() {
    let mut tracker = MemoryTracker::new(3);
    tracker.try_allocate(2).unwrap();
    assert_eq!(tracker.usage_percent(), 66);
    let empty = MemoryTracker::new(0);
    assert_eq!(empty.usage_percent(), 0);
    let mut fds = FileDescriptorTracker::new(4);
    fds.try_open().unwrap();
    assert_eq!(fds.usage_percent(), 25);
    assert_eq!(fds.current(), 1);
    assert_eq!(fds.limit(), 4);
}

#[test]
fn fd_limit_error_and_close_at_zero() {
    let mut fds = FileDescriptorTracker::new(1);
    fds.try_open().unwrap();
    assert_eq!(fds.try_open(), Err(ResourceError::FileDescriptorLimit { current: 1, limit: 1 }));
    fds.close();
    fds.close();
    assert_eq!(fds.current(), 0);
}

#[test]
fn disk_check_needs_reserve_plus_write() {
    let checker = DiskSpaceChecker::new("/data".to_string(), 1000);
    assert_eq!(checker.check_space(1500, 500), Ok(()));
    assert_eq!(
        checker.check_space(1499, 500),
        Err(ResourceError::DiskFull { available: 1499, required: 1500 })
    );
    assert_eq!(
        checker.check_space(u64::MAX, u64::MAX),
        Err(ResourceError::DiskFull { available: u64::MAX, required: u64::MAX })
    );
    assert_eq!(checker.usage_percent(200, 50), 75);
    assert_eq!(checker.usage_percent(0, 0), 0);
    assert_eq!(checker.data_path(), "/data");
}

#[test]
fn disk_full_refuses_writes_and_sets_read_only() {
    let gib: u64 = 1024 * 1024 * 1024;
    let config = ResourceLimitsConfig { min_free_disk_bytes: 10 * gib, ..Default::default() };
    let mut manager = ResourceManager::new(config, "/t/a".to_string());
    assert!(manager.writes_allowed());
    for _ in 0..3 {
        let r = manager.check_write(5 * gib, 1);
        match r {
            Err(e) => {
                assert_eq!(e.code(), "AERO_RESOURCE_DISK_FULL");
                assert_eq!(e, ResourceError::DiskFull { available: 5 * gib, required: 10 * gib + 1 });
            }
            Ok(()) => panic!("write admitted on a full disk"),
        }
    }
    assert!(!manager.writes_allowed());
    let status = manager.get_status(5 * gib, 100 * gib);
    assert!(status.read_only_mode);
    assert_eq!(status.health_status, HealthStatus::ReadOnly);
    // With space again, writes stay refused until the operator clears the flag.
    assert_eq!(manager.check_write(50 * gib, 1), Err(ResourceError::ReadOnlyMode));
    manager.exit_read_only_mode();
    assert_eq!(manager.check_write(50 * gib, 1), Ok(()));
}

#[test]
fn health_follows_highest_percentage() {
    let config = ResourceLimitsConfig {
        max_memory_bytes: 100,
        max_file_descriptors: 10,
        ..Default::default()
    };
    let mut manager = ResourceManager::new(config, "/d".to_string());
    assert_eq!(manager.get_status(100, 100).health_status, HealthStatus::Normal);
    manager.try_allocate_memory(75).unwrap();
    assert_eq!(manager.get_status(100, 100).health_status, HealthStatus::Warning);
    for _ in 0..9 {
        manager.try_open_fd().unwrap();
    }
    let status = manager.get_status(100, 100);
    assert_eq!(status.health_status, HealthStatus::Critical);
    assert_eq!(status.memory_usage_bytes, 75);
    assert_eq!(status.open_file_descriptors, 9);
    assert_eq!(status.disk_usage_bytes, 0);
    manager.release_memory(75);
    manager.close_fd();
    manager.close_fd();
    manager.close_fd();
    assert_eq!(manager.get_status(10, 100).health_status, HealthStatus::Critical);
    assert_eq!(manager.get_status(26, 100).health_status, HealthStatus::Normal);
    assert_eq!(manager.get_status(25, 100).health_status, HealthStatus::Warning);
    manager.enter_read_only_mode();
    assert_eq!(manager.get_status(26, 100).health_status, HealthStatus::ReadOnly);
}

#[test]
fn resource_error_kinds() {
    let e = ResourceError::IoError("df failed".to_string());
    assert_eq!(e.resource_type(), ResourceType::Disk);
    assert_eq!(e.http_status_code(), 500);
    assert!(!e.is_recoverable());
    assert_eq!(e.to_string(), "Resource check failed: df failed");
    assert_eq!(ResourceError::ReadOnlyMode.code(), "AERO_RESOURCE_READ_ONLY_MODE");
    assert!(ResourceError::MemoryExhausted { current: 1, requested: 2, limit: 3 }.is_recoverable());
    assert_eq!(
        ResourceError::MemoryExhausted { current: 1, requested: 2, limit: 3 }.to_string(),
        "Memory limit exceeded: 1 bytes in use, 2 bytes requested, 3 bytes limit. Reduce query scope or increase max_memory_bytes configuration."
    );
    assert_eq!(ResourceType::FileDescriptors.to_string(), "file_descriptors");
    assert_eq!(
        ResourceError::ConnectionLimit { current: 3, limit: 3 }.resource_type(),
        ResourceType::Connections
    );
}
