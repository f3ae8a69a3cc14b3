use aerodb::backpressure::{BackpressureConfig, BackpressureError, BackpressureManager, LoadStatus};

#[test]
fn test_connection_limit() {
    let config = BackpressureConfig { max_connections: 2, ..Default::default() };
    let mut manager = BackpressureManager::new(config);

    let _conn1 = manager.try_acquire_connection().unwrap();
    let _conn2 = manager.try_acquire_connection().unwrap();

    match manager.try_acquire_connection() {
        Err(BackpressureError::ConnectionLimitReached { .. }) => {}
        Ok(_) => panic!("Expected ConnectionLimitReached, got Ok"),
        Err(e) => panic!("Expected ConnectionLimitReached, got {}", e.to_string()),
    }
}

#[test]
fn test_connection_release() {
    let config = BackpressureConfig { max_connections: 1, ..Default::default() };
    let mut manager = BackpressureManager::new(config);

    let conn = manager.try_acquire_connection().unwrap();
    assert_eq!(manager.current_connections(), 1);
    manager.release_connection(conn);

    assert_eq!(manager.current_connections(), 0);
    let _conn = manager.try_acquire_connection().unwrap();
}

#[test]
fn test_queue_limit() {
    let config = BackpressureConfig { max_queue_depth: 2, ..Default::default() };
    let mut manager = BackpressureManager::new(config);

    let _q1 = manager.try_enqueue(0).unwrap();
    let _q2 = manager.try_enqueue(0).unwrap();

    assert!(matches!(manager.try_enqueue(0), Err(BackpressureError::QueueFull { .. })));
}

#[test]
fn test_ops_per_connection() {
    let config = BackpressureConfig { max_ops_per_connection: 2, ..Default::default() };
    let mut manager = BackpressureManager::new(config);

    let mut conn = manager.try_acquire_connection().unwrap();
    let _op1 = conn.try_start_operation(&mut manager).unwrap();
    let _op2 = conn.try_start_operation(&mut manager).unwrap();

    assert!(matches!(
        conn.try_start_operation(&mut manager),
        Err(BackpressureError::TooManyOpsPerConnection { .. })
    ));
}

#[test]
fn test_load_status() {
    let config = BackpressureConfig { max_connections: 10, max_queue_depth: 10, ..Default::default() };
    let mut manager = BackpressureManager::new(config);

    assert_eq!(manager.load_status(), LoadStatus::Normal);

    let mut conns = Vec::new();
    for _ in 0..8 {
        conns.push(manager.try_acquire_connection().unwrap());
    }

    assert_eq!(manager.load_status(), LoadStatus::Warning);
}

#[test]
fn test_error_http_codes() {
    assert_eq!(
        BackpressureError::ConnectionLimitReached { current: 0, limit: 0 }.http_status_code(),
        503
    );
    assert_eq!(BackpressureError::QueueFull { current: 0, limit: 0 }.http_status_code(), 503);
    assert_eq!(
        BackpressureError::QueueTimeout { waited_ms: 0, timeout_ms: 0 }.http_status_code(),
        504
    );
    assert_eq!(
        BackpressureError::TooManyOpsPerConnection { current: 0, limit: 0 }.http_status_code(),
        429
    );
}

#[test]
fn load_status_follows_the_highest_of_three_counters() {
    let config = BackpressureConfig {
        max_connections: 10,
        max_queue_depth: 10,
        max_ops_per_connection: 10,
        ..Default::default()
    };
    let mut manager = BackpressureManager::new(config);
    assert_eq!(manager.load_status(), LoadStatus::Normal);

    // The connections alone.
    let mut connections = Vec::new();
    for _ in 0..7 {
        connections.push(manager.try_acquire_connection().unwrap());
    }
    assert_eq!(manager.load_status(), LoadStatus::Normal);
    connections.push(manager.try_acquire_connection().unwrap());
    assert_eq!(manager.load_status(), LoadStatus::Warning);
    connections.push(manager.try_acquire_connection().unwrap());
    assert_eq!(manager.load_status(), LoadStatus::Critical);
    while connections.len() > 2 {
        manager.release_connection(connections.pop().unwrap());
    }
    assert_eq!(manager.load_status(), LoadStatus::Normal);

    // The queue alone.
    let mut queued = Vec::new();
    for _ in 0..8 {
        queued.push(manager.try_enqueue(0).unwrap());
    }
    assert_eq!(manager.load_status(), LoadStatus::Warning);
    queued.push(manager.try_enqueue(0).unwrap());
    assert_eq!(manager.load_status(), LoadStatus::Critical);
    while let Some(slot) = queued.pop() {
        manager.release_queue_slot(slot);
    }
    assert_eq!(manager.load_status(), LoadStatus::Normal);

    // The operations of the busiest connection, with connections and queue
    // far below their limits.
    let mut busy = connections.pop().unwrap();
    let mut idle = connections.pop().unwrap();
    let mut operations = Vec::new();
    operations.push(idle.try_start_operation(&mut manager).unwrap());
    for _ in 0..7 {
        operations.push(busy.try_start_operation(&mut manager).unwrap());
    }
    assert_eq!(manager.busiest_operations(), 7);
    assert_eq!(manager.load_status(), LoadStatus::Normal);
    operations.push(busy.try_start_operation(&mut manager).unwrap());
    assert_eq!(manager.load_status(), LoadStatus::Warning);
    operations.push(busy.try_start_operation(&mut manager).unwrap());
    assert_eq!(busy.current_ops(), 9);
    assert_eq!(manager.load_status(), LoadStatus::Critical);
    busy.finish_operation(&mut manager, operations.pop().unwrap());
    busy.finish_operation(&mut manager, operations.pop().unwrap());
    assert_eq!(manager.busiest_operations(), 7);
    assert_eq!(manager.load_status(), LoadStatus::Normal);
    // A connection that is handed back takes its operations with it.
    manager.release_connection(busy);
    assert_eq!(manager.busiest_operations(), 1);
    assert_eq!(manager.current_connections(), 1);
    manager.release_connection(idle);
    assert_eq!(manager.busiest_operations(), 0);
}
