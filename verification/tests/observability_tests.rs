use aerodb::observability::operation_log::{
    OperationLog, OperationLogConfig, OperationLogEntry, OperationType,
};
use aerodb::observability::slow_query::{
    slow_query_log_line, webhook_failure_log_line, webhook_request, webhook_succeeded,
    webhook_target, SlowQueryConfig, SlowQueryEvent, SlowQueryTracker,
};

fn create_test_event(duration_ms: u64) -> SlowQueryEvent {
    SlowQueryEvent {
        operation_id: 7,
        collection: Some("test_collection".to_string()),
        operation_type: "find".to_string(),
        duration_ms,
        threshold_ms: 100,
        user_id: Some(9),
        index_used: Some("pk_id".to_string()),
        documents_scanned: Some(1000),
        timestamp: "2026-02-07T12:00:00+00:00".to_string(),
    }
}

#[test]
fn test_operation_log_disabled_by_default() {
    let config = OperationLogConfig::default();
    assert!(!config.enabled);
}

#[test]
fn test_operation_log_explicit_enable() {
    let config = OperationLogConfig { enabled: true, slow_threshold_ms: 50, max_entries: 100 };
    let log = OperationLog::new(config);
    assert!(log.is_enabled());
    assert_eq!(log.slow_threshold_ms(), 50);
}

#[test]
fn test_operation_log_entry() {
    let entry = OperationLogEntry::builder(OperationType::Find)
        .collection("users".to_string())
        .duration_ms(150)
        .documents_scanned(1000)
        .documents_affected(50)
        .index_used("email_idx".to_string())
        .slow_threshold_ms(100)
        .build(0);

    assert_eq!(entry.operation, OperationType::Find);
    assert_eq!(entry.collection, Some("users".to_string()));
    assert_eq!(entry.duration_ms, 150);
    assert!(entry.is_slow);
    assert_eq!(entry.index_used, Some("email_idx".to_string()));
}

#[test]
fn test_operation_log_append_only() {
    let config = OperationLogConfig { enabled: true, slow_threshold_ms: 100, max_entries: 1000 };
    let mut log = OperationLog::new(config);
    log.log(OperationLogEntry::builder(OperationType::Find).collection("posts".into()).duration_ms(50).build(0));
    log.log(OperationLogEntry::builder(OperationType::Insert).collection("posts".into()).duration_ms(30).build(0));
    assert_eq!(log.count(), 2);
    let entries = log.entries();
    assert_eq!(entries[0].operation, OperationType::Find);
    assert_eq!(entries[1].operation, OperationType::Insert);
}

#[test]
fn test_operation_log_slow_query_detection() {
    let config = OperationLogConfig { enabled: true, slow_threshold_ms: 100, max_entries: 1000 };
    let mut log = OperationLog::new(config);
    log.log(OperationLogEntry::builder(OperationType::Find).duration_ms(50).slow_threshold_ms(100).build(0));
    log.log(OperationLogEntry::builder(OperationType::Find).duration_ms(150).slow_threshold_ms(100).build(0));
    let slow = log.slow_queries();
    assert_eq!(slow.len(), 1);
    assert_eq!(slow[0].duration_ms, 150);
}

#[test]
fn test_operation_log_disabled_noop() {
    let mut log = OperationLog::disabled();
    log.log(OperationLogEntry::builder(OperationType::Find).duration_ms(50).build(0));
    assert_eq!(log.count(), 0);
}

#[test]
fn test_operation_log_max_entries() {
    let config = OperationLogConfig { enabled: true, slow_threshold_ms: 100, max_entries: 3 };
    let mut log = OperationLog::new(config);
    for i in 0..5 {
        log.log(OperationLogEntry::builder(OperationType::Find).duration_ms(i as u64 * 10).build(0));
    }
    assert_eq!(log.count(), 3);
    let entries = log.entries();
    assert_eq!(entries[0].duration_ms, 20);
    assert_eq!(entries[1].duration_ms, 30);
    assert_eq!(entries[2].duration_ms, 40);
}

#[test]
fn operation_log_with_no_room_keeps_nothing() {
    let config = OperationLogConfig { enabled: true, slow_threshold_ms: 100, max_entries: 0 };
    let mut log = OperationLog::new(config);
    log.log(OperationLogEntry::builder(OperationType::Count).build_with_id(1, 2));
    assert_eq!(log.count(), 0);
    let mut one = OperationLog::new(OperationLogConfig { enabled: true, slow_threshold_ms: 1, max_entries: 1 });
    one.log(OperationLogEntry::builder(OperationType::Count).build_with_id(1, 2));
    one.log(OperationLogEntry::builder(OperationType::Delete).build_with_id(2, 3));
    assert_eq!(one.entries().len(), 1);
    assert_eq!(one.entries()[0].id, 2);
    one.clear();
    assert_eq!(one.count(), 0);
}

#[test]
fn builder_sets_every_field() {
    let entry = OperationLogEntry::builder(OperationType::Update)
        .user_id(77)
        .duration(2, 345_999_999)
        .build_with_id(5, 1234);
    assert_eq!(entry.id, 5);
    assert_eq!(entry.timestamp_ms, 1234);
    assert_eq!(entry.user_id, Some(77));
    assert_eq!(entry.duration_ms, 2345);
    assert!(entry.is_slow);
    let exact = OperationLogEntry::builder(OperationType::Update).duration_ms(100).build_with_id(1, 1);
    assert!(!exact.is_slow);
    assert_eq!(exact.duplicate(), exact);
    assert_eq!(OperationType::Subscribe.as_str(), "subscribe");
    assert_eq!(OperationType::Storage.as_str(), "storage");
    let a = OperationLogEntry::builder(OperationType::Find).build(0);
    let b = OperationLogEntry::builder(OperationType::Find).build(0);
    assert_ne!(a.id, b.id);
}

#[test]
fn slow_query_test_config_defaults() {
    let config = SlowQueryConfig::default();
    assert!(!config.enabled);
    assert_eq!(config.threshold_ms, 100);
    assert!(config.emit_log);
    assert!(config.webhook_url.is_none());
    assert_eq!(config.webhook_timeout_ms, 5000);
}

#[test]
fn test_config_enabled() {
    let config = SlowQueryConfig::enabled();
    assert!(config.enabled);
}

#[test]
fn test_config_with_threshold() {
    let config = SlowQueryConfig::with_threshold_ms(500);
    assert!(config.enabled);
    assert_eq!(config.threshold_ms, 500);
}

#[test]
fn test_tracker_disabled() {
    let tracker = SlowQueryTracker::disabled();
    assert!(!tracker.is_enabled());
    assert!(!tracker.is_slow(1000));
}

#[test]
fn test_tracker_enabled() {
    let tracker = SlowQueryTracker::new(SlowQueryConfig::enabled());
    assert!(tracker.is_enabled());
}

#[test]
fn test_is_slow_below_threshold() {
    let tracker = SlowQueryTracker::new(SlowQueryConfig::with_threshold_ms(100));
    assert!(!tracker.is_slow(50));
    assert!(!tracker.is_slow(100));
}

#[test]
fn test_is_slow_above_threshold() {
    let tracker = SlowQueryTracker::new(SlowQueryConfig::with_threshold_ms(100));
    assert!(tracker.is_slow(101));
    assert!(tracker.is_slow(1000));
}

#[test]
fn test_tracker_tracks_without_panic() {
    let tracker = SlowQueryTracker::new(SlowQueryConfig::enabled());
    let event = create_test_event(200);
    let actions = tracker.track(&event);
    assert!(actions.emit_log);
    assert!(actions.webhook_url.is_none());
}

#[test]
fn test_webhook_failure_does_not_crash() {
    let config = SlowQueryConfig {
        enabled: true,
        threshold_ms: 100,
        emit_log: false,
        webhook_url: Some("http://invalid-host-that-does-not-exist:9999/webhook".to_string()),
        webhook_timeout_ms: 100,
    };
    let tracker = SlowQueryTracker::new(config);
    let event = create_test_event(200);
    let actions = tracker.track(&event);
    assert!(!actions.emit_log);
    assert_eq!(actions.webhook_timeout_ms, 100);
    let url = actions.webhook_url.unwrap();
    assert_eq!(
        webhook_target(&url),
        Ok(("invalid-host-that-does-not-exist:9999".to_string(), "/webhook".to_string()))
    );
    assert_eq!(
        webhook_failure_log_line(&url, "refused"),
        "{\"level\":\"ERROR\",\"event\":\"SLOW_QUERY_WEBHOOK_FAILED\",\"url\":\"http://invalid-host-that-does-not-exist:9999/webhook\",\"error\":\"refused\"}"
    );
}

#[test]
fn disabled_tracker_does_nothing() {
    let mut config = SlowQueryConfig::disabled();
    config.webhook_url = Some("http://h/".to_string());
    let tracker = SlowQueryTracker::new(config);
    let actions = tracker.track(&create_test_event(1));
    assert!(!actions.emit_log);
    assert!(actions.webhook_url.is_none());
    assert_eq!(tracker.threshold_ms(), 100);
}

#[test]
fn webhook_parts() {
    assert_eq!(webhook_target("https://a.b:1/x/y?z"), Ok(("a.b:1".to_string(), "/x/y?z".to_string())));
    assert_eq!(webhook_target("http://host"), Ok(("host".to_string(), "/".to_string())));
    assert_eq!(webhook_target("http://host/"), Ok(("host".to_string(), "/".to_string())));
    assert_eq!(webhook_target("ftp://host/x"), Err("Invalid URL protocol".to_string()));
    assert_eq!(webhook_target(""), Err("Invalid URL protocol".to_string()));
    assert_eq!(
        webhook_request("/hook", "h:80", "{\"é\":1}"),
        "POST /hook HTTP/1.1\r\nHost: h:80\r\nContent-Type: application/json\r\nContent-Length: 8\r\nConnection: close\r\n\r\n{\"é\":1}"
    );
    assert!(webhook_succeeded("HTTP/1.1 204 No Content"));
    assert!(webhook_succeeded("HTTP/1.1 200 OK"));
    assert!(!webhook_succeeded("HTTP/1.1 500 Internal Server Error"));
    assert!(!webhook_succeeded(""));
    assert_eq!(
        slow_query_log_line("{}"),
        "{\"level\":\"WARN\",\"event\":\"SLOW_QUERY\",\"details\":{}}"
    );
}
