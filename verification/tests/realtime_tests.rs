use aerodb::realtime::backpressure::{
    BackpressureChannel, BackpressureConfig, BackpressureCounters, DropPolicy, SendAction,
};

#[test]
fn backpressure_test_config_defaults() {
    let config = BackpressureConfig::default();
    assert_eq!(config.max_pending_messages, 1000);
    assert_eq!(config.drop_policy, DropPolicy::OldestFirst);
}

#[test]
fn test_config_with_max_pending() {
    let config = BackpressureConfig::with_max_pending(500);
    assert_eq!(config.max_pending_messages, 500);
}

#[test]
fn test_config_with_policy() {
    let config = BackpressureConfig::with_policy(DropPolicy::Reject);
    assert_eq!(config.drop_policy, DropPolicy::Reject);
}

#[test]
fn test_drop_policy_serde() {
    assert_eq!(DropPolicy::OldestFirst.as_str(), "oldest_first");
    assert_eq!(DropPolicy::from_name("newest_first"), Some(DropPolicy::NewestFirst));
    assert_eq!(DropPolicy::from_name("reject"), Some(DropPolicy::Reject));
    assert_eq!(DropPolicy::from_name("Reject"), None);
}

#[test]
fn test_channel_send_under_capacity() {
    let config = BackpressureConfig::with_max_pending(10);
    let mut channel: BackpressureChannel<i32> = BackpressureChannel::new(config);
    for i in 0..5 {
        let result = channel.send(i).unwrap();
        assert_eq!(result, SendAction::Delivered);
    }
    assert_eq!(channel.len(), 5);
    let snapshot = channel.counters().snapshot();
    assert_eq!(snapshot.delivered, 5);
    assert_eq!(snapshot.dropped, 0);
}

#[test]
fn test_channel_oldest_first_policy() {
    let config = BackpressureConfig { max_pending_messages: 3, drop_policy: DropPolicy::OldestFirst };
    let mut channel: BackpressureChannel<i32> = BackpressureChannel::new(config);
    channel.send(1).unwrap();
    channel.send(2).unwrap();
    channel.send(3).unwrap();
    let result = channel.send(4).unwrap();
    assert_eq!(result, SendAction::Dropped);
    assert_eq!(channel.recv(), Some(2));
    assert_eq!(channel.recv(), Some(3));
    assert_eq!(channel.recv(), Some(4));
    let snapshot = channel.counters().snapshot();
    assert_eq!(snapshot.delivered, 4);
    assert_eq!(snapshot.dropped, 1);
}

#[test]
fn test_channel_newest_first_policy() {
    let config = BackpressureConfig { max_pending_messages: 3, drop_policy: DropPolicy::NewestFirst };
    let mut channel: BackpressureChannel<i32> = BackpressureChannel::new(config);
    channel.send(1).unwrap();
    channel.send(2).unwrap();
    channel.send(3).unwrap();
    let result = channel.send(4).unwrap();
    assert_eq!(result, SendAction::Dropped);
    assert_eq!(channel.recv(), Some(1));
    assert_eq!(channel.recv(), Some(2));
    assert_eq!(channel.recv(), Some(3));
    let snapshot = channel.counters().snapshot();
    assert_eq!(snapshot.delivered, 3);
    assert_eq!(snapshot.dropped, 1);
}

#[test]
fn test_channel_reject_policy() {
    let config = BackpressureConfig { max_pending_messages: 3, drop_policy: DropPolicy::Reject };
    let mut channel: BackpressureChannel<i32> = BackpressureChannel::new(config);
    channel.send(1).unwrap();
    channel.send(2).unwrap();
    channel.send(3).unwrap();
    let result = channel.send(4);
    assert!(result.is_err());
    let err = result.unwrap_err();
    assert!(err.message.contains("rejected"));
    assert_eq!(err.message, "Buffer full (3/3), message rejected");
    assert_eq!(err.to_string(), "Backpressure: Buffer full (3/3), message rejected");
    let snapshot = channel.counters().snapshot();
    assert_eq!(snapshot.delivered, 3);
    assert_eq!(snapshot.rejected, 1);
}

#[test]
fn test_channel_recv() {
    let config = BackpressureConfig::default();
    let mut channel: BackpressureChannel<i32> = BackpressureChannel::new(config);
    channel.send(1).unwrap();
    channel.send(2).unwrap();
    assert_eq!(channel.recv(), Some(1));
    assert_eq!(channel.recv(), Some(2));
    assert_eq!(channel.recv(), None);
}

#[test]
fn test_channel_is_empty_and_full() {
    let config = BackpressureConfig::with_max_pending(2);
    let mut channel: BackpressureChannel<i32> = BackpressureChannel::new(config);
    assert!(channel.is_empty());
    assert!(!channel.is_full());
    channel.send(1).unwrap();
    assert!(!channel.is_empty());
    assert!(!channel.is_full());
    channel.send(2).unwrap();
    assert!(!channel.is_empty());
    assert!(channel.is_full());
}

#[test]
fn test_counters_snapshot() {
    let mut counters = BackpressureCounters::default();
    counters.delivered_count = 10;
    counters.dropped_count = 5;
    counters.rejected_count = 2;
    let snapshot = counters.snapshot();
    assert_eq!(snapshot.delivered, 10);
    assert_eq!(snapshot.dropped, 5);
    assert_eq!(snapshot.rejected, 2);
}

#[test]
fn channel_never_exceeds_its_maximum() {
    for policy in [DropPolicy::OldestFirst, DropPolicy::NewestFirst, DropPolicy::Reject] {
        let config = BackpressureConfig { max_pending_messages: 4, drop_policy: policy };
        let mut channel: BackpressureChannel<u32> = BackpressureChannel::new(config);
        for i in 0..20 {
            let _ = channel.send(i);
            assert!(channel.len() <= 4);
            if i % 7 == 6 {
                channel.recv();
            }
        }
    }
}
