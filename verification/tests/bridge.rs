use noxide::bridge::{acknowledge, BridgeError, ErrorClass, HandoffMode, LogBridge};
use noxide::level::Level;
use noxide::policy::FilterPolicy;
use noxide::record::{LogEntry, LogRecord};

fn record(level: Level, target: &str, message: &str) -> LogRecord {
    LogRecord::new(level, target.to_string(), message.to_string(), None, None)
}

fn bridge_for(namespace: &str) -> LogBridge<u32> {
    LogBridge::new(FilterPolicy::new(namespace.to_string()))
}

fn ready_bridge(namespace: &str, consumer: u32) -> LogBridge<u32> {
    let mut bridge = bridge_for(namespace);
    assert_eq!(bridge.install(), Ok(()));
    assert_eq!(bridge.register(Some(consumer)), Ok(()));
    bridge
}

/// Performs the hand-off that `emit` decides on: appends what the consumer
/// sees to `seen`.
fn emit_into(
    bridge: &LogBridge<u32>,
    record: &LogRecord,
    seen: &mut Vec<(u32, String, String, String)>,
) {
    if let Some(delivery) = bridge.emit(record) {
        assert_eq!(delivery.mode, HandoffMode::Blocking);
        seen.push((
            *delivery.consumer,
            delivery.entry.level.clone(),
            delivery.entry.target.clone(),
            delivery.entry.message.clone(),
        ));
    }
}

#[test]
fn warn_is_delivered_and_debug_is_filtered() {
    let bridge = ready_bridge("noxide", 1);
    let mut seen = Vec::new();
    emit_into(&bridge, &record(Level::Warn, "net.proxy", "fallback engaged"), &mut seen);
    assert_eq!(
        seen,
        vec![(1, "WARN".to_string(), "net.proxy".to_string(), "fallback engaged".to_string())]
    );
    emit_into(&bridge, &record(Level::Debug, "net.proxy", "cache hit"), &mut seen);
    assert_eq!(seen.len(), 1);
    assert_eq!(
        seen,
        vec![(1, "WARN".to_string(), "net.proxy".to_string(), "fallback engaged".to_string())]
    );
}

#[test]
fn own_namespace_trace_is_delivered() {
    let bridge = ready_bridge("bridge", 7);
    let delivery = bridge.emit(&record(Level::Trace, "bridge.internal", "slot swapped"));
    let delivery = delivery.expect("own records are always forwarded");
    assert_eq!(*delivery.consumer, 7);
    assert_eq!(delivery.entry.level, "TRACE");
    assert_eq!(delivery.entry.target, "bridge.internal");
    assert_eq!(delivery.entry.message, "slot swapped");
    assert_eq!(delivery.mode, HandoffMode::Blocking);
}

#[test]
fn own_namespace_is_delivered_at_every_level() {
    let bridge = ready_bridge("noxide", 1);
    let levels = [Level::Error, Level::Warn, Level::Info, Level::Debug, Level::Trace];
    for level in levels {
        assert!(bridge.enabled("noxide::jslog", level));
        assert!(bridge.emit(&record(level, "noxide::jslog", "x")).is_some());
    }
}

#[test]
fn namespace_is_matched_as_a_prefix_of_the_target() {
    let bridge = ready_bridge("noxide", 1);
    assert!(bridge.enabled("noxide", Level::Trace));
    assert!(bridge.enabled("noxide_extra", Level::Trace));
    assert!(!bridge.enabled("noxid", Level::Trace));
    assert!(!bridge.enabled("my::noxide", Level::Trace));
    assert!(!bridge.enabled("", Level::Trace));
    assert!(!bridge.enabled("Noxide", Level::Debug));
}

#[test]
fn empty_namespace_owns_every_target() {
    let bridge = ready_bridge("", 1);
    assert!(bridge.enabled("anything", Level::Trace));
    assert!(bridge.enabled("", Level::Debug));
}

#[test]
fn foreign_debug_and_trace_are_dropped() {
    let bridge = ready_bridge("noxide", 1);
    assert!(!bridge.enabled("net.proxy", Level::Debug));
    assert!(!bridge.enabled("net.proxy", Level::Trace));
    assert!(bridge.emit(&record(Level::Debug, "net.proxy", "cache hit")).is_none());
    assert!(bridge.emit(&record(Level::Trace, "hyper::client", "poll")).is_none());
}

#[test]
fn info_and_above_are_delivered_for_any_target() {
    let bridge = ready_bridge("noxide", 3);
    for (level, name) in [(Level::Info, "INFO"), (Level::Warn, "WARN"), (Level::Error, "ERROR")] {
        for target in ["net.proxy", "", "noxide", "tokio::runtime"] {
            let delivery = bridge.emit(&record(level, target, "m")).expect("forwarded");
            assert_eq!(*delivery.consumer, 3);
            assert_eq!(delivery.entry.level, name);
            assert_eq!(delivery.entry.target, target);
        }
    }
}

#[test]
fn without_consumer_every_record_is_dropped() {
    let mut bridge = bridge_for("noxide");
    assert!(bridge.emit(&record(Level::Error, "net.proxy", "boom")).is_none());
    assert!(bridge.emit(&record(Level::Trace, "noxide", "own")).is_none());
    assert_eq!(bridge.install(), Ok(()));
    assert!(bridge.emit(&record(Level::Error, "net.proxy", "boom")).is_none());
    assert!(bridge.emit(&record(Level::Trace, "noxide", "own")).is_none());
    assert!(bridge.is_installed());
    assert!(!bridge.has_consumer());
    assert_eq!(bridge.namespace(), "noxide");
}

#[test]
fn records_arrive_in_the_order_issued() {
    let bridge = ready_bridge("noxide", 1);
    let mut seen = Vec::new();
    emit_into(&bridge, &record(Level::Info, "app", "A"), &mut seen);
    emit_into(&bridge, &record(Level::Info, "app", "B"), &mut seen);
    let messages: Vec<&str> = seen.iter().map(|s| s.3.as_str()).collect();
    assert_eq!(messages, vec!["A", "B"]);
}

#[test]
fn filtered_records_do_not_disturb_the_order() {
    let bridge = ready_bridge("noxide", 1);
    let mut seen = Vec::new();
    let run = [
        record(Level::Trace, "noxide::a", "1"),
        record(Level::Debug, "other", "2"),
        record(Level::Error, "other", "3"),
        record(Level::Trace, "other", "4"),
        record(Level::Info, "other", "5"),
        record(Level::Debug, "noxide", "6"),
    ];
    for r in run.iter() {
        emit_into(&bridge, r, &mut seen);
    }
    let messages: Vec<&str> = seen.iter().map(|s| s.3.as_str()).collect();
    assert_eq!(messages, vec!["1", "3", "5", "6"]);
    let levels: Vec<&str> = seen.iter().map(|s| s.1.as_str()).collect();
    assert_eq!(levels, vec!["TRACE", "ERROR", "INFO", "DEBUG"]);
}

#[test]
fn second_install_is_reported_and_harmless() {
    let mut bridge = bridge_for("noxide");
    assert!(!bridge.is_installed());
    assert_eq!(bridge.max_level(), None);
    assert_eq!(bridge.install(), Ok(()));
    assert!(bridge.is_installed());
    assert_eq!(bridge.max_level(), Some(Level::Trace));
    assert_eq!(bridge.register(Some(5)), Ok(()));
    assert_eq!(bridge.install(), Err(BridgeError::AlreadyInitialized));
    assert!(bridge.is_installed());
    assert!(bridge.has_consumer());
    assert_eq!(bridge.max_level(), Some(Level::Trace));
    let delivery = bridge.emit(&record(Level::Info, "app", "still here")).expect("forwarded");
    assert_eq!(*delivery.consumer, 5);
    assert_eq!(bridge.install(), Err(BridgeError::AlreadyInitialized));
}

#[test]
fn later_registration_replaces_the_consumer() {
    let mut bridge = ready_bridge("noxide", 1);
    let mut seen = Vec::new();
    emit_into(&bridge, &record(Level::Info, "app", "to the first"), &mut seen);
    assert_eq!(bridge.register(Some(2)), Ok(()));
    emit_into(&bridge, &record(Level::Info, "app", "to the second"), &mut seen);
    emit_into(&bridge, &record(Level::Error, "app", "again"), &mut seen);
    let consumers: Vec<u32> = seen.iter().map(|s| s.0).collect();
    assert_eq!(consumers, vec![1, 2, 2]);
}

#[test]
fn register_before_install_is_refused() {
    let mut bridge = bridge_for("noxide");
    assert_eq!(bridge.register(Some(1)), Err(BridgeError::NotInitialized));
    assert!(!bridge.has_consumer());
    assert!(!bridge.is_installed());
    assert_eq!(bridge.register(None), Err(BridgeError::NotInitialized));
    assert!(bridge.emit(&record(Level::Error, "app", "lost")).is_none());
}

#[test]
fn register_without_handle_is_refused_and_keeps_the_consumer() {
    let mut bridge = ready_bridge("noxide", 4);
    assert_eq!(bridge.register(None), Err(BridgeError::InvalidCallback));
    assert!(bridge.has_consumer());
    let delivery = bridge.emit(&record(Level::Warn, "app", "kept")).expect("forwarded");
    assert_eq!(*delivery.consumer, 4);
}

#[test]
fn refused_handoff_is_a_consumer_failure() {
    assert_eq!(acknowledge(true), Ok(()));
    assert_eq!(acknowledge(false), Err(BridgeError::ConsumerFailure));
}

#[test]
fn error_classes() {
    assert_eq!(BridgeError::AlreadyInitialized.class(), ErrorClass::Benign);
    assert_eq!(BridgeError::NotInitialized.class(), ErrorClass::CallerError);
    assert_eq!(BridgeError::InvalidCallback.class(), ErrorClass::CallerError);
    assert_eq!(BridgeError::ConsumerFailure.class(), ErrorClass::Fatal);
}

#[test]
fn error_messages() {
    assert_eq!(BridgeError::AlreadyInitialized.message(), "the log bridge is already installed");
    assert_eq!(BridgeError::NotInitialized.message(), "the log bridge is not installed");
    assert_eq!(BridgeError::InvalidCallback.message(), "the consumer handle is not usable");
    assert_eq!(BridgeError::ConsumerFailure.message(), "the consumer failed on a record");
}

#[test]
fn entry_carries_the_source_location() {
    let bridge = ready_bridge("noxide", 1);
    let located = LogRecord::new(
        Level::Error,
        "net.certs".to_string(),
        "store unreadable".to_string(),
        Some("src/netconfig.rs".to_string()),
        Some(42),
    );
    assert_eq!(located.level(), Level::Error);
    assert_eq!(located.target(), "net.certs");
    assert_eq!(located.message(), "store unreadable");
    assert_eq!(located.file(), Some("src/netconfig.rs"));
    assert_eq!(located.line(), Some(42));
    assert_eq!(located.source_location(), Some(("src/netconfig.rs", 42)));
    let delivery = bridge.emit(&located).expect("forwarded");
    assert_eq!(delivery.entry.level, "ERROR");
    assert_eq!(delivery.entry.file.as_deref(), Some("src/netconfig.rs"));
    assert_eq!(delivery.entry.line, Some(42));

    let bare = record(Level::Info, "app", "m");
    assert_eq!(bare.file(), None);
    assert_eq!(bare.line(), None);
    assert_eq!(bare.source_location(), None);
    let file_only = LogRecord::new(
        Level::Info,
        "app".to_string(),
        "m".to_string(),
        Some("main.rs".to_string()),
        None,
    );
    assert_eq!(file_only.source_location(), None);
    assert_eq!(file_only.to_entry().file.as_deref(), Some("main.rs"));
    assert_eq!(file_only.to_entry().line, None);
    let entry = bare.to_entry();
    assert_eq!(entry.level, "INFO");
    assert_eq!(entry.file, None);
    assert_eq!(entry.line, None);
}

#[test]
fn default_entry_is_an_empty_error() {
    let entry = LogEntry::default();
    assert_eq!(entry.level, "ERROR");
    assert_eq!(entry.target, "");
    assert_eq!(entry.message, "");
    assert_eq!(entry.file, None);
    assert_eq!(entry.line, None);
}

#[test]
fn default_policy_owns_the_crate_namespace() {
    let policy = FilterPolicy::default();
    assert_eq!(policy.namespace(), "noxide");
    assert_eq!(noxide::policy::OWN_NAMESPACE, "noxide");
    assert!(policy.enabled("noxide::jslog", Level::Trace));
    assert!(!policy.enabled("bridge.internal", Level::Trace));
}

#[test]
fn policy_alone_decides() {
    let policy = FilterPolicy::new("bridge".to_string());
    assert_eq!(policy.namespace(), "bridge");
    assert!(policy.enabled("bridge.internal", Level::Trace));
    assert!(policy.enabled("elsewhere", Level::Info));
    assert!(!policy.enabled("elsewhere", Level::Debug));
}
