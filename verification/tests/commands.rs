use command_core::command::{echo_message, get_app_version, process_data};
use command_core::logging::{LogLevel, LogSink};
use command_core::value::{JsonValue, Member};

#[test]
fn echo_hello() {
    let mut sink = LogSink::new();
    let r = echo_message("hello".to_string(), &mut sink);
    assert_eq!(r, Ok("Echo: hello".to_string()));
}

#[test]
fn echo_empty_message() {
    let mut sink = LogSink::new();
    let r = echo_message(String::new(), &mut sink);
    assert_eq!(r, Ok("Echo: ".to_string()));
    assert_eq!(sink.count(), 2);
}

#[test]
fn echo_logs_two_info_events_in_order() {
    let mut sink = LogSink::new();
    let r = echo_message("hi".to_string(), &mut sink);
    assert!(r.is_ok());
    assert_eq!(sink.count(), 2);
    assert!(sink.level_at(0) == LogLevel::Info);
    assert!(sink.level_at(1) == LogLevel::Info);
    assert_eq!(sink.message_at(0), "Received message: hi");
    assert_eq!(sink.message_at(1), "Message echoed successfully");
}

#[test]
fn version_is_fixed_and_repeatable() {
    let first = get_app_version();
    let second = get_app_version();
    assert_eq!(first, Ok("0.1.0".to_string()));
    assert_eq!(first, second);
}

#[test]
fn process_without_options_uses_default_marker() {
    let mut sink = LogSink::new();
    let r = process_data("foo".to_string(), None, &mut sink);
    let out = r.expect("processing never fails");
    assert_eq!(out, "Processed 'foo' with default options");
    assert!(out.contains("foo"));
    assert!(out.contains("default options"));
}

#[test]
fn process_with_options_renders_them() {
    let mut sink = LogSink::new();
    let options = JsonValue::Obj(vec![Member { key: "x".to_string(), value: JsonValue::Int(1) }]);
    let r = process_data("foo".to_string(), Some(options), &mut sink);
    let out = r.expect("processing never fails");
    assert_eq!(out, "Processed 'foo' with options: {\"x\":1}");
    assert!(out.contains("foo"));
    assert!(out.contains("{\"x\":1}"));
}

#[test]
fn process_with_empty_options_is_not_default() {
    let mut sink = LogSink::new();
    let r = process_data("foo".to_string(), Some(JsonValue::Obj(Vec::new())), &mut sink);
    assert_eq!(r, Ok("Processed 'foo' with options: {}".to_string()));
}

#[test]
fn process_logs_two_info_events_in_order() {
    let mut sink = LogSink::new();
    let r = process_data("d".to_string(), None, &mut sink);
    assert!(r.is_ok());
    assert_eq!(sink.count(), 2);
    assert!(sink.level_at(0) == LogLevel::Info);
    assert!(sink.level_at(1) == LogLevel::Info);
    assert_eq!(sink.message_at(0), "Processing data...");
    assert_eq!(sink.message_at(1), "Processing complete");
}

#[test]
fn version_logs_nothing() {
    let sink = LogSink::new();
    let r = get_app_version();
    assert!(r.is_ok());
    assert_eq!(sink.count(), 0);
}
