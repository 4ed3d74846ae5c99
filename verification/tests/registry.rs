use command_core::logging::LogSink;
use command_core::registry::{dispatch, lookup_command, CommandName, Payload, Request};
use command_core::value::JsonValue;

#[test]
fn lookup_resolves_each_registered_name() {
    assert!(lookup_command("echo_message") == Some(CommandName::EchoMessage));
    assert!(lookup_command("get_app_version") == Some(CommandName::GetAppVersion));
    assert!(lookup_command("process_data") == Some(CommandName::ProcessData));
}

#[test]
fn lookup_rejects_unknown_names() {
    assert!(lookup_command("").is_none());
    assert!(lookup_command("echo").is_none());
    assert!(lookup_command("echo_message ").is_none());
    assert!(lookup_command("ECHO_MESSAGE").is_none());
}

#[test]
fn dispatch_echo_runs_its_handler() {
    let mut sink = LogSink::new();
    let request = Request {
        name: "echo_message".to_string(),
        payload: Payload::Message("hi".to_string()),
    };
    assert_eq!(dispatch(request, &mut sink), Ok("Echo: hi".to_string()));
    assert_eq!(sink.count(), 2);
}

#[test]
fn dispatch_version_runs_its_handler_without_logging() {
    let mut sink = LogSink::new();
    let request = Request { name: "get_app_version".to_string(), payload: Payload::Empty };
    assert_eq!(dispatch(request, &mut sink), Ok("0.1.0".to_string()));
    assert_eq!(sink.count(), 0);
}

#[test]
fn dispatch_process_runs_its_handler() {
    let mut sink = LogSink::new();
    let request = Request {
        name: "process_data".to_string(),
        payload: Payload::Data("foo".to_string(), Some(JsonValue::Int(9))),
    };
    assert_eq!(dispatch(request, &mut sink), Ok("Processed 'foo' with options: 9".to_string()));
    assert_eq!(sink.count(), 2);
}

#[test]
fn dispatch_rejects_unknown_name_without_logging() {
    let mut sink = LogSink::new();
    let request = Request { name: "restart".to_string(), payload: Payload::Empty };
    assert_eq!(dispatch(request, &mut sink), Err("command not found".to_string()));
    assert_eq!(sink.count(), 0);
}

#[test]
fn dispatch_rejects_mismatched_payload_without_logging() {
    let mut sink = LogSink::new();
    let request = Request { name: "echo_message".to_string(), payload: Payload::Empty };
    assert_eq!(dispatch(request, &mut sink), Err("invalid payload".to_string()));
    assert_eq!(sink.count(), 0);
}
