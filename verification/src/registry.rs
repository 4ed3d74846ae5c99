//! The command registry: a fixed mapping from command names to handlers.
//!
//! The set of names is closed and known at build time. Resolving a name and
//! routing a request to its handler models what the host framework does at
//! its boundary: a name outside the set, or a payload of the wrong shape for
//! its command, is rejected there and reaches no handler, so no log event is
//! emitted for it.

use vstd::prelude::*;
use vstd::string::StringExecFns;

use crate::command::echo_message;
use crate::command::echo_done_log_spec;
use crate::command::echo_receipt_log_spec;
use crate::command::echo_response_spec;
use crate::command::get_app_version;
use crate::command::process_data;
use crate::command::process_done_log_spec;
use crate::command::process_response_spec;
use crate::command::process_start_log_spec;
use crate::app_version_spec;
use crate::logging::LogLevel;
use crate::logging::LogSink;
use crate::value::JsonValue;

verus! {

/// A registered command name.
#[derive(Clone, Copy, Debug, PartialEq, Eq, Structural)]
pub enum CommandName {
    EchoMessage,
    GetAppVersion,
    ProcessData,
}

/// The typed payload of a request, as the host hands it to a handler.
pub enum Payload {
    /// No arguments (the version command).
    Empty,
    /// A single message string (the echo command).
    Message(String),
    /// The data string and the optional options (the data-processing command).
    Data(String, Option<JsonValue>),
}

/// One invocation from the UI surface: a command name and its payload.
pub struct Request {
    pub name: String,
    pub payload: Payload,
}

/// The registry as a mapping: which handler, if any, a name resolves to.
pub open spec fn registered_command_spec(name: Seq<char>) -> Option<CommandName> {
    if name == "echo_message"@ {
        Some(CommandName::EchoMessage)
    } else if name == "get_app_version"@ {
        Some(CommandName::GetAppVersion)
    } else if name == "process_data"@ {
        Some(CommandName::ProcessData)
    } else {
        None
    }
}

/// Whether a payload has the shape the named command expects.
pub open spec fn payload_fits_spec(command: CommandName, payload: Payload) -> bool {
    match command {
        CommandName::EchoMessage => payload is Message,
        CommandName::GetAppVersion => payload is Empty,
        CommandName::ProcessData => payload is Data,
    }
}

/// The response a request is answered with: the handler's response where the
/// name resolves and the payload fits, the boundary rejection otherwise.
pub open spec fn dispatch_spec(name: Seq<char>, payload: Payload) -> Result<Seq<char>, Seq<char>> {
    match registered_command_spec(name) {
        None => Err("command not found"@),
        Some(command) => if !payload_fits_spec(command, payload) {
            Err("invalid payload"@)
        } else {
            match payload {
                Payload::Empty => Ok(app_version_spec()),
                Payload::Message(m) => Ok(echo_response_spec(m@)),
                Payload::Data(d, options) => Ok(process_response_spec(d@, options)),
            }
        },
    }
}

/// The log events answering a request appends: the handler's events where it
/// runs, none where the request is rejected at the boundary.
pub open spec fn dispatch_logs_spec(name: Seq<char>, payload: Payload) -> Seq<
    (LogLevel, Seq<char>),
> {
    match registered_command_spec(name) {
        None => Seq::empty(),
        Some(command) => if !payload_fits_spec(command, payload) {
            Seq::empty()
        } else {
            match payload {
                Payload::Empty => Seq::empty(),
                Payload::Message(m) => seq![
                    (LogLevel::Info, echo_receipt_log_spec(m@)),
                    (LogLevel::Info, echo_done_log_spec()),
                ],
                Payload::Data(_, _) => seq![
                    (LogLevel::Info, process_start_log_spec()),
                    (LogLevel::Info, process_done_log_spec()),
                ],
            }
        },
    }
}

/// The view of a response: both sides as their character sequences.
pub open spec fn response_view(response: Result<String, String>) -> Result<Seq<char>, Seq<char>> {
    match response {
        Ok(s) => Ok(s@),
        Err(e) => Err(e@),
    }
}

/// Resolve a command name against the registry.
pub fn lookup_command(name: &str) -> (command: Option<CommandName>)
    ensures
        command == registered_command_spec(name@),
{
    let name = name.to_owned();
    if name == String::from_str("echo_message") {
        Some(CommandName::EchoMessage)
    } else if name == String::from_str("get_app_version") {
        Some(CommandName::GetAppVersion)
    } else if name == String::from_str("process_data") {
        Some(CommandName::ProcessData)
    } else {
        None
    }
}

/// Answer one request: resolve the name, check the payload shape, run the
/// handler. Every request gets exactly one response, and only a request
/// that reaches a handler appends log events.
pub fn dispatch(request: Request, log: &mut LogSink) -> (response: Result<String, String>)
    ensures
        response_view(response) == dispatch_spec(request.name@, request.payload),
        final(log)@ == old(log)@ + dispatch_logs_spec(request.name@, request.payload),
{
    let command = match lookup_command(request.name.as_str()) {
        None => {
            proof {
                assert(log@ =~= old(log)@ + dispatch_logs_spec(request.name@, request.payload));
            }
            return Err(String::from_str("command not found"));
        },
        Some(command) => command,
    };
    match (command, request.payload) {
        (CommandName::EchoMessage, Payload::Message(message)) => {
            let response = echo_message(message, log);
            proof {
                assert(log@ =~= old(log)@ + dispatch_logs_spec(request.name@, request.payload));
            }
            response
        },
        (CommandName::GetAppVersion, Payload::Empty) => {
            let response = get_app_version();
            proof {
                assert(log@ =~= old(log)@ + dispatch_logs_spec(request.name@, request.payload));
            }
            response
        },
        (CommandName::ProcessData, Payload::Data(data, options)) => {
            let response = process_data(data, options, log);
            proof {
                assert(log@ =~= old(log)@ + dispatch_logs_spec(request.name@, request.payload));
            }
            response
        },
        _ => {
            proof {
                assert(log@ =~= old(log)@ + dispatch_logs_spec(request.name@, request.payload));
            }
            Err(String::from_str("invalid payload"))
        },
    }
}

/// The registry is a function of the name: each invocable name resolves to
/// exactly one handler, each of the three commands is reachable under
/// exactly its own name, and a name outside the fixed set resolves to none.
pub proof fn lemma_registry_complete(name: Seq<char>)
    ensures
        registered_command_spec(name) == Some(CommandName::EchoMessage) <==> name
            == "echo_message"@,
        registered_command_spec(name) == Some(CommandName::GetAppVersion) <==> name
            == "get_app_version"@,
        registered_command_spec(name) == Some(CommandName::ProcessData) <==> name
            == "process_data"@,
        registered_command_spec(name) is None <==> (name != "echo_message"@ && name
            != "get_app_version"@ && name != "process_data"@),
{
    reveal_strlit("echo_message");
    reveal_strlit("get_app_version");
    reveal_strlit("process_data");
    assert("echo_message"@.len() != "get_app_version"@.len());
    assert("echo_message"@[0] != "process_data"@[0]);
    assert("get_app_version"@.len() != "process_data"@.len());
}

/// Answering a request never leaves it unanswered, and a version request
/// appends no log events while echo and data-processing append exactly two,
/// both at `Info`, in their fixed order.
pub proof fn lemma_dispatch_log_budget(name: Seq<char>, payload: Payload)
    ensures
        dispatch_logs_spec(name, payload).len() == 0 || dispatch_logs_spec(name, payload).len()
            == 2,
        registered_command_spec(name) == Some(CommandName::GetAppVersion)
            && payload_fits_spec(CommandName::GetAppVersion, payload) ==> dispatch_logs_spec(
            name,
            payload,
        ).len() == 0,
        forall|i: int| 0 <= i < dispatch_logs_spec(name, payload).len() ==> (#[trigger]
        dispatch_logs_spec(name, payload)[i]).0 == LogLevel::Info,
{
}

} // verus!
