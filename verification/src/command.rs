//! The command handlers invocable from the UI surface.
//!
//! Each handler answers every request with exactly one response. A handler
//! that logs takes the log sink as an explicit capability and its contract
//! states the exact events one invocation appends; concurrent invocations
//! may interleave their events in a shared sink, which is the caller's
//! affair.

use vstd::prelude::*;
use vstd::string::StringExecFns;

use crate::app_version_spec;
use crate::logging::LogLevel;
use crate::logging::LogSink;
use crate::value::JsonValue;
use crate::value::render_spec;

verus! {

/// The response of the echo command: the message behind a fixed tag.
pub open spec fn echo_response_spec(m: Seq<char>) -> Seq<char> {
    "Echo: "@ + m
}

/// The receipt event the echo command logs before answering.
pub open spec fn echo_receipt_log_spec(m: Seq<char>) -> Seq<char> {
    "Received message: "@ + m
}

/// The completion event the echo command logs after formatting.
pub open spec fn echo_done_log_spec() -> Seq<char> {
    "Message echoed successfully"@
}

/// Echo the message back behind a fixed tag.
///
/// Never fails: every string, the empty one included, is accepted. Logs
/// exactly two events, receipt then completion, both at `Info`.
pub fn echo_message(message: String, log: &mut LogSink) -> (response: Result<String, String>)
    ensures
        response matches Ok(s) && s@ == echo_response_spec(message@),
        final(log)@ == old(log)@ + seq![
            (LogLevel::Info, echo_receipt_log_spec(message@)),
            (LogLevel::Info, echo_done_log_spec()),
        ],
{
    let mut receipt = String::from_str("Received message: ");
    receipt.append(message.as_str());
    log.log(LogLevel::Info, receipt.as_str());

    let mut result = String::from_str("Echo: ");
    result.append(message.as_str());
    log.log(LogLevel::Info, "Message echoed successfully");

    proof {
        assert(log@ =~= old(log)@ + seq![
            (LogLevel::Info, echo_receipt_log_spec(message@)),
            (LogLevel::Info, echo_done_log_spec()),
        ]);
    }
    Ok(result)
}

/// Report the version identifier of this build.
///
/// Always succeeds with the same value within one build; logs nothing.
pub fn get_app_version() -> (response: Result<String, String>)
    ensures
        response matches Ok(s) && s@ == app_version_spec(),
{
    Ok(String::from_str("0.1.0"))
}

/// Two version responses from one build are the same value.
pub proof fn lemma_version_constant(first: Seq<char>, second: Seq<char>)
    requires
        first == app_version_spec(),
        second == app_version_spec(),
    ensures
        first == second,
{
}

/// The response of the data-processing command: the data quoted, then the
/// rendering of the options, or a fixed marker when none were given.
pub open spec fn process_response_spec(d: Seq<char>, options: Option<JsonValue>) -> Seq<char> {
    match options {
        Some(v) => "Processed '"@ + d + "' with options: "@ + render_spec(v),
        None => "Processed '"@ + d + "' with default options"@,
    }
}

/// The echo response embeds the whole message: it is exactly the fixed tag,
/// then the message, for the empty message too.
pub proof fn lemma_echo_embeds_message(m: Seq<char>)
    ensures
        echo_response_spec(m).len() == 6 + m.len(),
        echo_response_spec(m).subrange(6, 6 + m.len() as int) == m,
{
    reveal_strlit("Echo: ");
    assert(echo_response_spec(m).subrange(6, 6 + m.len() as int) =~= m);
}

/// The data-processing response embeds the whole data string, and after it
/// either the rendering of the given options or the default-options marker.
pub proof fn lemma_process_embeds_data(d: Seq<char>, options: Option<JsonValue>)
    ensures
        process_response_spec(d, options).subrange(11, 11 + d.len() as int) == d,
        options matches Some(v) ==> process_response_spec(d, options).subrange(
            27 + d.len() as int,
            27 + d.len() as int + render_spec(v).len() as int,
        ) == render_spec(v),
        options is None ==> process_response_spec(d, options).subrange(
            11 + d.len() as int,
            process_response_spec(d, options).len() as int,
        ) == "' with default options"@,
{
    reveal_strlit("Processed '");
    reveal_strlit("' with options: ");
    reveal_strlit("' with default options");
    assert(process_response_spec(d, options).subrange(11, 11 + d.len() as int) =~= d);
    match options {
        Some(v) => {
            assert(process_response_spec(d, options).subrange(
                27 + d.len() as int,
                27 + d.len() as int + render_spec(v).len() as int,
            ) =~= render_spec(v));
        },
        None => {
            assert(process_response_spec(d, options).subrange(
                11 + d.len() as int,
                process_response_spec(d, options).len() as int,
            ) =~= "' with default options"@);
        },
    }
}

/// Whether options were given is visible in the response: for the same data,
/// a response with options never equals the response without, whatever the
/// options hold — present-but-empty options do not collapse into absence.
pub proof fn lemma_options_presence_distinct(d: Seq<char>, v: JsonValue)
    ensures
        process_response_spec(d, Some(v)) != process_response_spec(d, None),
{
    reveal_strlit("Processed '");
    reveal_strlit("' with options: ");
    reveal_strlit("' with default options");
    let with_options = process_response_spec(d, Some(v));
    let without_options = process_response_spec(d, None);
    assert(with_options[18 + d.len() as int] == 'o');
    assert(without_options[18 + d.len() as int] == 'd');
}

/// The start event the data-processing command logs.
pub open spec fn process_start_log_spec() -> Seq<char> {
    "Processing data..."@
}

/// The completion event the data-processing command logs.
pub open spec fn process_done_log_spec() -> Seq<char> {
    "Processing complete"@
}

/// Process the data under the given options.
///
/// Never fails. Absent options and present-but-empty options are distinct:
/// only genuine absence takes the default-options wording. Logs exactly two
/// events, start then completion, both at `Info`.
pub fn process_data(data: String, options: Option<JsonValue>, log: &mut LogSink) -> (response:
    Result<String, String>)
    ensures
        response matches Ok(s) && s@ == process_response_spec(data@, options),
        final(log)@ == old(log)@ + seq![
            (LogLevel::Info, process_start_log_spec()),
            (LogLevel::Info, process_done_log_spec()),
        ],
{
    log.log(LogLevel::Info, "Processing data...");

    let mut result = String::from_str("Processed '");
    result.append(data.as_str());
    let result = match options {
        Some(opts) => {
            let mut r = result.concat("' with options: ");
            let rendered = opts.render();
            r.append(rendered.as_str());
            r
        },
        None => result.concat("' with default options"),
    };

    log.log(LogLevel::Info, "Processing complete");
    proof {
        assert(log@ =~= old(log)@ + seq![
            (LogLevel::Info, process_start_log_spec()),
            (LogLevel::Info, process_done_log_spec()),
        ]);
    }
    Ok(result)
}

} // verus!
