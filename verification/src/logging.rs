//! A recording log sink: the injected logging capability handed to handlers.
//!
//! Handlers only ever append events; the sink records them in order, so a
//! handler's contract can state exactly which events one invocation emits.

use vstd::prelude::*;

verus! {

/// Severity of a log event.
#[derive(Clone, Copy, Debug, PartialEq, Eq, Structural)]
pub enum LogLevel {
    Info,
    Warn,
    Error,
    Debug,
}

/// One emitted log event: a severity and a message.
#[derive(Clone, Debug)]
pub struct LogEvent {
    pub level: LogLevel,
    pub message: String,
}

/// The sink handlers append log events to.
///
/// Abstractly, a sink is the sequence of events appended so far, each a pair
/// of severity and message text.
pub struct LogSink {
    events: Vec<LogEvent>,
}

impl View for LogSink {
    type V = Seq<(LogLevel, Seq<char>)>;

    closed spec fn view(&self) -> Seq<(LogLevel, Seq<char>)> {
        self.events@.map_values(|e: LogEvent| (e.level, e.message@))
    }
}

impl LogSink {
    /// A fresh sink with no events.
    pub fn new() -> (sink: LogSink)
        ensures
            sink@ =~= Seq::<(LogLevel, Seq<char>)>::empty(),
    {
        LogSink { events: Vec::new() }
    }

    /// Append one event; nothing already recorded changes.
    pub fn log(&mut self, level: LogLevel, message: &str)
        ensures
            final(self)@ =~= old(self)@.push((level, message@)),
    {
        let event = LogEvent { level, message: message.to_owned() };
        self.events.push(event);
    }

    /// How many events have been recorded.
    pub fn count(&self) -> (n: usize)
        ensures
            n == self@.len(),
    {
        self.events.len()
    }

    /// The severity of the `i`th recorded event.
    pub fn level_at(&self, i: usize) -> (level: LogLevel)
        requires
            i < self@.len(),
        ensures
            level == self@[i as int].0,
    {
        self.events[i].level
    }

    /// The message of the `i`th recorded event.
    pub fn message_at(&self, i: usize) -> (message: &str)
        requires
            i < self@.len(),
        ensures
            message@ == self@[i as int].1,
    {
        self.events[i].message.as_str()
    }
}

} // verus!
