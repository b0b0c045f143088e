//! How the server turns the records of its log into log lines and events.

use vstd::prelude::*;
use vstd::string::StringExecFns;
use crate::event::{Event, EventSeverity, EventType, EventTypeView, EventView, LogEvent, LogEventView};
use crate::text::chars_of;

verus! {

/// The level of a record, as the logging facade has it.
#[derive(Clone, Copy, Debug, PartialEq, Eq, Structural)]
pub enum RecordLevel {
    Error,
    Warn,
    Info,
    Debug,
    Trace,
}

/// Where the log lines go besides the event stream.
#[derive(Clone, Copy, Debug, PartialEq, Eq, Structural)]
pub enum LogSink {
    /// The session log file, emptied at startup.
    SessionLog,
    /// Nowhere. A sink is needed all the same, so that every record is
    /// processed and reaches the event stream.
    Null,
    /// The standard output.
    Stdout,
}

/// The severity that a level stands for. Traces count as debug output.
pub open spec fn severity_of(level: RecordLevel) -> EventSeverity {
    match level {
        RecordLevel::Error => EventSeverity::Error,
        RecordLevel::Warn => EventSeverity::Warning,
        RecordLevel::Info => EventSeverity::Info,
        RecordLevel::Debug => EventSeverity::Debug,
        RecordLevel::Trace => EventSeverity::Debug,
    }
}

/// The word for a level in a log line.
pub open spec fn level_word(level: RecordLevel) -> Seq<char> {
    match level {
        RecordLevel::Error => "ERROR"@,
        RecordLevel::Warn => "WARN"@,
        RecordLevel::Info => "INFO"@,
        RecordLevel::Debug => "DEBUG"@,
        RecordLevel::Trace => "TRACE"@,
    }
}

/// Whether a message is an event written out, rather than plain text: such
/// a message starts with an opening brace.
pub open spec fn carries_event(message: Seq<char>) -> bool {
    message.len() > 0 && message[0] == '{'
}

/// The message as it stands in a log line: an event is set between two
/// hash signs.
pub open spec fn shown_message(message: Seq<char>) -> Seq<char> {
    if carries_event(message) {
        "#"@ + message + "#"@
    } else {
        message
    }
}

/// The log line for a record: the time, the level in brackets, the
/// message.
pub open spec fn log_line_text(timestamp: Seq<char>, level: RecordLevel, message: Seq<char>) -> Seq<
    char,
> {
    timestamp + " ["@ + level_word(level) + "] "@ + shown_message(message)
}

/// The payload of the event for a record: the event that the message
/// carries, or else the message as a log line of the record's severity.
pub open spec fn record_payload(level: RecordLevel, message: Seq<char>, carried: EventTypeView) -> EventTypeView {
    if carries_event(message) {
        carried
    } else {
        EventTypeView::Log(LogEventView { severity: severity_of(level), content: message })
    }
}

impl RecordLevel {
    /// The severity that this level stands for.
    pub fn severity(self) -> (severity: EventSeverity)
        ensures
            severity == severity_of(self),
    {
        match self {
            RecordLevel::Error => EventSeverity::Error,
            RecordLevel::Warn => EventSeverity::Warning,
            RecordLevel::Info => EventSeverity::Info,
            RecordLevel::Debug => EventSeverity::Debug,
            RecordLevel::Trace => EventSeverity::Debug,
        }
    }

    /// The word for this level in a log line.
    pub fn word(self) -> (word: &'static str)
        ensures
            word@ == level_word(self),
    {
        match self {
            RecordLevel::Error => "ERROR",
            RecordLevel::Warn => "WARN",
            RecordLevel::Info => "INFO",
            RecordLevel::Debug => "DEBUG",
            RecordLevel::Trace => "TRACE",
        }
    }
}

/// Whether `message` is an event written out.
pub fn is_event_text(message: &str) -> (carries: bool)
    ensures
        carries == carries_event(message@),
{
    let chars = chars_of(message);
    chars.len() > 0 && chars[0] == '{'
}

/// The log line for a record.
pub fn log_line(timestamp: &str, level: RecordLevel, message: &str) -> (line: String)
    ensures
        line@ == log_line_text(timestamp@, level, message@),
{
    let mut line = timestamp.to_string();
    line.append(" [");
    line.append(level.word());
    line.append("] ");
    if is_event_text(message) {
        line.append("#");
        line.append(message);
        line.append("#");
        assert(line@ =~= log_line_text(timestamp@, level, message@));
    } else {
        line.append(message);
    }
    line
}

/// The event for a record. `carried` is the event that the message spells,
/// where it spells one; a message that starts like an event must spell
/// one.
pub fn record_event(timestamp: String, level: RecordLevel, message: String, carried: Option<EventType>) -> (event:
    Event)
    requires
        carries_event(message@) ==> carried is Some,
    ensures
        event@ == (EventView {
            timestamp: timestamp@,
            event_type: record_payload(level, message@, carried->0@),
        }),
{
    let event_type = if is_event_text(message.as_str()) {
        carried.unwrap()
    } else {
        EventType::Log(LogEvent { severity: level.severity(), content: message })
    };
    Event { timestamp, event_type }
}

/// The most verbose level that is logged: debug output only in a debug
/// build.
pub fn max_level(debug_build: bool) -> (level: RecordLevel)
    ensures
        level == if debug_build {
            RecordLevel::Debug
        } else {
            RecordLevel::Info
        },
{
    if debug_build {
        RecordLevel::Debug
    } else {
        RecordLevel::Info
    }
}

/// Where the log lines go: to the session log if the settings ask for
/// that; otherwise nowhere on Linux, and to the standard output elsewhere.
pub fn log_sink(log_to_disk: bool, on_linux: bool) -> (sink: LogSink)
    ensures
        sink == if log_to_disk {
            LogSink::SessionLog
        } else if on_linux {
            LogSink::Null
        } else {
            LogSink::Stdout
        },
{
    if log_to_disk {
        LogSink::SessionLog
    } else if on_linux {
        LogSink::Null
    } else {
        LogSink::Stdout
    }
}

} // verus!
