//! The log tab: the most recent log lines and, on demand, every other
//! event.

use std::collections::VecDeque;
use vstd::prelude::*;
use crate::event::{Event, EventSeverity, EventType};

verus! {

/// The colour class of a row. The theme gives each class its colour.
#[derive(Clone, Copy, Debug, PartialEq, Eq, Structural)]
pub enum LogColor {
    Error,
    Warning,
    Info,
    Debug,
    Event,
}

/// One row of the log tab.
#[derive(Debug, PartialEq, Eq)]
pub struct Entry {
    pub color: LogColor,
    pub timestamp: String,
    pub ty: String,
    pub message: String,
}

pub struct EntryView {
    pub color: LogColor,
    pub timestamp: Seq<char>,
    pub ty: Seq<char>,
    pub message: Seq<char>,
}

impl View for Entry {
    type V = EntryView;

    open spec fn view(&self) -> EntryView {
        EntryView {
            color: self.color,
            timestamp: self.timestamp@,
            ty: self.ty@,
            message: self.message@,
        }
    }
}

/// The colour class of a log line.
pub open spec fn severity_color(severity: EventSeverity) -> LogColor {
    match severity {
        EventSeverity::Error => LogColor::Error,
        EventSeverity::Warning => LogColor::Warning,
        EventSeverity::Info => LogColor::Info,
        EventSeverity::Debug => LogColor::Debug,
    }
}

/// The word that names the severity in the second column.
pub open spec fn severity_label(severity: EventSeverity) -> Seq<char> {
    match severity {
        EventSeverity::Error => "ERROR"@,
        EventSeverity::Warning => "WARN"@,
        EventSeverity::Info => "INFO"@,
        EventSeverity::Debug => "DEBUG"@,
    }
}

/// The row that an event is shown as, if it is shown. A log line always is;
/// any other event only while raw events are shown, with `raw_text` as its
/// message.
pub open spec fn row_for(event: Event, raw_text: Seq<char>, show_raw_events: bool) -> Option<
    EntryView,
> {
    match event.event_type {
        EventType::Log(log) => Some(
            EntryView {
                color: severity_color(log.severity),
                timestamp: event.timestamp@,
                ty: severity_label(log.severity),
                message: log.content@,
            },
        ),
        _ => if show_raw_events {
            Some(
                EntryView {
                    color: LogColor::Event,
                    timestamp: event.timestamp@,
                    ty: "EVENT"@,
                    message: raw_text,
                },
            )
        } else {
            None
        },
    }
}

/// The rows after `row` arrived: it is appended, and if that makes more
/// rows than the limit, the oldest row goes.
pub open spec fn rows_after(rows: Seq<EntryView>, row: Option<EntryView>, limit: nat) -> Seq<
    EntryView,
> {
    let grown = match row {
        Some(r) => rows.push(r),
        None => rows,
    };
    if grown.len() > limit {
        grown.drop_first()
    } else {
        grown
    }
}

/// The log never holds more rows than its limit, once it is within it; and
/// while it is below the limit, a row that arrives costs no other row.
pub proof fn law_log_stays_within_limit(rows: Seq<EntryView>, row: Option<EntryView>, limit: nat)
    requires
        rows.len() <= limit,
    ensures
        rows_after(rows, row, limit).len() <= limit,
        rows.len() < limit ==> rows_after(rows, row, limit) == match row {
            Some(r) => rows.push(r),
            None => rows,
        },
        rows.len() == limit && limit > 0 ==> (row matches Some(r) ==> rows_after(rows, row, limit)
            == rows.drop_first().push(r)),
{
    if rows.len() == limit && limit > 0 {
        if let Some(r) = row {
            assert(rows.push(r).drop_first() =~= rows.drop_first().push(r));
        }
    }
}

/// The views of a list of rows, in order.
pub open spec fn entry_views(entries: Seq<Entry>) -> Seq<EntryView> {
    entries.map_values(|e: Entry| e@)
}

pub struct LogsView {
    pub show_raw_events: bool,
    pub entries: Seq<EntryView>,
    pub log_limit: nat,
}

/// The state of the log tab.
pub struct LogsTab {
    show_raw_events: bool,
    entries: VecDeque<Entry>,
    log_limit: usize,
}

impl View for LogsTab {
    type V = LogsView;

    closed spec fn view(&self) -> LogsView {
        LogsView {
            show_raw_events: self.show_raw_events,
            entries: entry_views(self.entries@),
            log_limit: self.log_limit as nat,
        }
    }
}

impl LogsTab {
    /// An empty tab that shows raw events and keeps 1000 rows.
    pub fn new() -> (tab: Self)
        ensures
            tab@.show_raw_events,
            tab@.entries.len() == 0,
            tab@.log_limit == 1000,
    {
        Self { show_raw_events: true, entries: VecDeque::new(), log_limit: 1000 }
    }

    /// Shows or hides the events that are no log lines, from now on.
    pub fn set_show_raw_events(&mut self, show: bool)
        ensures
            final(self)@ == (LogsView { show_raw_events: show, ..old(self)@ }),
    {
        self.show_raw_events = show;
    }

    /// Takes in an event. `raw_text` is the event's payload written out, for
    /// the case that the event is shown raw.
    pub fn push_event(&mut self, event: Event, raw_text: String)
        ensures
            final(self)@.show_raw_events == old(self)@.show_raw_events,
            final(self)@.log_limit == old(self)@.log_limit,
            final(self)@.entries == rows_after(
                old(self)@.entries,
                row_for(event, raw_text@, old(self)@.show_raw_events),
                old(self)@.log_limit,
            ),
    {
        let ghost before = entry_views(self.entries@);
        let ghost row = row_for(event, raw_text@, self.show_raw_events);
        match event.event_type {
            EventType::Log(log_event) => {
                let color;
                let ty;
                match log_event.severity {
                    EventSeverity::Error => {
                        color = LogColor::Error;
                        ty = "ERROR";
                    },
                    EventSeverity::Warning => {
                        color = LogColor::Warning;
                        ty = "WARN";
                    },
                    EventSeverity::Info => {
                        color = LogColor::Info;
                        ty = "INFO";
                    },
                    EventSeverity::Debug => {
                        color = LogColor::Debug;
                        ty = "DEBUG";
                    },
                };
                self.entries.push_back(
                    Entry {
                        color,
                        timestamp: event.timestamp,
                        ty: ty.to_string(),
                        message: log_event.content,
                    },
                );
            },
            _ => {
                if self.show_raw_events {
                    self.entries.push_back(
                        Entry {
                            color: LogColor::Event,
                            timestamp: event.timestamp,
                            ty: "EVENT".to_string(),
                            message: raw_text,
                        },
                    );
                }
            },
        }
        let ghost grown = entry_views(self.entries@);
        assert(grown =~= match row {
            Some(r) => before.push(r),
            None => before,
        });
        if self.entries.len() > self.log_limit {
            self.entries.pop_front();
            assert(entry_views(self.entries@) =~= grown.drop_first());
        }
    }

    /// Whether events that are no log lines are shown.
    pub fn show_raw_events(&self) -> (show: bool)
        ensures
            show == self@.show_raw_events,
    {
        self.show_raw_events
    }

    /// The rows, oldest first.
    pub fn entries(&self) -> (rows: &VecDeque<Entry>)
        ensures
            entry_views(rows@) == self@.entries,
    {
        &self.entries
    }
}

} // verus!
