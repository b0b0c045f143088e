//! What the data sources hand to the user interface.

use vstd::prelude::*;
use crate::session::{SessionDocument, SessionView};

verus! {

/// How serious a log line is.
#[derive(Clone, Copy, Debug, PartialEq, Eq, Structural)]
pub enum EventSeverity {
    Error,
    Warning,
    Info,
    Debug,
}

/// One line of the server's log.
#[derive(Debug, PartialEq, Eq)]
pub struct LogEvent {
    pub severity: EventSeverity,
    pub content: String,
}

pub struct LogEventView {
    pub severity: EventSeverity,
    pub content: Seq<char>,
}

impl View for LogEvent {
    type V = LogEventView;

    open spec fn view(&self) -> LogEventView {
        LogEventView { severity: self.severity, content: self.content@ }
    }
}

/// Streaming statistics, kept in the encoding they arrived in. The library
/// forwards them and never looks inside.
#[derive(Debug, PartialEq, Eq)]
pub struct StatisticsSnapshot {
    pub text: String,
}

/// The payload of an event.
#[derive(Debug, PartialEq, Eq)]
pub enum EventType {
    /// A log line.
    Log(LogEvent),
    /// The whole session, as the active backend holds it now.
    Session(Box<SessionDocument>),
    /// Aggregate statistics.
    Statistics(StatisticsSnapshot),
    /// Per-frame statistics for the graphs.
    GraphStatistics(StatisticsSnapshot),
    /// The server asks to be restarted.
    ServerRequestsSelfRestart,
}

pub enum EventTypeView {
    Log(LogEventView),
    Session(SessionView),
    Statistics(Seq<char>),
    GraphStatistics(Seq<char>),
    ServerRequestsSelfRestart,
}

impl View for EventType {
    type V = EventTypeView;

    open spec fn view(&self) -> EventTypeView {
        match self {
            EventType::Log(log) => EventTypeView::Log(log@),
            EventType::Session(session) => EventTypeView::Session(session@),
            EventType::Statistics(s) => EventTypeView::Statistics(s.text@),
            EventType::GraphStatistics(s) => EventTypeView::GraphStatistics(s.text@),
            EventType::ServerRequestsSelfRestart => EventTypeView::ServerRequestsSelfRestart,
        }
    }
}

/// A timestamped event, as the server pushes it.
#[derive(Debug, PartialEq, Eq)]
pub struct Event {
    pub timestamp: String,
    pub event_type: EventType,
}

pub struct EventView {
    pub timestamp: Seq<char>,
    pub event_type: EventTypeView,
}

impl View for Event {
    type V = EventView;

    open spec fn view(&self) -> EventView {
        EventView { timestamp: self.timestamp@, event_type: self.event_type@ }
    }
}

/// The audio devices of the machine the server runs on, by name.
#[derive(Debug, PartialEq, Eq)]
pub struct AudioDevicesList {
    pub output: Vec<String>,
    pub input: Vec<String>,
}

pub struct AudioDevicesView {
    pub output: Seq<Seq<char>>,
    pub input: Seq<Seq<char>>,
}

impl View for AudioDevicesList {
    type V = AudioDevicesView;

    open spec fn view(&self) -> AudioDevicesView {
        AudioDevicesView { output: self.output.deep_view(), input: self.input.deep_view() }
    }
}

/// A typed answer of the server to a dashboard request.
#[derive(Debug, PartialEq, Eq)]
pub enum ServerResponse {
    AudioOutputDevices(Vec<String>),
    AudioInputDevices(Vec<String>),
    AudioDevices(AudioDevicesList),
}

/// What travels on the channel to the user interface.
///
/// The two `PingResponse` variants are the connectivity notifications: they
/// say that the server became reachable, or stopped being so.
#[derive(Debug, PartialEq, Eq)]
pub enum ServerEvent {
    PingResponseConnected,
    PingResponseDisconnected,
    Event(Event),
    AudioDevicesUpdated(AudioDevicesList),
    AudioOutputDevices(Vec<String>),
    AudioInputDevices(Vec<String>),
}

pub enum ServerEventView {
    PingResponseConnected,
    PingResponseDisconnected,
    Event(EventView),
    AudioDevicesUpdated(AudioDevicesView),
    AudioOutputDevices(Seq<Seq<char>>),
    AudioInputDevices(Seq<Seq<char>>),
}

impl View for ServerEvent {
    type V = ServerEventView;

    open spec fn view(&self) -> ServerEventView {
        match self {
            ServerEvent::PingResponseConnected => ServerEventView::PingResponseConnected,
            ServerEvent::PingResponseDisconnected => ServerEventView::PingResponseDisconnected,
            ServerEvent::Event(event) => ServerEventView::Event(event@),
            ServerEvent::AudioDevicesUpdated(list) => ServerEventView::AudioDevicesUpdated(list@),
            ServerEvent::AudioOutputDevices(names) => ServerEventView::AudioOutputDevices(
                names.deep_view(),
            ),
            ServerEvent::AudioInputDevices(names) => ServerEventView::AudioInputDevices(
                names.deep_view(),
            ),
        }
    }
}

/// The connectivity notification for the given state.
pub open spec fn connectivity_change(connected: bool) -> ServerEventView {
    if connected {
        ServerEventView::PingResponseConnected
    } else {
        ServerEventView::PingResponseDisconnected
    }
}

/// The event that shows `session` to the user interface. It carries no
/// timestamp, as it does not come from the server's clock.
pub open spec fn session_snapshot(session: SessionView) -> ServerEventView {
    ServerEventView::Event(
        EventView { timestamp: Seq::empty(), event_type: EventTypeView::Session(session) },
    )
}

/// The event that a typed response is forwarded as.
pub open spec fn forwarded(response: ServerResponse) -> ServerEventView {
    match response {
        ServerResponse::AudioOutputDevices(names) => ServerEventView::AudioOutputDevices(
            names.deep_view(),
        ),
        ServerResponse::AudioInputDevices(names) => ServerEventView::AudioInputDevices(
            names.deep_view(),
        ),
        ServerResponse::AudioDevices(list) => ServerEventView::AudioDevicesUpdated(list@),
    }
}

impl ServerEvent {
    /// The notification that the server became reachable (`true`) or
    /// unreachable (`false`).
    pub fn connectivity(connected: bool) -> (event: ServerEvent)
        ensures
            event@ == connectivity_change(connected),
    {
        if connected {
            ServerEvent::PingResponseConnected
        } else {
            ServerEvent::PingResponseDisconnected
        }
    }

    /// A fresh snapshot of `session` for the user interface.
    pub fn snapshot(session: &SessionDocument) -> (event: ServerEvent)
        ensures
            event@ == session_snapshot(session@),
    {
        ServerEvent::Event(
            Event {
                timestamp: String::new(),
                event_type: EventType::Session(Box::new(session.clone())),
            },
        )
    }

    /// The event that carries what `response` holds.
    pub fn forward(response: ServerResponse) -> (event: ServerEvent)
        ensures
            event@ == forwarded(response),
    {
        match response {
            ServerResponse::AudioOutputDevices(names) => ServerEvent::AudioOutputDevices(names),
            ServerResponse::AudioInputDevices(names) => ServerEvent::AudioInputDevices(names),
            ServerResponse::AudioDevices(list) => ServerEvent::AudioDevicesUpdated(list),
        }
    }
}

} // verus!
