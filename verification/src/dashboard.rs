//! The state of the dashboard window, without its drawing.

pub mod components;

use vstd::prelude::*;
use crate::dashboard::components::connections::{ConnectionsTab, EditPopupView};
use crate::dashboard::components::installation::InstallationTab;
use crate::dashboard::components::logs::{row_for, rows_after, EntryView, LogsTab, LogsView};
use crate::event::{AudioDevicesList, EventType, LogEvent, LogEventView, ServerEvent, StatisticsSnapshot};
use crate::request::DashboardRequest;
use crate::session::{SessionDocument, SessionView};

verus! {

/// A name as the program knows it, and as the user sees it.
#[derive(Debug, PartialEq, Eq)]
pub struct DisplayString {
    pub id: String,
    pub display: String,
}

pub struct DisplayStringView {
    pub id: Seq<char>,
    pub display: Seq<char>,
}

impl View for DisplayString {
    type V = DisplayStringView;

    open spec fn view(&self) -> DisplayStringView {
        DisplayStringView { id: self.id@, display: self.display@ }
    }
}

impl Clone for DisplayString {
    fn clone(&self) -> (copy: Self)
        ensures
            copy@ == self@,
    {
        DisplayString { id: self.id.clone(), display: self.display.clone() }
    }
}

impl From<(String, String)> for DisplayString {
    fn from(pair: (String, String)) -> (made: Self) {
        let (id, display) = pair;
        Self { id, display }
    }
}

impl vstd::std_specs::convert::FromSpecImpl<(String, String)> for DisplayString {
    open spec fn obeys_from_spec() -> bool {
        true
    }

    open spec fn from_spec(pair: (String, String)) -> Self {
        DisplayString { id: pair.0, display: pair.1 }
    }
}

impl std::ops::Deref for DisplayString {
    type Target = String;

    /// A display string stands for its `id` wherever a plain string is
    /// asked for.
    fn deref(&self) -> (id: &String)
        ensures
            id == &self.id,
    {
        &self.id
    }
}

/// The tabs of the window, in the order of the side panel.
#[derive(Clone, Copy, PartialEq, Eq, PartialOrd, Ord, Debug, Structural)]
pub enum Tab {
    Connections,
    Statistics,
    Settings,
    Installation,
    Logs,
    About,
}

impl Tab {
    /// The text of the tab's entry in the side panel.
    pub open spec fn spec_label(self) -> Seq<char> {
        match self {
            Tab::Connections => "🔌  Connections"@,
            Tab::Statistics => "📈  Statistics"@,
            Tab::Settings => "⚙  Settings"@,
            Tab::Installation => "💾  Installation"@,
            Tab::Logs => "📝  Logs"@,
            Tab::About => "ℹ  About"@,
        }
    }

    /// The text of the tab's entry in the side panel.
    pub fn label(self) -> (label: &'static str)
        ensures
            label@ == self.spec_label(),
    {
        match self {
            Tab::Connections => "🔌  Connections",
            Tab::Statistics => "📈  Statistics",
            Tab::Settings => "⚙  Settings",
            Tab::Installation => "💾  Installation",
            Tab::Logs => "📝  Logs",
            Tab::About => "ℹ  About",
        }
    }

    /// Every tab, in the order of the side panel.
    pub fn all() -> (tabs: Vec<Tab>)
        ensures
            tabs@ == seq![
                Tab::Connections,
                Tab::Statistics,
                Tab::Settings,
                Tab::Installation,
                Tab::Logs,
                Tab::About,
            ],
    {
        let mut tabs: Vec<Tab> = Vec::new();
        tabs.push(Tab::Connections);
        tabs.push(Tab::Statistics);
        tabs.push(Tab::Settings);
        tabs.push(Tab::Installation);
        tabs.push(Tab::Logs);
        tabs.push(Tab::About);
        assert(tabs@ =~= seq![
            Tab::Connections,
            Tab::Statistics,
            Tab::Settings,
            Tab::Installation,
            Tab::Logs,
            Tab::About,
        ]);
        tabs
    }
}

/// What the window has to do about an event beyond keeping its own state.
#[derive(Debug, PartialEq, Eq)]
pub enum UiEffect {
    Nothing,
    /// Hand the statistics to the graphs.
    GraphStatistics(StatisticsSnapshot),
    /// Hand the statistics to the statistics tab.
    Statistics(StatisticsSnapshot),
    /// The session was replaced: hand it to the settings tab.
    SessionChanged,
    /// Restart SteamVR in the background, then call `restart_finished`.
    RestartSteamvr,
    /// Look up the registered drivers again. Where `refetch_session` is
    /// set, the other backend has taken over: what the window holds of the
    /// session is void, and the session is to be requested anew.
    ConnectivityChanged { refetch_session: bool },
    /// Hand the list to the settings tab.
    AudioDevices(AudioDevicesList),
}

pub struct DashboardView {
    pub connected_to_server: bool,
    pub server_restarting: bool,
    pub selected_tab: Tab,
    pub session: SessionView,
    pub logs: LogsView,
    pub notification: Option<LogEventView>,
    /// What the popup of the connections tab holds, while it is open.
    pub popup: Option<EditPopupView>,
}

/// The state of the dashboard window.
pub struct Dashboard {
    connected_to_server: bool,
    server_restarting: bool,
    selected_tab: Tab,
    connections_tab: ConnectionsTab,
    installation_tab: InstallationTab,
    logs_tab: LogsTab,
    notification: Option<LogEvent>,
    session: SessionDocument,
}

impl View for Dashboard {
    type V = DashboardView;

    closed spec fn view(&self) -> DashboardView {
        DashboardView {
            connected_to_server: self.connected_to_server,
            server_restarting: self.server_restarting,
            selected_tab: self.selected_tab,
            session: self.session@,
            logs: self.logs_tab@,
            notification: match self.notification {
                Some(log) => Some(log@),
                None => None,
            },
            popup: self.connections_tab@,
        }
    }
}

/// What an event asks of the window.
pub open spec fn effect_of(before: DashboardView, event: ServerEvent) -> UiEffect {
    match event {
        ServerEvent::Event(e) => match e.event_type {
            EventType::GraphStatistics(statistics) => UiEffect::GraphStatistics(statistics),
            EventType::Statistics(statistics) => UiEffect::Statistics(statistics),
            EventType::Session(_) => UiEffect::SessionChanged,
            EventType::ServerRequestsSelfRestart => if before.server_restarting {
                UiEffect::Nothing
            } else {
                UiEffect::RestartSteamvr
            },
            EventType::Log(_) => UiEffect::Nothing,
        },
        ServerEvent::PingResponseConnected => UiEffect::ConnectivityChanged {
            refetch_session: !before.connected_to_server,
        },
        ServerEvent::PingResponseDisconnected => UiEffect::ConnectivityChanged {
            refetch_session: before.connected_to_server,
        },
        ServerEvent::AudioDevicesUpdated(list) => UiEffect::AudioDevices(list),
        _ => UiEffect::Nothing,
    }
}

/// The state of the window after an event.
///
/// A session event replaces the session the window holds, whole. A request
/// for a restart is taken up unless a restart is under way. A log line
/// goes to the log tab. The notifications set the connection flag.
pub open spec fn state_after(before: DashboardView, event: ServerEvent) -> DashboardView {
    match event {
        ServerEvent::Event(e) => match e.event_type {
            EventType::Session(session) => DashboardView { session: session@, ..before },
            EventType::ServerRequestsSelfRestart => DashboardView {
                server_restarting: true,
                ..before
            },
            EventType::Log(_) => DashboardView {
                logs: LogsView {
                    entries: rows_after(
                        before.logs.entries,
                        row_for(e, Seq::empty(), before.logs.show_raw_events),
                        before.logs.log_limit,
                    ),
                    ..before.logs
                },
                ..before
            },
            _ => before,
        },
        ServerEvent::PingResponseConnected => DashboardView { connected_to_server: true, ..before },
        ServerEvent::PingResponseDisconnected => DashboardView {
            connected_to_server: false,
            ..before
        },
        _ => before,
    }
}

impl Dashboard {
    /// A window that shows the connections tab, is not connected and holds
    /// `session` until the first snapshot arrives; with it, the requests to
    /// submit at once, in order: for the session and for the audio devices.
    pub fn new(session: SessionDocument) -> (made: (Self, Vec<DashboardRequest>))
        ensures
            made.0@ == (DashboardView {
                connected_to_server: false,
                server_restarting: false,
                selected_tab: Tab::Connections,
                session: session@,
                logs: LogsView { show_raw_events: true, entries: Seq::empty(), log_limit: 1000 },
                notification: None,
                popup: None,
            }),
            made.1@ == seq![DashboardRequest::GetSession, DashboardRequest::GetAudioDevices],
    {
        let mut requests: Vec<DashboardRequest> = Vec::new();
        requests.push(DashboardRequest::GetSession);
        requests.push(DashboardRequest::GetAudioDevices);
        assert(requests@ =~= seq![DashboardRequest::GetSession, DashboardRequest::GetAudioDevices]);
        let logs_tab = LogsTab::new();
        assert(logs_tab@.entries =~= Seq::<EntryView>::empty());
        let window = Self {
            connected_to_server: false,
            server_restarting: false,
            selected_tab: Tab::Connections,
            connections_tab: ConnectionsTab::new(),
            installation_tab: InstallationTab::new(),
            logs_tab,
            notification: None,
            session,
        };
        (window, requests)
    }

    /// Takes in one event from the data sources.
    pub fn handle_event(&mut self, event: ServerEvent) -> (effect: UiEffect)
        ensures
            effect == effect_of(old(self)@, event),
            final(self)@ == state_after(old(self)@, event),
    {
        match event {
            ServerEvent::Event(e) => match e.event_type {
                EventType::GraphStatistics(statistics) => UiEffect::GraphStatistics(statistics),
                EventType::Statistics(statistics) => UiEffect::Statistics(statistics),
                EventType::Session(session) => {
                    self.session = *session;
                    UiEffect::SessionChanged
                },
                EventType::ServerRequestsSelfRestart => {
                    if !self.server_restarting {
                        self.server_restarting = true;
                        UiEffect::RestartSteamvr
                    } else {
                        UiEffect::Nothing
                    }
                },
                EventType::Log(_) => {
                    self.logs_tab.push_event(e, String::new());
                    UiEffect::Nothing
                },
            },
            ServerEvent::PingResponseConnected => {
                let refetch_session = !self.connected_to_server;
                self.connected_to_server = true;
                UiEffect::ConnectivityChanged { refetch_session }
            },
            ServerEvent::PingResponseDisconnected => {
                let refetch_session = self.connected_to_server;
                self.connected_to_server = false;
                UiEffect::ConnectivityChanged { refetch_session }
            },
            ServerEvent::AudioDevicesUpdated(list) => UiEffect::AudioDevices(list),
            _ => UiEffect::Nothing,
        }
    }

    /// Notes that the restart of SteamVR is over.
    pub fn restart_finished(&mut self)
        ensures
            final(self)@ == (DashboardView { server_restarting: false, ..old(self)@ }),
    {
        self.server_restarting = false;
    }

    /// Shows another tab.
    pub fn select_tab(&mut self, tab: Tab)
        ensures
            final(self)@ == (DashboardView { selected_tab: tab, ..old(self)@ }),
    {
        self.selected_tab = tab;
    }

    /// What the button under the tabs stands for: while connected it
    /// restarts SteamVR through the server, and the request for that is
    /// returned; while not, SteamVR is to be launched from here, and
    /// nothing is returned.
    pub fn steamvr_button(&self) -> (request: Option<DashboardRequest>)
        ensures
            request == if self@.connected_to_server {
                Some(DashboardRequest::RestartSteamvr)
            } else {
                None
            },
    {
        if self.connected_to_server {
            Some(DashboardRequest::RestartSteamvr)
        } else {
            None
        }
    }

    pub fn connected_to_server(&self) -> (connected: bool)
        ensures
            connected == self@.connected_to_server,
    {
        self.connected_to_server
    }

    pub fn server_restarting(&self) -> (restarting: bool)
        ensures
            restarting == self@.server_restarting,
    {
        self.server_restarting
    }

    pub fn selected_tab(&self) -> (tab: Tab)
        ensures
            tab == self@.selected_tab,
    {
        self.selected_tab
    }

    /// The session as the last snapshot gave it.
    pub fn session(&self) -> (session: &SessionDocument)
        ensures
            session@ == self@.session,
    {
        &self.session
    }

    pub fn logs_tab(&self) -> (tab: &LogsTab)
        ensures
            tab@ == self@.logs,
    {
        &self.logs_tab
    }

    /// Shows or hides, in the log tab, the events that are no log lines.
    pub fn set_show_raw_events(&mut self, show: bool)
        ensures
            final(self)@ == (DashboardView {
                logs: LogsView { show_raw_events: show, ..old(self)@.logs },
                ..old(self)@
            }),
    {
        self.logs_tab.set_show_raw_events(show);
    }

    pub fn installation_tab(&self) -> (tab: &InstallationTab)
        ensures
            *tab == (InstallationTab {  }),
    {
        &self.installation_tab
    }

    /// The connections tab, to read or to change. Nothing else of the
    /// window changes with it.
    pub fn connections_tab(&mut self) -> (tab: &mut ConnectionsTab)
        ensures
            tab@ == old(self)@.popup,
            final(self)@ == (DashboardView { popup: final(tab)@, ..old(self)@ }),
    {
        &mut self.connections_tab
    }

    /// The log line to show as a notification, if there is one.
    pub fn notification(&self) -> (log: &Option<LogEvent>)
        ensures
            log is Some <==> self@.notification is Some,
            log matches Some(l) ==> Some(l@) == self@.notification,
    {
        &self.notification
    }
}

} // verus!
