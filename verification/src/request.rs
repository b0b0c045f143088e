//! What the user interface asks of the data sources.

use vstd::prelude::*;
use crate::session::{takes_effect, updated_clients, ClientListAction, SessionDocument, SessionView};

verus! {

/// One step of the path to a value inside the settings.
#[derive(Debug, PartialEq, Eq)]
pub enum PathSegment {
    Name(String),
    Index(usize),
}

pub enum PathSegmentView {
    Name(Seq<char>),
    Index(usize),
}

impl View for PathSegment {
    type V = PathSegmentView;

    open spec fn view(&self) -> PathSegmentView {
        match self {
            PathSegment::Name(name) => PathSegmentView::Name(name@),
            PathSegment::Index(index) => PathSegmentView::Index(*index),
        }
    }
}

impl Clone for PathSegment {
    fn clone(&self) -> (copy: Self)
        ensures
            copy@ == self@,
    {
        match self {
            PathSegment::Name(name) => PathSegment::Name(name.clone()),
            PathSegment::Index(index) => PathSegment::Index(*index),
        }
    }
}

/// The views of the steps of a path, in order.
pub open spec fn path_view(path: Seq<PathSegment>) -> Seq<PathSegmentView> {
    path.map_values(|s: PathSegment| s@)
}

/// A copy of a path.
pub fn clone_path(path: &Vec<PathSegment>) -> (copy: Vec<PathSegment>)
    ensures
        path_view(copy@) == path_view(path@),
{
    let mut copy: Vec<PathSegment> = Vec::new();
    let mut i: usize = 0;
    while i < path.len()
        invariant
            i <= path.len(),
            copy.len() == i,
            forall|k: int| 0 <= k < i ==> (#[trigger] copy@[k])@ == path@[k]@,
        decreases path.len() - i,
    {
        copy.push(path[i].clone());
        i += 1;
    }
    assert(path_view(copy@) =~= path_view(path@));
    copy
}

/// A single settings value, as a control of the user interface produces it.
#[derive(Debug, PartialEq, Eq)]
pub enum SettingValue {
    Bool(bool),
    Text(String),
    /// A number, in its decimal spelling.
    Number(String),
}

pub enum SettingValueView {
    Bool(bool),
    Text(Seq<char>),
    Number(Seq<char>),
}

impl View for SettingValue {
    type V = SettingValueView;

    open spec fn view(&self) -> SettingValueView {
        match self {
            SettingValue::Bool(b) => SettingValueView::Bool(*b),
            SettingValue::Text(text) => SettingValueView::Text(text@),
            SettingValue::Number(text) => SettingValueView::Number(text@),
        }
    }
}

/// A request of the dashboard. Once issued it is never changed, and this
/// layer never sends it twice.
#[derive(Debug, PartialEq, Eq)]
pub enum DashboardRequest {
    /// The liveness probe.
    Ping,
    GetSession,
    UpdateSession(Box<SessionDocument>),
    SetSingleValue { path: Vec<PathSegment>, new_value: SettingValue },
    ExecuteScript(String),
    UpdateClientList { hostname: String, action: ClientListAction },
    GetAudioDevices,
    GetAudioOutputDevices,
    GetAudioInputDevices,
    RestartSteamvr,
}

/// How a request can be served from the local backend when the server does
/// not answer.
#[derive(Clone, Copy, Debug, PartialEq, Eq, Structural)]
pub enum LocalHandling {
    /// The request is a plain change of the session document (or none).
    Session,
    /// The request runs a script on the session document.
    Script,
    /// The local backend cannot serve the request.
    Unsupported,
}

/// The one table that says which requests the local backend can serve.
pub open spec fn local_handling(request: DashboardRequest) -> LocalHandling {
    match request {
        DashboardRequest::GetSession => LocalHandling::Session,
        DashboardRequest::UpdateSession(_) => LocalHandling::Session,
        DashboardRequest::UpdateClientList { .. } => LocalHandling::Session,
        DashboardRequest::ExecuteScript(_) => LocalHandling::Script,
        _ => LocalHandling::Unsupported,
    }
}

/// Whether the local backend can serve `request`.
pub open spec fn has_local_implementation(request: DashboardRequest) -> bool {
    local_handling(request) != LocalHandling::Unsupported
}

/// The session after the local backend served `request`, for a request that
/// is a plain change of the session.
pub open spec fn locally_applied(session: SessionView, request: DashboardRequest) -> SessionView {
    match request {
        DashboardRequest::UpdateSession(replacement) => replacement@,
        DashboardRequest::UpdateClientList { hostname, action } => SessionView {
            settings: session.settings,
            clients: updated_clients(session.clients, hostname@, action),
        },
        _ => session,
    }
}

/// Says that `request` asks to set the value at `path` to `value`.
pub open spec fn sets_value(
    request: DashboardRequest,
    path: Seq<PathSegmentView>,
    value: SettingValueView,
) -> bool {
    request matches DashboardRequest::SetSingleValue { path: p, new_value } && path_view(p@)
        == path && new_value@ == value
}

/// Whether serving `request` from the local backend leaves a session that
/// is to be written to the store: a replaced session always is, a client
/// list if the change took effect, and a session that was only read is
/// not.
pub open spec fn writes_session(session: SessionView, request: DashboardRequest) -> bool {
    match request {
        DashboardRequest::UpdateSession(_) => true,
        DashboardRequest::UpdateClientList { hostname, action } => takes_effect(
            session.clients,
            hostname@,
            action,
        ),
        _ => false,
    }
}

impl DashboardRequest {
    /// How the local backend can serve this request.
    pub fn local_handling(&self) -> (handling: LocalHandling)
        ensures
            handling == local_handling(*self),
    {
        match self {
            DashboardRequest::GetSession => LocalHandling::Session,
            DashboardRequest::UpdateSession(_) => LocalHandling::Session,
            DashboardRequest::UpdateClientList { .. } => LocalHandling::Session,
            DashboardRequest::ExecuteScript(_) => LocalHandling::Script,
            _ => LocalHandling::Unsupported,
        }
    }
}

} // verus!
