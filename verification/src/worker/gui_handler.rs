//! Which calls a message stands for.

use vstd::prelude::*;
use vstd::string::StringExecFns;
use crate::session::SessionDocument;

verus! {

/// What the window asks about the drivers.
#[derive(Debug, PartialEq, Eq)]
pub enum DriverResponse {
    RegisterAlvr,
    /// Unregister the driver at this path.
    Unregister(String),
}

/// What the window asks about the firewall rules.
#[derive(Clone, Copy, Debug, PartialEq, Eq, Structural)]
pub enum FirewallRulesResponse {
    Add,
    Remove,
}

/// What the window asks of the server.
#[derive(Debug, PartialEq, Eq)]
pub enum WorkerRequest {
    /// The session was edited; it comes written out as JSON.
    SessionUpdated(String),
    RestartSteamVR,
    Driver(DriverResponse),
    Firewall(FirewallRulesResponse),
    /// Anything the worker has no part in.
    Other,
}

/// A message from the window to the worker.
#[derive(Debug, PartialEq, Eq)]
pub enum DashboardEvent {
    Quit,
    GetSession,
    GetDrivers,
    Dashboard(WorkerRequest),
}

/// What the worker hands back to the window.
#[derive(Debug, PartialEq, Eq)]
pub enum WorkerEvent {
    Session(SessionDocument),
    DriverResponse(Vec<String>),
}

/// What the body of a response is read as.
#[derive(Clone, Copy, Debug, PartialEq, Eq, Structural)]
pub enum Expected {
    /// The body is not read.
    Nothing,
    /// The session. It is handed to the window.
    Session,
    /// The list of registered drivers. It is handed to the window.
    Drivers,
}

/// One call to the server.
#[derive(Debug, PartialEq, Eq)]
pub struct Call {
    pub url: String,
    pub body: Option<String>,
    pub expected: Expected,
}

pub struct CallView {
    pub url: Seq<char>,
    pub body: Option<Seq<char>>,
    pub expected: Expected,
}

impl View for Call {
    type V = CallView;

    open spec fn view(&self) -> CallView {
        CallView {
            url: self.url@,
            body: match self.body {
                Some(body) => Some(body@),
                None => None,
            },
            expected: self.expected,
        }
    }
}

/// What the worker does about a message: the calls to make, in order, and
/// whether to quit afterwards.
///
/// A call that fails on the way ends the plan with that error: it means
/// that the server is offline. A body that cannot be read as expected is
/// reported and ends the plan without an error.
#[derive(Debug, PartialEq, Eq)]
pub struct Plan {
    pub quit: bool,
    pub calls: Vec<Call>,
}

pub struct PlanView {
    pub quit: bool,
    pub calls: Seq<CallView>,
}

impl View for Plan {
    type V = PlanView;

    open spec fn view(&self) -> PlanView {
        PlanView { quit: self.quit, calls: self.calls@.map_values(|c: Call| c@) }
    }
}

/// A call without a body.
pub open spec fn plain_call(base: Seq<char>, path: Seq<char>, expected: Expected) -> CallView {
    CallView { url: base + path, body: None, expected }
}

/// The call that lists the registered drivers.
pub open spec fn drivers_call(base: Seq<char>) -> CallView {
    plain_call(base, "/api/driver/list"@, Expected::Drivers)
}

/// The body that stores a session.
pub open spec fn session_body(session_json: Seq<char>) -> Seq<char> {
    "{\"session\": "@ + session_json + "}"@
}

/// The body that names a driver: its path between double quotes.
pub open spec fn driver_body(path: Seq<char>) -> Seq<char> {
    "\""@ + path + "\""@
}

/// The calls that a message stands for, against the server at `base`.
///
/// After the drivers were changed, the list of drivers is fetched anew.
pub open spec fn calls_for(base: Seq<char>, msg: DashboardEvent) -> Seq<CallView> {
    match msg {
        DashboardEvent::Quit => seq![],
        DashboardEvent::GetSession => seq![
            plain_call(base, "/api/session/load"@, Expected::Session),
        ],
        DashboardEvent::GetDrivers => seq![drivers_call(base)],
        DashboardEvent::Dashboard(request) => match request {
            WorkerRequest::SessionUpdated(session) => seq![
                CallView {
                    url: base + "/api/session/store"@,
                    body: Some(session_body(session@)),
                    expected: Expected::Nothing,
                },
            ],
            WorkerRequest::RestartSteamVR => seq![
                plain_call(base, "/restart-steamvr"@, Expected::Nothing),
            ],
            WorkerRequest::Driver(DriverResponse::RegisterAlvr) => seq![
                plain_call(base, "/api/driver/register"@, Expected::Nothing),
                drivers_call(base),
            ],
            WorkerRequest::Driver(DriverResponse::Unregister(path)) => seq![
                CallView {
                    url: base + "/api/driver/unregister"@,
                    body: Some(driver_body(path@)),
                    expected: Expected::Nothing,
                },
                drivers_call(base),
            ],
            WorkerRequest::Firewall(FirewallRulesResponse::Add) => seq![
                plain_call(base, "/api/firewall-rules/add"@, Expected::Nothing),
            ],
            WorkerRequest::Firewall(FirewallRulesResponse::Remove) => seq![
                plain_call(base, "/api/firewall-rules/remove"@, Expected::Nothing),
            ],
            WorkerRequest::Other => seq![],
        },
    }
}

fn call(base: &str, path: &str, body: Option<String>, expected: Expected) -> (call: Call)
    ensures
        call@ == (CallView {
            url: base@ + path@,
            body: match body {
                Some(b) => Some(b@),
                None => None,
            },
            expected,
        }),
{
    let mut url = base.to_string();
    url.append(path);
    Call { url, body, expected }
}

/// Sets `text` between `before` and `after`.
fn wrap(before: &str, text: &str, after: &str) -> (out: String)
    ensures
        out@ == before@ + text@ + after@,
{
    let mut out = before.to_string();
    out.append(text);
    out.append(after);
    out
}

/// The plan for a message, against the server at `base_url`. Only `Quit`
/// asks to quit.
pub fn handle_msg(msg: DashboardEvent, base_url: &str) -> (plan: Plan)
    ensures
        plan@.quit == (msg is Quit),
        plan@.calls == calls_for(base_url@, msg),
{
    let mut calls: Vec<Call> = Vec::new();
    let quit = match msg {
        DashboardEvent::Quit => true,
        DashboardEvent::GetSession => {
            calls.push(call(base_url, "/api/session/load", None, Expected::Session));
            false
        },
        DashboardEvent::GetDrivers => {
            calls.push(get_drivers(base_url));
            false
        },
        DashboardEvent::Dashboard(request) => {
            match request {
                WorkerRequest::SessionUpdated(session) => {
                    let body = wrap("{\"session\": ", session.as_str(), "}");
                    calls.push(call(base_url, "/api/session/store", Some(body), Expected::Nothing));
                },
                WorkerRequest::RestartSteamVR => {
                    calls.push(call(base_url, "/restart-steamvr", None, Expected::Nothing));
                },
                WorkerRequest::Driver(driver) => match driver {
                    DriverResponse::RegisterAlvr => {
                        calls.push(call(base_url, "/api/driver/register", None, Expected::Nothing));
                        calls.push(get_drivers(base_url));
                    },
                    DriverResponse::Unregister(path) => {
                        let body = wrap("\"", path.as_str(), "\"");
                        calls.push(
                            call(base_url, "/api/driver/unregister", Some(body), Expected::Nothing),
                        );
                        calls.push(get_drivers(base_url));
                    },
                },
                WorkerRequest::Firewall(firewall) => match firewall {
                    FirewallRulesResponse::Add => {
                        calls.push(
                            call(base_url, "/api/firewall-rules/add", None, Expected::Nothing),
                        );
                    },
                    FirewallRulesResponse::Remove => {
                        calls.push(
                            call(base_url, "/api/firewall-rules/remove", None, Expected::Nothing),
                        );
                    },
                },
                WorkerRequest::Other => {},
            }
            false
        },
    };
    let plan = Plan { quit, calls };
    assert(plan@.calls =~= calls_for(base_url@, msg));
    plan
}

/// The call that lists the registered drivers.
pub fn get_drivers(base_url: &str) -> (call: Call)
    ensures
        call@ == drivers_call(base_url@),
{
    call(base_url, "/api/driver/list", None, Expected::Drivers)
}

} // verus!
