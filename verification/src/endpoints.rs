//! Where the server is found: the addresses of its two endpoints on this
//! machine, given the port that the session's settings name.

use vstd::prelude::*;
use vstd::string::StringExecFns;
use crate::text::string_from_chars;

verus! {

/// The character for a digit.
pub open spec fn digit(d: int) -> char {
    (('0' as u8) + d) as char
}

/// The decimal spelling of `n`, without leading zeros.
pub open spec fn decimal(n: nat) -> Seq<char>
    decreases n,
{
    if n < 10 {
        seq![digit(n as int)]
    } else {
        decimal(n / 10).push(digit((n % 10) as int))
    }
}

/// The path of the endpoint that takes the dashboard's requests.
pub open spec fn request_path() -> Seq<char> {
    "/api/dashboard-request"@
}

/// The path of the endpoint that pushes the server's events.
pub open spec fn events_path() -> Seq<char> {
    "/api/events"@
}

/// The address of `path` on the server that listens on `port` of this
/// machine, for the protocol that `scheme` names.
pub open spec fn local_url(scheme: Seq<char>, port: u16, path: Seq<char>) -> Seq<char> {
    scheme + "://localhost:"@ + decimal(port as nat) + path
}

fn decimal_chars(n: u16) -> (chars: Vec<char>)
    ensures
        chars@ == decimal(n as nat),
    decreases n,
{
    let last = (('0' as u8) + ((n % 10) as u8)) as char;
    if n < 10 {
        let mut chars: Vec<char> = Vec::new();
        chars.push(last);
        assert(chars@ =~= seq![digit(n as int)]);
        chars
    } else {
        let mut chars = decimal_chars(n / 10);
        chars.push(last);
        chars
    }
}

fn url(scheme: &str, port: u16, path: &str) -> (url: String)
    ensures
        url@ == local_url(scheme@, port, path@),
{
    let mut url = scheme.to_string();
    url.append("://localhost:");
    url.append(string_from_chars(&decimal_chars(port)).as_str());
    url.append(path);
    url
}

/// The address that requests are sent to, and that the liveness probe
/// asks. Requests travel over HTTP.
pub fn dashboard_request_url(port: u16) -> (url: String)
    ensures
        url@ == local_url("http"@, port, request_path()),
{
    url("http", port, "/api/dashboard-request")
}

/// The address at which the event stream is subscribed to. The stream is
/// a WebSocket.
pub fn events_url(port: u16) -> (url: String)
    ensures
        url@ == local_url("ws"@, port, events_path()),
{
    url("ws", port, "/api/events")
}

} // verus!
