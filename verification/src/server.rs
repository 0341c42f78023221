//! Where the relay listens, and what it tells the operator when it starts.

use vstd::prelude::*;
use vstd::string::StringExecFns;

verus! {

/// The port of the persistent transport.
pub const SOCKET_PORT: u16 = 3927;

/// The port of the request/response transport.
pub const REQUEST_PORT: u16 = 3926;

/// The address that the persistent transport binds: every interface, on
/// its port.
pub fn socket_address() -> (address: &'static str)
    ensures
        address@ == "0.0.0.0:3927"@,
{
    "0.0.0.0:3927"
}

/// The address that the request/response transport binds: every interface,
/// on its port.
pub fn request_address() -> (address: &'static str)
    ensures
        address@ == "0.0.0.0:3926"@,
{
    "0.0.0.0:3926"
}

/// The path of the endpoint of the persistent transport.
pub fn socket_path() -> (path: &'static str)
    ensures
        path@ == "/ws"@,
{
    "/ws"
}

/// The path of the endpoint that takes network events.
pub fn network_path() -> (path: &'static str)
    ensures
        path@ == "/api/network"@,
{
    "/api/network"
}

/// The path of the endpoint that takes console lines.
pub fn console_path() -> (path: &'static str)
    ensures
        path@ == "/api/console"@,
{
    "/api/console"
}

/// The path under which WebSocket updates are taken; the identifier of the
/// connection follows it.
pub fn update_path() -> (path: &'static str)
    ensures
        path@ == "/api/websocket/"@,
{
    "/api/websocket/"
}

/// The line that tells where the host can be reached from other machines.
pub open spec fn network_line(host: Seq<char>) -> Seq<char> {
    "Network access: ws://"@ + host + ":3927/ws (or use your IP address)"@
}

/// The lines that the persistent transport prints when it starts.
pub open spec fn startup_text(host: Option<Seq<char>>) -> Seq<Seq<char>> {
    let fixed = seq![
        "Dev Lens WebSocket server listening on ws://0.0.0.0:3927/ws"@,
        "Local access: ws://127.0.0.1:3927/ws"@,
    ];
    match host {
        Some(name) => fixed.push(network_line(name)),
        None => fixed,
    }
}

/// The lines that the persistent transport prints when it starts: where it
/// listens, how to reach it from this machine and, where the name of the
/// host is known, how to reach it from others.
pub fn startup_lines(host: Option<&str>) -> (lines: Vec<String>)
    ensures
        lines@.len() == startup_text(host_view(host)).len(),
        forall|i: int| 0 <= i < lines@.len() ==> (#[trigger] lines@[i])@ == startup_text(
            host_view(host),
        )[i],
{
    let mut lines: Vec<String> = Vec::new();
    lines.push(String::from_str("Dev Lens WebSocket server listening on ws://0.0.0.0:3927/ws"));
    lines.push(String::from_str("Local access: ws://127.0.0.1:3927/ws"));
    match host {
        Some(name) => {
            let mut line = String::from_str("Network access: ws://");
            line.append(name);
            line.append(":3927/ws (or use your IP address)");
            lines.push(line);
        },
        None => {},
    }
    lines
}

/// The name of the host as text, where it is known.
pub open spec fn host_view(host: Option<&str>) -> Option<Seq<char>> {
    match host {
        Some(name) => Some(name@),
        None => None,
    }
}

/// The two transports listen on different ports.
pub proof fn lemma_ports_differ()
    ensures
        SOCKET_PORT != REQUEST_PORT,
{
}

} // verus!
