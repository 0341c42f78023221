//! The commands that the host's own page may invoke, beside the two
//! transports.

use crate::message::{ClientMessage, ClientMessageView, ConsoleLogEvent, NetworkEvent};
use crate::request::ForwardError;
use crate::router::{dispatch, route, Forward};
use vstd::prelude::*;
use vstd::string::StringExecFns;

verus! {

/// The greeting for `name`.
pub open spec fn greeting(name: Seq<char>) -> Seq<char> {
    "Hello, "@ + name + "! You've been greeted from Rust!"@
}

/// Greets `name`.
pub fn greet(name: &str) -> (text: String)
    ensures
        text@ == greeting(name@),
{
    let mut text = String::from_str("Hello, ");
    text.append(name);
    text.append("! You've been greeted from Rust!");
    text
}

/// The call of the host for a network event that the host's page reports.
pub fn log_network(request: NetworkEvent) -> (forward: Forward)
    ensures
        forward@ == route(ClientMessageView::Network(request@)),
{
    dispatch(ClientMessage::Network(request))
}

/// The call of the host for a console line that the host's page reports.
pub fn log_console(log: ConsoleLogEvent) -> (forward: Forward)
    ensures
        forward@ == route(ClientMessageView::Console(log@)),
{
    dispatch(ClientMessage::Console(log))
}

/// What a command returns to the page: nothing, or the cause of the failure
/// as text.
pub fn command_result(outcome: Result<(), ForwardError>) -> (r: Result<(), String>)
    ensures
        (match outcome {
            Ok(_) => r is Ok,
            Err(e) => r == Err::<(), String>(e.cause),
        }),
{
    match outcome {
        Ok(_) => Ok(()),
        Err(e) => Err(e.cause),
    }
}

} // verus!
