//! The request/response transport: one message per call, on one of three
//! endpoints, answered by a status.

use crate::decode::{
    console_of, decode_console, decode_network, decode_update, network_of, update_of, DecodeError,
};
use crate::json::{Json, JsonView};
use crate::message::{ClientMessage, ClientMessageView};
use crate::router::{dispatch, route, Channel, Forward, ForwardView};
use crate::text::{parse_json, parsed};
use vstd::prelude::*;
use vstd::string::StringExecFns;

verus! {

/// The endpoint that a call arrived on. The endpoint for WebSocket updates
/// carries the identifier that stood in its path.
#[derive(Debug, Clone, PartialEq, Eq)]
pub enum Endpoint {
    Network,
    Console,
    WebSocketUpdate { ws_id: String },
}

pub enum EndpointView {
    Network,
    Console,
    WebSocketUpdate { ws_id: Seq<char> },
}

impl View for Endpoint {
    type V = EndpointView;

    open spec fn view(&self) -> EndpointView {
        match self {
            Endpoint::Network => EndpointView::Network,
            Endpoint::Console => EndpointView::Console,
            Endpoint::WebSocketUpdate { ws_id } => EndpointView::WebSocketUpdate { ws_id: ws_id@ },
        }
    }
}

/// The message that the body of a call holds, by the endpoint it arrived on.
pub open spec fn request_message(endpoint: EndpointView, body: JsonView) -> Result<
    ClientMessageView,
    DecodeError,
> {
    match endpoint {
        EndpointView::Network => match network_of(body) {
            Ok(event) => Ok(ClientMessageView::Network(event)),
            Err(e) => Err(e),
        },
        EndpointView::Console => match console_of(body) {
            Ok(event) => Ok(ClientMessageView::Console(event)),
            Err(e) => Err(e),
        },
        EndpointView::WebSocketUpdate { ws_id } => match update_of(body) {
            Ok(update) => Ok(ClientMessageView::WebSocketUpdate { ws_id, update }),
            Err(e) => Err(e),
        },
    }
}

/// Decodes the body of a call.
pub fn decode_request(endpoint: Endpoint, body: &Json) -> (r: Result<ClientMessage, DecodeError>)
    ensures
        (match r {
            Ok(message) => request_message(endpoint@, body@) == Ok::<
                ClientMessageView,
                DecodeError,
            >(message@),
            Err(e) => request_message(endpoint@, body@) == Err::<ClientMessageView, DecodeError>(e),
        }),
{
    match endpoint {
        Endpoint::Network => {
            let event = decode_network(body)?;
            Ok(ClientMessage::Network(event))
        },
        Endpoint::Console => {
            let event = decode_console(body)?;
            Ok(ClientMessage::Console(event))
        },
        Endpoint::WebSocketUpdate { ws_id } => {
            let update = decode_update(body)?;
            Ok(ClientMessage::WebSocketUpdate { ws_id, update })
        },
    }
}

/// The call of the host that a request leads to, or the reason why it leads
/// to none.
pub open spec fn request_forward(endpoint: EndpointView, body: Seq<char>) -> Result<
    ForwardView,
    DecodeError,
> {
    match parsed(body) {
        None => Err(DecodeError::Malformed),
        Some(doc) => match request_message(endpoint, doc) {
            Ok(message) => Ok(route(message)),
            Err(e) => Err(e),
        },
    }
}

/// Takes one call: reads the body, decodes it for the endpoint and routes
/// the message. An undecodable body leads to no call of the host.
pub fn accept_request(endpoint: Endpoint, body: &str) -> (r: Result<Forward, DecodeError>)
    ensures
        (match r {
            Ok(forward) => request_forward(endpoint@, body@) == Ok::<ForwardView, DecodeError>(
                forward@,
            ),
            Err(e) => request_forward(endpoint@, body@) == Err::<ForwardView, DecodeError>(e),
        }),
{
    match parse_json(body) {
        None => Err(DecodeError::Malformed),
        Some(doc) => {
            let message = decode_request(endpoint, &doc)?;
            Ok(dispatch(message))
        },
    }
}

/// The host's event bus did not take a payload.
#[derive(Debug, Clone, PartialEq, Eq)]
pub struct ForwardError {
    pub channel: Channel,
    /// What the host reported.
    pub cause: String,
}

impl ForwardError {
    /// The text of the line to log for this failure.
    pub open spec fn notice_text(self) -> Seq<char> {
        "Failed to emit "@ + self.channel.name_text() + ": "@ + self.cause@
    }

    /// The line to log for this failure: the channel and the cause.
    pub fn notice(&self) -> (line: String)
        ensures
            line@ == self.notice_text(),
    {
        let mut line = String::from_str("Failed to emit ");
        line.append(self.channel.name());
        line.append(": ");
        line.append(self.cause.as_str());
        line
    }
}

/// The status that answers a call.
#[derive(Debug, Clone, Copy, PartialEq, Eq, Structural)]
pub enum Status {
    /// The payload was handed to the host.
    Success,
    /// The body could not be decoded; nothing was handed to the host.
    BadRequest,
    /// The host did not take the payload.
    ServerError,
}

impl Status {
    /// The numeric code of this status.
    pub open spec fn code_of(self) -> u16 {
        match self {
            Status::Success => 200,
            Status::BadRequest => 400,
            Status::ServerError => 500,
        }
    }

    /// The numeric code of this status.
    pub fn code(&self) -> (code: u16)
        ensures
            code == self.code_of(),
    {
        match self {
            Status::Success => 200,
            Status::BadRequest => 400,
            Status::ServerError => 500,
        }
    }

    /// The status of a call whose payload was handed to the host, by what
    /// the host made of it.
    pub open spec fn after_forward(outcome: Result<(), ForwardError>) -> Status {
        match outcome {
            Ok(_) => Status::Success,
            Err(_) => Status::ServerError,
        }
    }

    /// The status of a call whose payload was handed to the host.
    pub fn completed(outcome: &Result<(), ForwardError>) -> (status: Status)
        ensures
            status == Status::after_forward(*outcome),
    {
        match outcome {
            Ok(_) => Status::Success,
            Err(_) => Status::ServerError,
        }
    }

    /// The status of a call whose body could not be decoded.
    pub fn rejected(error: &DecodeError) -> (status: Status)
        ensures
            status == Status::BadRequest,
    {
        Status::BadRequest
    }
}

/// One call: the endpoint, the text of the body, and what the host makes of
/// the payload if the call leads to one.
pub struct Call {
    pub endpoint: EndpointView,
    pub body: Seq<char>,
    pub outcome: Result<(), ForwardError>,
}

/// The status that answers a call: that of an undecodable body, or else
/// that of what the host made of the payload.
pub open spec fn call_status(call: Call) -> Status {
    match request_forward(call.endpoint, call.body) {
        Err(_) => Status::BadRequest,
        Ok(_) => Status::after_forward(call.outcome),
    }
}

/// The statuses that answer a run of calls, one after the other.
pub open spec fn statuses(calls: Seq<Call>) -> Seq<Status>
    decreases calls.len(),
{
    if calls.len() == 0 {
        Seq::empty()
    } else {
        statuses(calls.drop_last()).push(call_status(calls.last()))
    }
}

/// Each call is answered by itself: its status is that of its own body and
/// of what the host made of its own payload, whatever came before it.
pub proof fn lemma_calls_are_independent(calls: Seq<Call>, i: int)
    requires
        0 <= i < calls.len(),
    ensures
        statuses(calls).len() == calls.len(),
        statuses(calls)[i] == call_status(calls[i]),
    decreases calls.len(),
{
    lemma_statuses_len(calls);
    if i < calls.len() - 1 {
        lemma_statuses_len(calls.drop_last());
        lemma_calls_are_independent(calls.drop_last(), i);
    }
}

proof fn lemma_statuses_len(calls: Seq<Call>)
    ensures
        statuses(calls).len() == calls.len(),
    decreases calls.len(),
{
    if calls.len() > 0 {
        lemma_statuses_len(calls.drop_last());
    }
}

/// A call that the host does not take does not harm the next one: where the
/// next body holds a message and the host takes it, the next call succeeds.
pub proof fn lemma_failure_stays_with_its_call(first: Call, second: Call)
    requires
        first.outcome is Err,
        request_forward(second.endpoint, second.body) is Ok,
        second.outcome is Ok,
    ensures
        statuses(seq![first, second])[1] == Status::Success,
{
    let calls = seq![first, second];
    lemma_calls_are_independent(calls, 1);
}

} // verus!
