//! Routing: which channel of the host's event bus a decoded message goes to,
//! and with what payload.

use crate::message::{
    ClientMessage, ClientMessageView, ConsoleLogEvent, ConsoleLogEventView, NetworkEvent,
    NetworkEventView, WebSocketUpdate, WebSocketUpdateView,
};
use vstd::prelude::*;

verus! {

/// A named channel of the host's event bus.
#[derive(Debug, Clone, Copy, PartialEq, Eq, Structural)]
pub enum Channel {
    NetworkLog,
    ConsoleLog,
    WebSocketUpdate,
}

impl Channel {
    /// The name under which the host listens on this channel.
    pub open spec fn name_text(self) -> Seq<char> {
        match self {
            Channel::NetworkLog => "network-log"@,
            Channel::ConsoleLog => "console-log"@,
            Channel::WebSocketUpdate => "websocket-update"@,
        }
    }

    /// The name under which the host listens on this channel.
    pub fn name(&self) -> (name: &'static str)
        ensures
            name@ == self.name_text(),
    {
        match self {
            Channel::NetworkLog => "network-log",
            Channel::ConsoleLog => "console-log",
            Channel::WebSocketUpdate => "websocket-update",
        }
    }
}

/// A WebSocket update together with the identifier of the connection that
/// it is about.
#[derive(Debug, Clone, PartialEq, Eq)]
pub struct WebSocketUpdateEnvelope {
    pub ws_id: String,
    pub update: WebSocketUpdate,
}

pub struct WebSocketUpdateEnvelopeView {
    pub ws_id: Seq<char>,
    pub update: WebSocketUpdateView,
}

impl View for WebSocketUpdateEnvelope {
    type V = WebSocketUpdateEnvelopeView;

    open spec fn view(&self) -> WebSocketUpdateEnvelopeView {
        WebSocketUpdateEnvelopeView { ws_id: self.ws_id@, update: self.update@ }
    }
}

/// What is handed to the host on a channel.
#[derive(Debug, Clone, PartialEq, Eq)]
pub enum Payload {
    Network(NetworkEvent),
    Console(ConsoleLogEvent),
    WebSocketUpdate(WebSocketUpdateEnvelope),
}

pub enum PayloadView {
    Network(NetworkEventView),
    Console(ConsoleLogEventView),
    WebSocketUpdate(WebSocketUpdateEnvelopeView),
}

impl View for Payload {
    type V = PayloadView;

    open spec fn view(&self) -> PayloadView {
        match self {
            Payload::Network(event) => PayloadView::Network(event@),
            Payload::Console(event) => PayloadView::Console(event@),
            Payload::WebSocketUpdate(envelope) => PayloadView::WebSocketUpdate(envelope@),
        }
    }
}

/// One call of the host's event bus: a channel and the payload for it.
#[derive(Debug, Clone, PartialEq, Eq)]
pub struct Forward {
    pub channel: Channel,
    pub payload: Payload,
}

pub struct ForwardView {
    pub channel: Channel,
    pub payload: PayloadView,
}

impl View for Forward {
    type V = ForwardView;

    open spec fn view(&self) -> ForwardView {
        ForwardView { channel: self.channel, payload: self.payload@ }
    }
}

/// The call that a message leads to. The event of a network or console
/// message is the payload as it is; an update is put in an envelope with its
/// identifier.
pub open spec fn route(message: ClientMessageView) -> ForwardView {
    match message {
        ClientMessageView::Network(event) => ForwardView {
            channel: Channel::NetworkLog,
            payload: PayloadView::Network(event),
        },
        ClientMessageView::Console(event) => ForwardView {
            channel: Channel::ConsoleLog,
            payload: PayloadView::Console(event),
        },
        ClientMessageView::WebSocketUpdate { ws_id, update } => ForwardView {
            channel: Channel::WebSocketUpdate,
            payload: PayloadView::WebSocketUpdate(WebSocketUpdateEnvelopeView { ws_id, update }),
        },
    }
}

/// Routes a decoded message.
pub fn dispatch(message: ClientMessage) -> (forward: Forward)
    ensures
        forward@ == route(message@),
{
    match message {
        ClientMessage::Network(event) => Forward {
            channel: Channel::NetworkLog,
            payload: Payload::Network(event),
        },
        ClientMessage::Console(event) => Forward {
            channel: Channel::ConsoleLog,
            payload: Payload::Console(event),
        },
        ClientMessage::WebSocketUpdate { ws_id, update } => Forward {
            channel: Channel::WebSocketUpdate,
            payload: Payload::WebSocketUpdate(WebSocketUpdateEnvelope { ws_id, update }),
        },
    }
}

/// Two channels with the same name are the same channel.
pub proof fn lemma_channel_names_differ(a: Channel, b: Channel)
    ensures
        a.name_text() == b.name_text() <==> a == b,
{
    reveal_strlit("network-log");
    reveal_strlit("console-log");
    reveal_strlit("websocket-update");
    assert("websocket-update"@.len() == 16);
    // The two names of eleven letters differ in the first.
    assert("network-log"@.len() == 11 && "network-log"@[0] == 'n');
    assert("console-log"@.len() == 11 && "console-log"@[0] == 'c');
}

} // verus!
