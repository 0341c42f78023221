//! The two transports agree: a message leads to the same call of the host,
//! with the same payload, whichever transport it came by.

use crate::connection::frame_forward;
use crate::decode::{console_of, network_of, tagged_of, update_of, DecodeError};
use crate::decode_laws::lemma_network_keys_distinct;
use crate::encode::payload_json;
use crate::json::JsonView;
use crate::message::{ClientMessageView, NetworkEventView, WebSocketUpdateView};
use crate::roundtrip::{lemma_envelope_members, lemma_network_round_trip};
use crate::request::{request_forward, request_message, EndpointView};
use crate::router::{route, Channel, ForwardView, PayloadView, WebSocketUpdateEnvelopeView};
use crate::text::parsed;
use vstd::prelude::*;

verus! {

/// A network event leads to the same outcome whether its document is the
/// body of a call on the network endpoint or the `data` of a frame tagged
/// `network`. Where the document holds an event, that event, unchanged, is
/// the payload on the channel `network-log`.
pub proof fn lemma_network_agrees(frame: JsonView, body: JsonView)
    requires
        frame is Object,
        frame.field("type"@) == Some(JsonView::Str("network"@)),
        frame.field("data"@) == Some(body),
    ensures
        tagged_of(frame) == request_message(EndpointView::Network, body),
        network_of(body) matches Ok(event) ==> ({
            &&& tagged_of(frame) == Ok::<ClientMessageView, DecodeError>(ClientMessageView::Network(event))
            &&& route(ClientMessageView::Network(event)) == ForwardView {
                channel: Channel::NetworkLog,
                payload: PayloadView::Network(event),
            }
        }),
        network_of(body) is Err ==> tagged_of(frame) is Err,
{
}

/// A console line leads to the same outcome on both transports. Where the
/// document holds a line, that line, unchanged, is the payload on the channel
/// `console-log`.
pub proof fn lemma_console_agrees(frame: JsonView, body: JsonView)
    requires
        frame is Object,
        frame.field("type"@) == Some(JsonView::Str("console"@)),
        frame.field("data"@) == Some(body),
    ensures
        tagged_of(frame) == request_message(EndpointView::Console, body),
        console_of(body) matches Ok(event) ==> ({
            &&& tagged_of(frame) == Ok::<ClientMessageView, DecodeError>(ClientMessageView::Console(event))
            &&& route(ClientMessageView::Console(event)) == ForwardView {
                channel: Channel::ConsoleLog,
                payload: PayloadView::Console(event),
            }
        }),
        console_of(body) is Err ==> tagged_of(frame) is Err,
{
    lemma_kinds_differ();
}

/// A WebSocket update leads to the same outcome whether its identifier
/// stood in the path of a call or in the member `wsId` of a frame. Where the
/// document holds an update, the payload on the channel `websocket-update` is
/// the envelope of that identifier and that update.
pub proof fn lemma_update_agrees(frame: JsonView, body: JsonView, ws_id: Seq<char>)
    requires
        frame is Object,
        frame.field("type"@) == Some(JsonView::Str("websocket-update"@)),
        frame.field("wsId"@) == Some(JsonView::Str(ws_id)),
        frame.field("data"@) == Some(body),
    ensures
        tagged_of(frame) == request_message(EndpointView::WebSocketUpdate { ws_id }, body),
        update_of(body) matches Ok(update) ==> ({
            &&& tagged_of(frame) == Ok::<ClientMessageView, DecodeError>(
                ClientMessageView::WebSocketUpdate { ws_id, update },
            )
            &&& route(ClientMessageView::WebSocketUpdate { ws_id, update }) == ForwardView {
                channel: Channel::WebSocketUpdate,
                payload: PayloadView::WebSocketUpdate(
                    WebSocketUpdateEnvelopeView { ws_id, update },
                ),
            }
        }),
        update_of(body) is Err ==> tagged_of(frame) is Err,
{
    lemma_kinds_differ();
}

/// The same, for the texts: where the text of a frame holds a document
/// tagged `network` whose `data` is the document that the text of a body
/// holds, frame and body lead to the same call of the host or fail alike.
pub proof fn lemma_network_texts_agree(frame_text: Seq<char>, body_text: Seq<char>)
    ensures
        ({
            &&& parsed(frame_text) matches Some(frame)
            &&& parsed(body_text) matches Some(body)
            &&& frame is Object
            &&& frame.field("type"@) == Some(JsonView::Str("network"@))
            &&& frame.field("data"@) == Some(body)
        }) ==> frame_forward(frame_text) == request_forward(EndpointView::Network, body_text),
{
    if parsed(frame_text) is Some && parsed(body_text) is Some {
        let frame = parsed(frame_text)->Some_0;
        let body = parsed(body_text)->Some_0;
        if frame is Object && frame.field("type"@) == Some(JsonView::Str("network"@))
            && frame.field("data"@) == Some(body) {
            lemma_network_agrees(frame, body);
        }
    }
}

/// The same, for the texts of a WebSocket update.
pub proof fn lemma_update_texts_agree(
    frame_text: Seq<char>,
    body_text: Seq<char>,
    ws_id: Seq<char>,
)
    ensures
        ({
            &&& parsed(frame_text) matches Some(frame)
            &&& parsed(body_text) matches Some(body)
            &&& frame is Object
            &&& frame.field("type"@) == Some(JsonView::Str("websocket-update"@))
            &&& frame.field("wsId"@) == Some(JsonView::Str(ws_id))
            &&& frame.field("data"@) == Some(body)
        }) ==> frame_forward(frame_text) == request_forward(
            EndpointView::WebSocketUpdate { ws_id },
            body_text,
        ),
{
    if parsed(frame_text) is Some && parsed(body_text) is Some {
        let frame = parsed(frame_text)->Some_0;
        let body = parsed(body_text)->Some_0;
        if frame is Object && frame.field("type"@) == Some(JsonView::Str("websocket-update"@))
            && frame.field("wsId"@) == Some(JsonView::Str(ws_id)) && frame.field("data"@) == Some(
            body,
        ) {
            lemma_update_agrees(frame, body, ws_id);
        }
    }
}

/// What the host receives for a network event holds every field of the
/// event as it was decoded: decoding the payload gives the same event again.
pub proof fn lemma_network_payload_keeps_every_field(body: JsonView)
    ensures
        network_of(body) matches Ok(event) ==> network_of(
            payload_json(route(ClientMessageView::Network(event)).payload),
        ) == Ok::<NetworkEventView, DecodeError>(event),
{
    if network_of(body) is Ok {
        lemma_network_keys_distinct(body);
        lemma_network_round_trip(network_of(body)->Ok_0);
    }
}

/// What the host receives for a WebSocket update is the envelope of the
/// identifier, under `wsId`, and of the update as it was decoded, under
/// `update`.
pub proof fn lemma_update_payload_is_the_envelope(body: JsonView, ws_id: Seq<char>)
    ensures
        update_of(body) matches Ok(update) ==> ({
            let payload = payload_json(
                route(ClientMessageView::WebSocketUpdate { ws_id, update }).payload,
            );
            &&& payload.field("wsId"@) == Some(JsonView::Str(ws_id))
            &&& payload.field("update"@) is Some
            &&& update_of(payload.field("update"@)->Some_0) == Ok::<
                WebSocketUpdateView,
                DecodeError,
            >(update)
        }),
{
    if update_of(body) is Ok {
        lemma_envelope_members(WebSocketUpdateEnvelopeView { ws_id, update: update_of(body)->Ok_0 });
    }
}

/// The names of the three kinds are three different texts.
pub proof fn lemma_kinds_differ()
    ensures
        "network"@ != "console"@,
        "network"@ != "websocket-update"@,
        "console"@ != "websocket-update"@,
{
    reveal_strlit("network");
    reveal_strlit("console");
    reveal_strlit("websocket-update");
    assert("websocket-update"@.len() == 16);
    // The two names of seven letters differ in the first.
    assert("network"@.len() == 7 && "network"@[0] == 'n');
    assert("console"@.len() == 7 && "console"@[0] == 'c');
}

} // verus!
