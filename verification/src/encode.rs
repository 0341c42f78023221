//! Encoding payloads as JSON documents, as the host receives them.
//!
//! Members are written in the order of the schema. An optional member that
//! is absent is left out.

use crate::decode::{
    console_of, headers_of, message_of, network_of, update_of, DecodeError,
};
use crate::json::{
    lemma_items_view, lemma_members_view, optional_view, written, Json, JsonView, ObjectWriter,
    Slot,
};
use crate::message::{
    entries_view, message_list_view, messages_view, patch_message_view, patch_text_view,
    text_view, ConsoleLogEvent, ConsoleLogEventView, NetworkEvent, NetworkEventView,
    NetworkHeaders, NetworkHeadersView, Patch, WebSocketMessage, WebSocketMessageView,
    WebSocketUpdate, WebSocketUpdateView,
};
use crate::router::{
    Payload, PayloadView, WebSocketUpdateEnvelope, WebSocketUpdateEnvelopeView,
};
use crate::roundtrip::{
    lemma_console_round_trip, lemma_headers_round_trip, lemma_message_round_trip,
    lemma_network_round_trip, lemma_update_round_trip,
};
use crate::string_map::{distinct_keys, pairs, Entries, StringMap};
use vstd::prelude::*;

verus! {

/// A map from text to text as an object: one member for each entry, in order.
pub open spec fn entries_json(entries: Entries) -> JsonView {
    JsonView::Object(
        Seq::new(entries.len(), |i: int| (entries[i].0, JsonView::Str(entries[i].1))),
    )
}

/// Encodes a map from text to text.
pub fn encode_entries(map: &StringMap) -> (json: Json)
    ensures
        json@ == entries_json(map@),
        distinct_keys(map@),
{
    let entries = map.entries();
    let mut members: Vec<(String, Json)> = Vec::new();
    let mut i: usize = 0;
    while i < entries.len()
        invariant
            i <= entries.len(),
            members.len() == i,
            pairs(entries@) == map@,
            forall|k: int|
                0 <= k < i ==> (#[trigger] members[k]).0@ == map@[k].0 && members[k].1@
                    == JsonView::Str(map@[k].1),
        decreases entries.len() - i,
    {
        members.push((entries[i].0.clone(), Json::Str(entries[i].1.clone())));
        i += 1;
    }
    let json = Json::Object(members);
    proof {
        lemma_members_view(members@);
        assert(json@->Object_0 =~= entries_json(map@)->Object_0);
    }
    json
}

/// The slots of a WebSocket message.
pub open spec fn message_slots(message: WebSocketMessageView) -> Seq<Slot> {
    seq![
        ("id"@, Some(JsonView::Str(message.id))),
        ("direction"@, Some(JsonView::Str(message.direction))),
        ("data"@, Some(JsonView::Str(message.data))),
        ("timestamp"@, Some(JsonView::Unsigned(message.timestamp))),
    ]
}

/// A WebSocket message as an object.
pub open spec fn message_json(message: WebSocketMessageView) -> JsonView {
    JsonView::Object(written(message_slots(message)))
}

/// Encodes a WebSocket message.
pub fn encode_message(message: &WebSocketMessage) -> (json: Json)
    ensures
        json@ == message_json(message@),
        message_of(json@) == Ok::<WebSocketMessageView, DecodeError>(message@),
{
    let mut writer = ObjectWriter::new();
    writer.write("id", Some(Json::Str(message.id.clone())));
    writer.write("direction", Some(Json::Str(message.direction.clone())));
    writer.write("data", Some(Json::Str(message.data.clone())));
    writer.write("timestamp", Some(Json::Unsigned(message.timestamp)));
    assert(writer.slots() =~= message_slots(message@));
    proof {
        lemma_message_round_trip(message@);
    }
    writer.finish()
}

/// A list of WebSocket messages as an array.
pub open spec fn message_list_json(messages: Seq<WebSocketMessageView>) -> JsonView {
    JsonView::Array(Seq::new(messages.len(), |i: int| message_json(messages[i])))
}

/// Encodes a list of WebSocket messages.
pub fn encode_message_list(messages: &Vec<WebSocketMessage>) -> (json: Json)
    ensures
        json@ == message_list_json(messages_view(messages@)),
{
    let mut items: Vec<Json> = Vec::new();
    let mut i: usize = 0;
    while i < messages.len()
        invariant
            i <= messages.len(),
            items.len() == i,
            forall|k: int| 0 <= k < i ==> (#[trigger] items[k])@ == message_json(messages[k]@),
        decreases messages.len() - i,
    {
        items.push(encode_message(&messages[i]));
        i += 1;
    }
    let json = Json::Array(items);
    proof {
        lemma_items_view(items@);
        assert(json@->Array_0 =~= message_list_json(messages_view(messages@))->Array_0);
    }
    json
}

/// The slots of the headers of a network event.
pub open spec fn headers_slots(headers: NetworkHeadersView) -> Seq<Slot> {
    seq![
        ("request"@, Some(entries_json(headers.request))),
        ("response"@, Some(entries_json(headers.response))),
    ]
}

/// The headers of a network event as an object.
pub open spec fn headers_json(headers: NetworkHeadersView) -> JsonView {
    JsonView::Object(written(headers_slots(headers)))
}

/// Encodes the headers of a network event.
pub fn encode_headers(headers: &NetworkHeaders) -> (json: Json)
    ensures
        json@ == headers_json(headers@),
        distinct_keys(headers@.request),
        distinct_keys(headers@.response),
        headers_of(json@) == Ok::<NetworkHeadersView, DecodeError>(headers@),
{
    let mut writer = ObjectWriter::new();
    writer.write("request", Some(encode_entries(&headers.request)));
    writer.write("response", Some(encode_entries(&headers.response)));
    assert(writer.slots() =~= headers_slots(headers@));
    proof {
        lemma_headers_round_trip(headers@);
    }
    writer.finish()
}

/// The slots of a console line.
pub open spec fn console_slots(event: ConsoleLogEventView) -> Seq<Slot> {
    seq![
        ("level"@, Some(JsonView::Str(event.level))),
        ("message"@, Some(JsonView::Str(event.message))),
    ]
}

/// A console line as an object.
pub open spec fn console_json(event: ConsoleLogEventView) -> JsonView {
    JsonView::Object(written(console_slots(event)))
}

/// Encodes a console line.
pub fn encode_console(event: &ConsoleLogEvent) -> (json: Json)
    ensures
        json@ == console_json(event@),
        console_of(json@) == Ok::<ConsoleLogEventView, DecodeError>(event@),
{
    let mut writer = ObjectWriter::new();
    writer.write("level", Some(Json::Str(event.level.clone())));
    writer.write("message", Some(Json::Str(event.message.clone())));
    assert(writer.slots() =~= console_slots(event@));
    proof {
        lemma_console_round_trip(event@);
    }
    writer.finish()
}

/// The value of an optional text member.
pub open spec fn optional_text_json(text: Option<Seq<char>>) -> Option<JsonView> {
    match text {
        Some(s) => Some(JsonView::Str(s)),
        None => None,
    }
}

/// The value of an optional map member.
pub open spec fn optional_entries_json(entries: Option<Entries>) -> Option<JsonView> {
    match entries {
        Some(e) => Some(entries_json(e)),
        None => None,
    }
}

/// The value of an optional member that lists WebSocket messages.
pub open spec fn optional_message_list_json(messages: Option<Seq<WebSocketMessageView>>) -> Option<
    JsonView,
> {
    match messages {
        Some(m) => Some(message_list_json(m)),
        None => None,
    }
}

/// The slots of a network event.
pub open spec fn network_slots(event: NetworkEventView) -> Seq<Slot> {
    seq![
        ("id"@, Some(JsonView::Str(event.id))),
        ("method"@, Some(JsonView::Str(event.method))),
        ("url"@, Some(JsonView::Str(event.url))),
        ("status"@, Some(JsonView::Unsigned(event.status as u64))),
        ("responseTime"@, Some(JsonView::Unsigned(event.response_time))),
        ("headers"@, Some(headers_json(event.headers))),
        ("cookies"@, optional_entries_json(event.cookies)),
        ("queryParams"@, optional_entries_json(event.query_params)),
        ("requestBody"@, optional_text_json(event.request_body)),
        ("responseBody"@, Some(JsonView::Str(event.response_body))),
        ("type"@, Some(JsonView::Str(event.kind))),
        ("wsState"@, optional_text_json(event.ws_state)),
        ("wsMessages"@, optional_message_list_json(event.ws_messages)),
    ]
}

/// A network event as an object.
pub open spec fn network_json(event: NetworkEventView) -> JsonView {
    JsonView::Object(written(network_slots(event)))
}

fn encode_optional_text(text: &Option<String>) -> (json: Option<Json>)
    ensures
        optional_view(json) == optional_text_json(text_view(*text)),
{
    match text {
        Some(s) => Some(Json::Str(s.clone())),
        None => None,
    }
}

fn encode_optional_entries(map: &Option<StringMap>) -> (json: Option<Json>)
    ensures
        optional_view(json) == optional_entries_json(entries_view(*map)),
        *map matches Some(m) ==> distinct_keys(m@),
{
    match map {
        Some(m) => Some(encode_entries(m)),
        None => None,
    }
}

fn encode_optional_message_list(messages: &Option<Vec<WebSocketMessage>>) -> (json: Option<Json>)
    ensures
        optional_view(json) == optional_message_list_json(message_list_view(*messages)),
{
    match messages {
        Some(m) => Some(encode_message_list(m)),
        None => None,
    }
}

/// Encodes a network event. The document holds every field of the event:
/// decoding it gives the event back.
pub fn encode_network(event: &NetworkEvent) -> (json: Json)
    ensures
        json@ == network_json(event@),
        event@.keys_distinct(),
        network_of(json@) == Ok::<NetworkEventView, DecodeError>(event@),
{
    let mut writer = ObjectWriter::new();
    writer.write("id", Some(Json::Str(event.id.clone())));
    writer.write("method", Some(Json::Str(event.method.clone())));
    writer.write("url", Some(Json::Str(event.url.clone())));
    writer.write("status", Some(Json::Unsigned(event.status as u64)));
    writer.write("responseTime", Some(Json::Unsigned(event.response_time)));
    writer.write("headers", Some(encode_headers(&event.headers)));
    writer.write("cookies", encode_optional_entries(&event.cookies));
    writer.write("queryParams", encode_optional_entries(&event.query_params));
    writer.write("requestBody", encode_optional_text(&event.request_body));
    writer.write("responseBody", Some(Json::Str(event.response_body.clone())));
    writer.write("type", Some(Json::Str(event.kind.clone())));
    writer.write("wsState", encode_optional_text(&event.ws_state));
    writer.write("wsMessages", encode_optional_message_list(&event.ws_messages));
    assert(writer.slots() =~= network_slots(event@));
    proof {
        lemma_network_round_trip(event@);
    }
    writer.finish()
}

/// The value of a text attribute of a sparse update: none where the
/// attribute is absent, `null` where it is null.
pub open spec fn patch_text_json(patch: Patch<Seq<char>>) -> Option<JsonView> {
    match patch {
        Patch::Absent => None,
        Patch::Null => Some(JsonView::Null),
        Patch::Value(s) => Some(JsonView::Str(s)),
    }
}

/// The value of a 16-bit attribute of a sparse update.
pub open spec fn patch_u16_json(patch: Patch<u16>) -> Option<JsonView> {
    match patch {
        Patch::Absent => None,
        Patch::Null => Some(JsonView::Null),
        Patch::Value(n) => Some(JsonView::Unsigned(n as u64)),
    }
}

/// The value of a 64-bit attribute of a sparse update.
pub open spec fn patch_u64_json(patch: Patch<u64>) -> Option<JsonView> {
    match patch {
        Patch::Absent => None,
        Patch::Null => Some(JsonView::Null),
        Patch::Value(n) => Some(JsonView::Unsigned(n)),
    }
}

/// The value of a message attribute of a sparse update.
pub open spec fn patch_message_json(patch: Patch<WebSocketMessageView>) -> Option<JsonView> {
    match patch {
        Patch::Absent => None,
        Patch::Null => Some(JsonView::Null),
        Patch::Value(message) => Some(message_json(message)),
    }
}

fn encode_patch_text(patch: &Patch<String>) -> (json: Option<Json>)
    ensures
        optional_view(json) == patch_text_json(patch_text_view(*patch)),
{
    match patch {
        Patch::Absent => None,
        Patch::Null => Some(Json::Null),
        Patch::Value(s) => Some(Json::Str(s.clone())),
    }
}

fn encode_patch_u16(patch: &Patch<u16>) -> (json: Option<Json>)
    ensures
        optional_view(json) == patch_u16_json(*patch),
{
    match patch {
        Patch::Absent => None,
        Patch::Null => Some(Json::Null),
        Patch::Value(n) => Some(Json::Unsigned(*n as u64)),
    }
}

fn encode_patch_u64(patch: &Patch<u64>) -> (json: Option<Json>)
    ensures
        optional_view(json) == patch_u64_json(*patch),
{
    match patch {
        Patch::Absent => None,
        Patch::Null => Some(Json::Null),
        Patch::Value(n) => Some(Json::Unsigned(*n)),
    }
}

fn encode_patch_message(patch: &Patch<WebSocketMessage>) -> (json: Option<Json>)
    ensures
        optional_view(json) == patch_message_json(patch_message_view(*patch)),
{
    match patch {
        Patch::Absent => None,
        Patch::Null => Some(Json::Null),
        Patch::Value(message) => Some(encode_message(message)),
    }
}

/// The slots of a WebSocket update.
pub open spec fn update_slots(update: WebSocketUpdateView) -> Seq<Slot> {
    seq![
        ("state"@, patch_text_json(update.state)),
        ("status"@, patch_u16_json(update.status)),
        ("responseTime"@, patch_u64_json(update.response_time)),
        ("message"@, patch_message_json(update.message)),
        ("error"@, patch_text_json(update.error)),
        ("closeReason"@, patch_text_json(update.close_reason)),
    ]
}

/// A WebSocket update as an object.
pub open spec fn update_json(update: WebSocketUpdateView) -> JsonView {
    JsonView::Object(written(update_slots(update)))
}

/// Encodes a WebSocket update.
pub fn encode_update(update: &WebSocketUpdate) -> (json: Json)
    ensures
        json@ == update_json(update@),
        update_of(json@) == Ok::<WebSocketUpdateView, DecodeError>(update@),
{
    let mut writer = ObjectWriter::new();
    writer.write("state", encode_patch_text(&update.state));
    writer.write("status", encode_patch_u16(&update.status));
    writer.write("responseTime", encode_patch_u64(&update.response_time));
    writer.write("message", encode_patch_message(&update.message));
    writer.write("error", encode_patch_text(&update.error));
    writer.write("closeReason", encode_patch_text(&update.close_reason));
    assert(writer.slots() =~= update_slots(update@));
    proof {
        lemma_update_round_trip(update@);
    }
    writer.finish()
}

/// The slots of the envelope of a WebSocket update.
pub open spec fn envelope_slots(envelope: WebSocketUpdateEnvelopeView) -> Seq<Slot> {
    seq![
        ("wsId"@, Some(JsonView::Str(envelope.ws_id))),
        ("update"@, Some(update_json(envelope.update))),
    ]
}

/// The envelope of a WebSocket update as an object: the identifier under
/// `wsId`, the update under `update`.
pub open spec fn envelope_json(envelope: WebSocketUpdateEnvelopeView) -> JsonView {
    JsonView::Object(written(envelope_slots(envelope)))
}

/// Encodes the envelope of a WebSocket update.
pub fn encode_envelope(envelope: &WebSocketUpdateEnvelope) -> (json: Json)
    ensures
        json@ == envelope_json(envelope@),
{
    let mut writer = ObjectWriter::new();
    writer.write("wsId", Some(Json::Str(envelope.ws_id.clone())));
    writer.write("update", Some(encode_update(&envelope.update)));
    assert(writer.slots() =~= envelope_slots(envelope@));
    writer.finish()
}

/// A payload as the document that the host receives.
pub open spec fn payload_json(payload: PayloadView) -> JsonView {
    match payload {
        PayloadView::Network(event) => network_json(event),
        PayloadView::Console(event) => console_json(event),
        PayloadView::WebSocketUpdate(envelope) => envelope_json(envelope),
    }
}

/// Encodes a payload for the host.
pub fn encode_payload(payload: &Payload) -> (json: Json)
    ensures
        json@ == payload_json(payload@),
{
    match payload {
        Payload::Network(event) => encode_network(event),
        Payload::Console(event) => encode_console(event),
        Payload::WebSocketUpdate(envelope) => encode_envelope(envelope),
    }
}

} // verus!
