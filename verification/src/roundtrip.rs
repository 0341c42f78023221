//! Decoding gives back what encoding was given: a payload loses nothing on
//! its way through the relay.

use crate::decode::{
    console_of, headers_of, message_list_of, message_of, network_of, update_of, DecodeError,
};
use crate::member::{entries_of, text_members};
use crate::encode::{
    console_json, console_slots, entries_json, envelope_json, envelope_slots, headers_json,
    headers_slots, message_json, message_list_json, message_slots, network_json, network_slots,
    update_json, update_slots,
};
use crate::json::{distinct_names, lemma_written_field, JsonView};
use crate::message::{
    ConsoleLogEventView, NetworkEventView, NetworkHeadersView, WebSocketMessageView,
    WebSocketUpdateView,
};
use crate::router::WebSocketUpdateEnvelopeView;
use crate::string_map::{distinct_keys, has_key, lemma_put_fresh, Entries};
use vstd::prelude::*;

verus! {

/// A map with distinct keys is read back from its object as it was.
pub proof fn lemma_entries_round_trip(entries: Entries, name: &'static str)
    requires
        distinct_keys(entries),
    ensures
        entries_of(entries_json(entries), name) == Ok::<Entries, DecodeError>(entries),
    decreases entries.len(),
{
    let members = entries_json(entries)->Object_0;
    if entries.len() == 0 {
        assert(text_members(members) == Some(entries));
    } else {
        let init = entries.drop_last();
        let last = entries.last();
        assert(members.drop_last() =~= entries_json(init)->Object_0);
        lemma_entries_round_trip(init, name);
        assert(!has_key(init, last.0));
        lemma_put_fresh(init, last.0, last.1);
        assert(init.push((last.0, last.1)) =~= entries);
    }
}

/// The names of the members of a WebSocket message differ.
proof fn lemma_message_names(message: WebSocketMessageView)
    ensures
        distinct_names(message_slots(message)),
{
    reveal_strlit("id");
    reveal_strlit("direction");
    reveal_strlit("data");
    reveal_strlit("timestamp");
    assert("id"@.len() == 2 && "data"@.len() == 4);
    // The two names of nine letters differ in the first.
    assert("direction"@.len() == 9 && "direction"@[0] == 'd');
    assert("timestamp"@.len() == 9 && "timestamp"@[0] == 't');
    let slots = message_slots(message);
    assert(slots[0].0 == "id"@ && slots[1].0 == "direction"@ && slots[2].0 == "data"@
        && slots[3].0 == "timestamp"@);
}

/// A WebSocket message is read back from its object as it was.
pub proof fn lemma_message_round_trip(message: WebSocketMessageView)
    ensures
        message_of(message_json(message)) == Ok::<WebSocketMessageView, DecodeError>(message),
{
    let slots = message_slots(message);
    lemma_message_names(message);
    lemma_written_field(slots, 0);
    lemma_written_field(slots, 1);
    lemma_written_field(slots, 2);
    lemma_written_field(slots, 3);
}

/// A list of WebSocket messages is read back from its array as it was.
pub proof fn lemma_message_list_round_trip(messages: Seq<WebSocketMessageView>, name: &'static str)
    ensures
        message_list_of(message_list_json(messages), name) == Ok::<
            Seq<WebSocketMessageView>,
            DecodeError,
        >(messages),
    decreases messages.len(),
{
    let items = message_list_json(messages)->Array_0;
    if messages.len() == 0 {
        assert(messages =~= Seq::empty());
    } else {
        let init = messages.drop_last();
        assert(items.drop_last() =~= message_list_json(init)->Array_0);
        lemma_message_list_round_trip(init, name);
        lemma_message_round_trip(messages.last());
        assert(init.push(messages.last()) =~= messages);
    }
}

/// The names of the members of a console line differ.
proof fn lemma_console_names(event: ConsoleLogEventView)
    ensures
        distinct_names(console_slots(event)),
{
    reveal_strlit("level");
    reveal_strlit("message");
    assert("level"@.len() == 5 && "message"@.len() == 7);
    let slots = console_slots(event);
    assert(slots[0].0 == "level"@ && slots[1].0 == "message"@);
}

/// A console line is read back from its object as it was.
pub proof fn lemma_console_round_trip(event: ConsoleLogEventView)
    ensures
        console_of(console_json(event)) == Ok::<ConsoleLogEventView, DecodeError>(event),
{
    let slots = console_slots(event);
    lemma_console_names(event);
    lemma_written_field(slots, 0);
    lemma_written_field(slots, 1);
}

/// The names of the members of the headers differ.
proof fn lemma_headers_names(headers: NetworkHeadersView)
    ensures
        distinct_names(headers_slots(headers)),
{
    reveal_strlit("request");
    reveal_strlit("response");
    assert("request"@.len() == 7 && "response"@.len() == 8);
    let slots = headers_slots(headers);
    assert(slots[0].0 == "request"@ && slots[1].0 == "response"@);
}

/// Headers with distinct keys are read back from their object as they were.
pub proof fn lemma_headers_round_trip(headers: NetworkHeadersView)
    requires
        distinct_keys(headers.request),
        distinct_keys(headers.response),
    ensures
        headers_of(headers_json(headers)) == Ok::<NetworkHeadersView, DecodeError>(headers),
{
    let slots = headers_slots(headers);
    lemma_headers_names(headers);
    lemma_written_field(slots, 0);
    lemma_written_field(slots, 1);
    lemma_entries_round_trip(headers.request, "request");
    lemma_entries_round_trip(headers.response, "response");
}

/// The names of the members of a network event differ.
proof fn lemma_network_names(event: NetworkEventView)
    ensures
        distinct_names(network_slots(event)),
{
    reveal_strlit("id");
    reveal_strlit("method");
    reveal_strlit("url");
    reveal_strlit("status");
    reveal_strlit("responseTime");
    reveal_strlit("headers");
    reveal_strlit("cookies");
    reveal_strlit("queryParams");
    reveal_strlit("requestBody");
    reveal_strlit("responseBody");
    reveal_strlit("type");
    reveal_strlit("wsState");
    reveal_strlit("wsMessages");
    assert("id"@.len() == 2 && "url"@.len() == 3 && "type"@.len() == 4 && "wsMessages"@.len()
        == 10);
    // Names of the same length differ in one letter.
    assert("method"@.len() == 6 && "method"@[0] == 'm');
    assert("status"@.len() == 6 && "status"@[0] == 's');
    assert("headers"@.len() == 7 && "headers"@[0] == 'h');
    assert("cookies"@.len() == 7 && "cookies"@[0] == 'c');
    assert("wsState"@.len() == 7 && "wsState"@[0] == 'w');
    assert("queryParams"@.len() == 11 && "queryParams"@[0] == 'q');
    assert("requestBody"@.len() == 11 && "requestBody"@[0] == 'r');
    assert("responseTime"@.len() == 12 && "responseTime"@[8] == 'T');
    assert("responseBody"@.len() == 12 && "responseBody"@[8] == 'B');
    let slots = network_slots(event);
    assert(slots[0].0 == "id"@ && slots[1].0 == "method"@ && slots[2].0 == "url"@ && slots[3].0
        == "status"@ && slots[4].0 == "responseTime"@ && slots[5].0 == "headers"@ && slots[6].0
        == "cookies"@ && slots[7].0 == "queryParams"@ && slots[8].0 == "requestBody"@
        && slots[9].0 == "responseBody"@ && slots[10].0 == "type"@ && slots[11].0 == "wsState"@
        && slots[12].0 == "wsMessages"@);
}

/// A network event whose maps have distinct keys is read back from its
/// object as it was: every field is the same after encoding and decoding.
pub proof fn lemma_network_round_trip(event: NetworkEventView)
    requires
        event.keys_distinct(),
    ensures
        network_of(network_json(event)) == Ok::<NetworkEventView, DecodeError>(event),
{
    let slots = network_slots(event);
    lemma_network_names(event);
    lemma_written_field(slots, 0);
    lemma_written_field(slots, 1);
    lemma_written_field(slots, 2);
    lemma_written_field(slots, 3);
    lemma_written_field(slots, 4);
    lemma_written_field(slots, 5);
    lemma_written_field(slots, 6);
    lemma_written_field(slots, 7);
    lemma_written_field(slots, 8);
    lemma_written_field(slots, 9);
    lemma_written_field(slots, 10);
    lemma_written_field(slots, 11);
    lemma_written_field(slots, 12);
    lemma_headers_round_trip(event.headers);
    if event.cookies is Some {
        lemma_entries_round_trip(event.cookies->Some_0, "cookies");
    }
    if event.query_params is Some {
        lemma_entries_round_trip(event.query_params->Some_0, "queryParams");
    }
    if event.ws_messages is Some {
        lemma_message_list_round_trip(event.ws_messages->Some_0, "wsMessages");
    }
}

/// The names of the members of a WebSocket update differ.
proof fn lemma_update_names(update: WebSocketUpdateView)
    ensures
        distinct_names(update_slots(update)),
{
    reveal_strlit("state");
    reveal_strlit("status");
    reveal_strlit("responseTime");
    reveal_strlit("message");
    reveal_strlit("error");
    reveal_strlit("closeReason");
    assert("status"@.len() == 6 && "message"@.len() == 7 && "closeReason"@.len() == 11
        && "responseTime"@.len() == 12);
    // The two names of five letters differ in the first.
    assert("state"@.len() == 5 && "state"@[0] == 's');
    assert("error"@.len() == 5 && "error"@[0] == 'e');
    let slots = update_slots(update);
    assert(slots[0].0 == "state"@ && slots[1].0 == "status"@ && slots[2].0 == "responseTime"@
        && slots[3].0 == "message"@ && slots[4].0 == "error"@ && slots[5].0 == "closeReason"@);
}

/// A WebSocket update is read back from its object as it was: an absent
/// attribute stays absent, a null one stays null.
pub proof fn lemma_update_round_trip(update: WebSocketUpdateView)
    ensures
        update_of(update_json(update)) == Ok::<WebSocketUpdateView, DecodeError>(update),
{
    let slots = update_slots(update);
    lemma_update_names(update);
    lemma_written_field(slots, 0);
    lemma_written_field(slots, 1);
    lemma_written_field(slots, 2);
    lemma_written_field(slots, 3);
    lemma_written_field(slots, 4);
    lemma_written_field(slots, 5);
    if update.message is Value {
        lemma_message_round_trip(update.message->Value_0);
    }
}

/// The envelope of a WebSocket update holds the identifier under `wsId` and
/// the update under `update`, and the update is read back from there as it
/// was.
pub proof fn lemma_envelope_members(envelope: WebSocketUpdateEnvelopeView)
    ensures
        envelope_json(envelope).field("wsId"@) == Some(JsonView::Str(envelope.ws_id)),
        envelope_json(envelope).field("update"@) == Some(update_json(envelope.update)),
        update_of(envelope_json(envelope).field("update"@)->Some_0) == Ok::<
            WebSocketUpdateView,
            DecodeError,
        >(envelope.update),
{
    let slots = envelope_slots(envelope);
    reveal_strlit("wsId");
    reveal_strlit("update");
    assert("wsId"@.len() == 4 && "update"@.len() == 6);
    assert(slots[0].0 == "wsId"@ && slots[1].0 == "update"@);
    lemma_written_field(slots, 0);
    lemma_written_field(slots, 1);
    lemma_update_round_trip(envelope.update);
}

} // verus!
