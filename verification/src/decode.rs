//! Decoding JSON documents into messages.
//!
//! A message is a JSON object. Members that the schema does not name are
//! ignored. A required member that is missing, or a member whose value has
//! the wrong type, makes the whole document undecodable. Members are checked
//! in the order of the schema, and the first failure is the one reported.

use crate::decode_laws::lemma_network_keys_distinct;
use crate::json::{lemma_items_view, Json, JsonView};
use crate::member::{
    get_data, get_entries, get_optional_entries, get_optional_text, get_patch_text,
    get_patch_u16, get_patch_u64, get_present, get_text, get_u16, get_u64, is_object,
    optional_entries, optional_text, patch_text, patch_u16, patch_u64, present, required_data,
    required_entries, required_text, required_u16, required_u64, same_text,
};
use crate::message::{
    message_list_view, messages_view, patch_message_view, ClientMessage, ClientMessageView,
    ConsoleLogEvent, ConsoleLogEventView, NetworkEvent, NetworkEventView, NetworkHeaders,
    NetworkHeadersView, Patch, WebSocketMessage, WebSocketMessageView, WebSocketUpdate,
    WebSocketUpdateView,
};
use vstd::prelude::*;

verus! {

/// Why a document could not be decoded.
#[derive(Debug, Clone, PartialEq, Eq)]
pub enum DecodeError {
    /// The text is not a JSON document.
    Malformed,
    /// A message, or a record inside one, is not a JSON object.
    NotAnObject,
    /// A required member is missing.
    MissingField(&'static str),
    /// A member holds a value of the wrong type or out of range.
    TypeMismatch(&'static str),
    /// The kind of a tagged message is none of the three known kinds.
    UnknownKind,
}

/// The console line that a document holds.
pub open spec fn console_of(doc: JsonView) -> Result<ConsoleLogEventView, DecodeError> {
    let level = required_text(doc, "level");
    let message = required_text(doc, "message");
    if !(doc is Object) {
        Err(DecodeError::NotAnObject)
    } else if level is Err {
        Err(level->Err_0)
    } else if message is Err {
        Err(message->Err_0)
    } else {
        Ok(ConsoleLogEventView { level: level->Ok_0, message: message->Ok_0 })
    }
}

/// Decodes a console line.
pub fn decode_console(doc: &Json) -> (r: Result<ConsoleLogEvent, DecodeError>)
    ensures
        (match r {
            Ok(event) => console_of(doc@) == Ok::<ConsoleLogEventView, DecodeError>(event@),
            Err(e) => console_of(doc@) == Err::<ConsoleLogEventView, DecodeError>(e),
        }),
{
    if !is_object(doc) {
        return Err(DecodeError::NotAnObject);
    }
    let level = get_text(doc, "level")?;
    let message = get_text(doc, "message")?;
    Ok(ConsoleLogEvent { level, message })
}

/// The headers that a document holds: the map `request` and the map
/// `response`.
pub open spec fn headers_of(doc: JsonView) -> Result<NetworkHeadersView, DecodeError> {
    let request = required_entries(doc, "request");
    let response = required_entries(doc, "response");
    if !(doc is Object) {
        Err(DecodeError::NotAnObject)
    } else if request is Err {
        Err(request->Err_0)
    } else if response is Err {
        Err(response->Err_0)
    } else {
        Ok(NetworkHeadersView { request: request->Ok_0, response: response->Ok_0 })
    }
}

/// Decodes the headers of a network event.
pub fn decode_headers(doc: &Json) -> (r: Result<NetworkHeaders, DecodeError>)
    ensures
        (match r {
            Ok(headers) => headers_of(doc@) == Ok::<NetworkHeadersView, DecodeError>(headers@),
            Err(e) => headers_of(doc@) == Err::<NetworkHeadersView, DecodeError>(e),
        }),
{
    if !is_object(doc) {
        return Err(DecodeError::NotAnObject);
    }
    let request = get_entries(doc, "request")?;
    let response = get_entries(doc, "response")?;
    Ok(NetworkHeaders { request, response })
}

/// The WebSocket message that a document holds.
pub open spec fn message_of(doc: JsonView) -> Result<WebSocketMessageView, DecodeError> {
    let id = required_text(doc, "id");
    let direction = required_text(doc, "direction");
    let data = required_text(doc, "data");
    let timestamp = required_u64(doc, "timestamp");
    if !(doc is Object) {
        Err(DecodeError::NotAnObject)
    } else if id is Err {
        Err(id->Err_0)
    } else if direction is Err {
        Err(direction->Err_0)
    } else if data is Err {
        Err(data->Err_0)
    } else if timestamp is Err {
        Err(timestamp->Err_0)
    } else {
        Ok(
            WebSocketMessageView {
                id: id->Ok_0,
                direction: direction->Ok_0,
                data: data->Ok_0,
                timestamp: timestamp->Ok_0,
            },
        )
    }
}

/// Decodes a WebSocket message.
pub fn decode_message(doc: &Json) -> (r: Result<WebSocketMessage, DecodeError>)
    ensures
        (match r {
            Ok(message) => message_of(doc@) == Ok::<WebSocketMessageView, DecodeError>(message@),
            Err(e) => message_of(doc@) == Err::<WebSocketMessageView, DecodeError>(e),
        }),
{
    if !is_object(doc) {
        return Err(DecodeError::NotAnObject);
    }
    let id = get_text(doc, "id")?;
    let direction = get_text(doc, "direction")?;
    let data = get_text(doc, "data")?;
    let timestamp = get_u64(doc, "timestamp")?;
    Ok(WebSocketMessage { id, direction, data, timestamp })
}

/// The messages that the items of an array hold, in order, or the failure
/// of the first item that holds none.
pub open spec fn message_items(items: Seq<JsonView>) -> Result<
    Seq<WebSocketMessageView>,
    DecodeError,
>
    decreases items.len(),
{
    if items.len() == 0 {
        Ok(Seq::empty())
    } else {
        match message_items(items.drop_last()) {
            Err(e) => Err(e),
            Ok(messages) => match message_of(items.last()) {
                Ok(message) => Ok(messages.push(message)),
                Err(e) => Err(e),
            },
        }
    }
}

/// A failure among the first items is the failure of the whole array.
proof fn lemma_message_items_prefix(items: Seq<JsonView>, n: int)
    requires
        0 <= n <= items.len(),
        message_items(items.take(n)) is Err,
    ensures
        message_items(items) == message_items(items.take(n)),
    decreases items.len(),
{
    if n < items.len() {
        assert(items.drop_last().take(n) =~= items.take(n));
        lemma_message_items_prefix(items.drop_last(), n);
    } else {
        assert(items.take(n) =~= items);
    }
}

/// A list of WebSocket messages, written as an array.
pub open spec fn message_list_of(value: JsonView, name: &'static str) -> Result<
    Seq<WebSocketMessageView>,
    DecodeError,
> {
    match value {
        JsonView::Array(items) => message_items(items),
        _ => Err(DecodeError::TypeMismatch(name)),
    }
}

/// Reads a list of WebSocket messages.
fn read_message_list(value: &Json, name: &'static str) -> (r: Result<
    Vec<WebSocketMessage>,
    DecodeError,
>)
    ensures
        (match r {
            Ok(list) => message_list_of(value@, name) == Ok::<
                Seq<WebSocketMessageView>,
                DecodeError,
            >(messages_view(list@)),
            Err(e) => message_list_of(value@, name) == Err::<
                Seq<WebSocketMessageView>,
                DecodeError,
            >(e),
        }),
{
    match value {
        Json::Array(items) => {
            let ghost all = value@->Array_0;
            proof {
                lemma_items_view(items@);
            }
            let mut list: Vec<WebSocketMessage> = Vec::new();
            let mut i: usize = 0;
            assert(messages_view(list@) =~= Seq::empty());
            while i < items.len()
                invariant
                    i <= items.len(),
                    all.len() == items.len(),
                    forall|k: int| 0 <= k < items.len() ==> #[trigger] all[k] == items[k]@,
                    value@ == JsonView::Array(all),
                    message_items(all.take(i as int)) == Ok::<
                        Seq<WebSocketMessageView>,
                        DecodeError,
                    >(messages_view(list@)),
                decreases items.len() - i,
            {
                proof {
                    assert(all.take(i + 1).drop_last() =~= all.take(i as int));
                }
                let ghost before = messages_view(list@);
                match decode_message(&items[i]) {
                    Ok(message) => {
                        list.push(message);
                        assert(messages_view(list@) =~= before.push(message@));
                    },
                    Err(e) => {
                        proof {
                            lemma_message_items_prefix(all, i + 1);
                        }
                        return Err(e);
                    },
                }
                i += 1;
            }
            proof {
                assert(all.take(i as int) =~= all);
            }
            Ok(list)
        },
        _ => Err(DecodeError::TypeMismatch(name)),
    }
}

/// The optional member `name`, a list of WebSocket messages: `None` where
/// it is missing or null.
pub open spec fn optional_message_list(doc: JsonView, name: &'static str) -> Result<
    Option<Seq<WebSocketMessageView>>,
    DecodeError,
> {
    match present(doc, name) {
        None => Ok(None),
        Some(value) => match message_list_of(value, name) {
            Ok(list) => Ok(Some(list)),
            Err(e) => Err(e),
        },
    }
}

/// Reads the optional member `name`, a list of WebSocket messages.
fn get_optional_message_list(doc: &Json, name: &'static str) -> (r: Result<
    Option<Vec<WebSocketMessage>>,
    DecodeError,
>)
    ensures
        (match r {
            Ok(list) => optional_message_list(doc@, name) == Ok::<
                Option<Seq<WebSocketMessageView>>,
                DecodeError,
            >(message_list_view(list)),
            Err(e) => optional_message_list(doc@, name) == Err::<
                Option<Seq<WebSocketMessageView>>,
                DecodeError,
            >(e),
        }),
{
    match get_present(doc, name) {
        None => Ok(None),
        Some(value) => {
            let list = read_message_list(value, name)?;
            Ok(Some(list))
        },
    }
}

/// The required member `headers`.
pub open spec fn required_headers(doc: JsonView) -> Result<NetworkHeadersView, DecodeError> {
    match doc.field("headers"@) {
        Some(value) => headers_of(value),
        None => Err(DecodeError::MissingField("headers")),
    }
}

/// Reads the required member `headers`.
fn get_headers(doc: &Json) -> (r: Result<NetworkHeaders, DecodeError>)
    ensures
        (match r {
            Ok(headers) => required_headers(doc@) == Ok::<NetworkHeadersView, DecodeError>(
                headers@,
            ),
            Err(e) => required_headers(doc@) == Err::<NetworkHeadersView, DecodeError>(e),
        }),
{
    match doc.field("headers") {
        Some(value) => decode_headers(value),
        None => Err(DecodeError::MissingField("headers")),
    }
}

/// The network event that a document holds.
pub open spec fn network_of(doc: JsonView) -> Result<NetworkEventView, DecodeError> {
    let id = required_text(doc, "id");
    let method = required_text(doc, "method");
    let url = required_text(doc, "url");
    let status = required_u16(doc, "status");
    let response_time = required_u64(doc, "responseTime");
    let headers = required_headers(doc);
    let cookies = optional_entries(doc, "cookies");
    let query_params = optional_entries(doc, "queryParams");
    let request_body = optional_text(doc, "requestBody");
    let response_body = required_text(doc, "responseBody");
    let kind = required_text(doc, "type");
    let ws_state = optional_text(doc, "wsState");
    let ws_messages = optional_message_list(doc, "wsMessages");
    if !(doc is Object) {
        Err(DecodeError::NotAnObject)
    } else if id is Err {
        Err(id->Err_0)
    } else if method is Err {
        Err(method->Err_0)
    } else if url is Err {
        Err(url->Err_0)
    } else if status is Err {
        Err(status->Err_0)
    } else if response_time is Err {
        Err(response_time->Err_0)
    } else if headers is Err {
        Err(headers->Err_0)
    } else if cookies is Err {
        Err(cookies->Err_0)
    } else if query_params is Err {
        Err(query_params->Err_0)
    } else if request_body is Err {
        Err(request_body->Err_0)
    } else if response_body is Err {
        Err(response_body->Err_0)
    } else if kind is Err {
        Err(kind->Err_0)
    } else if ws_state is Err {
        Err(ws_state->Err_0)
    } else if ws_messages is Err {
        Err(ws_messages->Err_0)
    } else {
        Ok(
            NetworkEventView {
                id: id->Ok_0,
                method: method->Ok_0,
                url: url->Ok_0,
                status: status->Ok_0,
                response_time: response_time->Ok_0,
                headers: headers->Ok_0,
                cookies: cookies->Ok_0,
                query_params: query_params->Ok_0,
                request_body: request_body->Ok_0,
                response_body: response_body->Ok_0,
                kind: kind->Ok_0,
                ws_state: ws_state->Ok_0,
                ws_messages: ws_messages->Ok_0,
            },
        )
    }
}

/// Decodes a network event.
pub fn decode_network(doc: &Json) -> (r: Result<NetworkEvent, DecodeError>)
    ensures
        (match r {
            Ok(event) => network_of(doc@) == Ok::<NetworkEventView, DecodeError>(event@),
            Err(e) => network_of(doc@) == Err::<NetworkEventView, DecodeError>(e),
        }),
        r matches Ok(event) ==> event@.keys_distinct(),
{
    proof {
        lemma_network_keys_distinct(doc@);
    }
    if !is_object(doc) {
        return Err(DecodeError::NotAnObject);
    }
    let id = get_text(doc, "id")?;
    let method = get_text(doc, "method")?;
    let url = get_text(doc, "url")?;
    let status = get_u16(doc, "status")?;
    let response_time = get_u64(doc, "responseTime")?;
    let headers = get_headers(doc)?;
    let cookies = get_optional_entries(doc, "cookies")?;
    let query_params = get_optional_entries(doc, "queryParams")?;
    let request_body = get_optional_text(doc, "requestBody")?;
    let response_body = get_text(doc, "responseBody")?;
    let kind = get_text(doc, "type")?;
    let ws_state = get_optional_text(doc, "wsState")?;
    let ws_messages = get_optional_message_list(doc, "wsMessages")?;
    Ok(
        NetworkEvent {
            id,
            method,
            url,
            status,
            response_time,
            headers,
            cookies,
            query_params,
            request_body,
            response_body,
            kind,
            ws_state,
            ws_messages,
        },
    )
}

/// The attribute `name` of a sparse update, a WebSocket message.
pub open spec fn patch_message(doc: JsonView, name: &'static str) -> Result<
    Patch<WebSocketMessageView>,
    DecodeError,
> {
    match doc.field(name@) {
        None => Ok(Patch::Absent),
        Some(JsonView::Null) => Ok(Patch::Null),
        Some(value) => match message_of(value) {
            Ok(message) => Ok(Patch::Value(message)),
            Err(e) => Err(e),
        },
    }
}

/// Reads the message attribute `name` of a sparse update.
fn get_patch_message(doc: &Json, name: &'static str) -> (r: Result<
    Patch<WebSocketMessage>,
    DecodeError,
>)
    ensures
        (match r {
            Ok(patch) => patch_message(doc@, name) == Ok::<
                Patch<WebSocketMessageView>,
                DecodeError,
            >(patch_message_view(patch)),
            Err(e) => patch_message(doc@, name) == Err::<Patch<WebSocketMessageView>, DecodeError>(
                e,
            ),
        }),
{
    match doc.field(name) {
        None => Ok(Patch::Absent),
        Some(Json::Null) => Ok(Patch::Null),
        Some(value) => {
            let message = decode_message(value)?;
            Ok(Patch::Value(message))
        },
    }
}

/// The WebSocket update that a document holds.
pub open spec fn update_of(doc: JsonView) -> Result<WebSocketUpdateView, DecodeError> {
    let state = patch_text(doc, "state");
    let status = patch_u16(doc, "status");
    let response_time = patch_u64(doc, "responseTime");
    let message = patch_message(doc, "message");
    let error = patch_text(doc, "error");
    let close_reason = patch_text(doc, "closeReason");
    if !(doc is Object) {
        Err(DecodeError::NotAnObject)
    } else if state is Err {
        Err(state->Err_0)
    } else if status is Err {
        Err(status->Err_0)
    } else if response_time is Err {
        Err(response_time->Err_0)
    } else if message is Err {
        Err(message->Err_0)
    } else if error is Err {
        Err(error->Err_0)
    } else if close_reason is Err {
        Err(close_reason->Err_0)
    } else {
        Ok(
            WebSocketUpdateView {
                state: state->Ok_0,
                status: status->Ok_0,
                response_time: response_time->Ok_0,
                message: message->Ok_0,
                error: error->Ok_0,
                close_reason: close_reason->Ok_0,
            },
        )
    }
}

/// Decodes a WebSocket update.
pub fn decode_update(doc: &Json) -> (r: Result<WebSocketUpdate, DecodeError>)
    ensures
        (match r {
            Ok(update) => update_of(doc@) == Ok::<WebSocketUpdateView, DecodeError>(update@),
            Err(e) => update_of(doc@) == Err::<WebSocketUpdateView, DecodeError>(e),
        }),
{
    if !is_object(doc) {
        return Err(DecodeError::NotAnObject);
    }
    let state = get_patch_text(doc, "state")?;
    let status = get_patch_u16(doc, "status")?;
    let response_time = get_patch_u64(doc, "responseTime")?;
    let message = get_patch_message(doc, "message")?;
    let error = get_patch_text(doc, "error")?;
    let close_reason = get_patch_text(doc, "closeReason")?;
    Ok(WebSocketUpdate { state, status, response_time, message, error, close_reason })
}

/// The message that a tagged document holds.
///
/// The member `type` names the kind: `network`, `console` or
/// `websocket-update`. The member `data` holds the event or the update. An
/// update needs the member `wsId` beside them.
pub open spec fn tagged_of(doc: JsonView) -> Result<ClientMessageView, DecodeError> {
    let kind = required_text(doc, "type");
    let data = required_data(doc);
    let ws_id = required_text(doc, "wsId");
    if !(doc is Object) {
        Err(DecodeError::NotAnObject)
    } else if kind is Err {
        Err(kind->Err_0)
    } else if kind->Ok_0 == "network"@ {
        if data is Err {
            Err(data->Err_0)
        } else {
            match network_of(data->Ok_0) {
                Ok(event) => Ok(ClientMessageView::Network(event)),
                Err(e) => Err(e),
            }
        }
    } else if kind->Ok_0 == "console"@ {
        if data is Err {
            Err(data->Err_0)
        } else {
            match console_of(data->Ok_0) {
                Ok(event) => Ok(ClientMessageView::Console(event)),
                Err(e) => Err(e),
            }
        }
    } else if kind->Ok_0 == "websocket-update"@ {
        if ws_id is Err {
            Err(ws_id->Err_0)
        } else if data is Err {
            Err(data->Err_0)
        } else {
            match update_of(data->Ok_0) {
                Ok(update) => Ok(
                    ClientMessageView::WebSocketUpdate { ws_id: ws_id->Ok_0, update },
                ),
                Err(e) => Err(e),
            }
        }
    } else {
        Err(DecodeError::UnknownKind)
    }
}

/// Decodes a tagged message.
pub fn decode_tagged(doc: &Json) -> (r: Result<ClientMessage, DecodeError>)
    ensures
        (match r {
            Ok(message) => tagged_of(doc@) == Ok::<ClientMessageView, DecodeError>(message@),
            Err(e) => tagged_of(doc@) == Err::<ClientMessageView, DecodeError>(e),
        }),
{
    if !is_object(doc) {
        return Err(DecodeError::NotAnObject);
    }
    let kind = get_text(doc, "type")?;
    if same_text(&kind, "network") {
        let data = get_data(doc)?;
        let event = decode_network(data)?;
        Ok(ClientMessage::Network(event))
    } else if same_text(&kind, "console") {
        let data = get_data(doc)?;
        let event = decode_console(data)?;
        Ok(ClientMessage::Console(event))
    } else if same_text(&kind, "websocket-update") {
        let ws_id = get_text(doc, "wsId")?;
        let data = get_data(doc)?;
        let update = decode_update(data)?;
        Ok(ClientMessage::WebSocketUpdate { ws_id, update })
    } else {
        Err(DecodeError::UnknownKind)
    }
}

} // verus!
