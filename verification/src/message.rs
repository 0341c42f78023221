//! The messages that an instrumented page sends, and their mathematical
//! values.

use crate::string_map::{distinct_keys, Entries, StringMap};
use vstd::prelude::*;

verus! {

/// The value of an optional text.
pub open spec fn text_view(text: Option<String>) -> Option<Seq<char>> {
    match text {
        Some(s) => Some(s@),
        None => None,
    }
}

/// The value of an optional map.
pub open spec fn entries_view(map: Option<StringMap>) -> Option<Entries> {
    match map {
        Some(m) => Some(m@),
        None => None,
    }
}

/// One message that went over a WebSocket connection of the page.
#[derive(Debug, Clone, PartialEq, Eq)]
pub struct WebSocketMessage {
    pub id: String,
    /// Whether the page sent or received the message, as the page wrote it.
    pub direction: String,
    /// The payload as text.
    pub data: String,
    /// Milliseconds since the epoch.
    pub timestamp: u64,
}

pub struct WebSocketMessageView {
    pub id: Seq<char>,
    pub direction: Seq<char>,
    pub data: Seq<char>,
    pub timestamp: u64,
}

impl View for WebSocketMessage {
    type V = WebSocketMessageView;

    open spec fn view(&self) -> WebSocketMessageView {
        WebSocketMessageView {
            id: self.id@,
            direction: self.direction@,
            data: self.data@,
            timestamp: self.timestamp,
        }
    }
}

/// The values of a sequence of messages, one by one.
pub open spec fn messages_view(messages: Seq<WebSocketMessage>) -> Seq<WebSocketMessageView> {
    Seq::new(messages.len(), |i: int| messages[i]@)
}

/// The value of an optional list of messages.
pub open spec fn message_list_view(list: Option<Vec<WebSocketMessage>>) -> Option<
    Seq<WebSocketMessageView>,
> {
    match list {
        Some(messages) => Some(messages_view(messages@)),
        None => None,
    }
}

/// The headers of a request and of its response.
#[derive(Debug, Clone, PartialEq, Eq)]
pub struct NetworkHeaders {
    pub request: StringMap,
    pub response: StringMap,
}

pub struct NetworkHeadersView {
    pub request: Entries,
    pub response: Entries,
}

impl View for NetworkHeaders {
    type V = NetworkHeadersView;

    open spec fn view(&self) -> NetworkHeadersView {
        NetworkHeadersView { request: self.request@, response: self.response@ }
    }
}

/// One network request that the page made, with its response.
#[derive(Debug, Clone, PartialEq, Eq)]
pub struct NetworkEvent {
    pub id: String,
    pub method: String,
    pub url: String,
    pub status: u16,
    /// Milliseconds between request and response.
    pub response_time: u64,
    pub headers: NetworkHeaders,
    pub cookies: Option<StringMap>,
    pub query_params: Option<StringMap>,
    pub request_body: Option<String>,
    pub response_body: String,
    /// How the request was made, such as `xhr`, `fetch` or `websocket`.
    pub kind: String,
    pub ws_state: Option<String>,
    pub ws_messages: Option<Vec<WebSocketMessage>>,
}

pub struct NetworkEventView {
    pub id: Seq<char>,
    pub method: Seq<char>,
    pub url: Seq<char>,
    pub status: u16,
    pub response_time: u64,
    pub headers: NetworkHeadersView,
    pub cookies: Option<Entries>,
    pub query_params: Option<Entries>,
    pub request_body: Option<Seq<char>>,
    pub response_body: Seq<char>,
    pub kind: Seq<char>,
    pub ws_state: Option<Seq<char>>,
    pub ws_messages: Option<Seq<WebSocketMessageView>>,
}

impl NetworkEventView {
    /// In each map of the event, no key occurs twice.
    pub open spec fn keys_distinct(self) -> bool {
        &&& distinct_keys(self.headers.request)
        &&& distinct_keys(self.headers.response)
        &&& self.cookies matches Some(cookies) ==> distinct_keys(cookies)
        &&& self.query_params matches Some(query_params) ==> distinct_keys(query_params)
    }

    /// The WebSocket members are in keeping with the rest: messages come
    /// only with a state, and a state only on an event of kind `websocket`.
    pub open spec fn socket_members_fit(self) -> bool {
        &&& self.ws_messages is Some ==> self.ws_state is Some
        &&& self.ws_state is Some ==> self.kind == "websocket"@
    }
}

impl NetworkEvent {
    /// Whether the WebSocket members are in keeping with the rest of the
    /// event. The relay carries an event through either way; the test is
    /// for those who read the event.
    pub fn socket_members_fit(&self) -> (fit: bool)
        ensures
            fit == self@.socket_members_fit(),
    {
        let of_socket = self.kind == "websocket".to_owned();
        let messages_with_state = self.ws_messages.is_none() || self.ws_state.is_some();
        let state_on_socket = self.ws_state.is_none() || of_socket;
        messages_with_state && state_on_socket
    }
}

impl View for NetworkEvent {
    type V = NetworkEventView;

    open spec fn view(&self) -> NetworkEventView {
        NetworkEventView {
            id: self.id@,
            method: self.method@,
            url: self.url@,
            status: self.status,
            response_time: self.response_time,
            headers: self.headers@,
            cookies: entries_view(self.cookies),
            query_params: entries_view(self.query_params),
            request_body: text_view(self.request_body),
            response_body: self.response_body@,
            kind: self.kind@,
            ws_state: text_view(self.ws_state),
            ws_messages: message_list_view(self.ws_messages),
        }
    }
}

/// One line that the page wrote to its console.
#[derive(Debug, Clone, PartialEq, Eq)]
pub struct ConsoleLogEvent {
    /// The severity, as the page wrote it.
    pub level: String,
    pub message: String,
}

pub struct ConsoleLogEventView {
    pub level: Seq<char>,
    pub message: Seq<char>,
}

impl View for ConsoleLogEvent {
    type V = ConsoleLogEventView;

    open spec fn view(&self) -> ConsoleLogEventView {
        ConsoleLogEventView { level: self.level@, message: self.message@ }
    }
}

/// One attribute of a sparse update.
///
/// `Absent` means that the update says nothing of the attribute; `Null` that
/// it names the attribute and gives it no value. The two are kept apart.
#[derive(Debug, Clone, PartialEq, Eq)]
pub enum Patch<T> {
    Absent,
    Null,
    Value(T),
}

/// The value of a text attribute.
pub open spec fn patch_text_view(patch: Patch<String>) -> Patch<Seq<char>> {
    match patch {
        Patch::Absent => Patch::Absent,
        Patch::Null => Patch::Null,
        Patch::Value(s) => Patch::Value(s@),
    }
}

/// The value of a message attribute.
pub open spec fn patch_message_view(patch: Patch<WebSocketMessage>) -> Patch<
    WebSocketMessageView,
> {
    match patch {
        Patch::Absent => Patch::Absent,
        Patch::Null => Patch::Null,
        Patch::Value(m) => Patch::Value(m@),
    }
}

/// What changed on a WebSocket connection that was reported before as a
/// network event. Which connection is meant is told beside the update, by an
/// identifier that the relay carries through unread.
#[derive(Debug, Clone, PartialEq, Eq)]
pub struct WebSocketUpdate {
    pub state: Patch<String>,
    pub status: Patch<u16>,
    pub response_time: Patch<u64>,
    /// One new message to append.
    pub message: Patch<WebSocketMessage>,
    pub error: Patch<String>,
    pub close_reason: Patch<String>,
}

pub struct WebSocketUpdateView {
    pub state: Patch<Seq<char>>,
    pub status: Patch<u16>,
    pub response_time: Patch<u64>,
    pub message: Patch<WebSocketMessageView>,
    pub error: Patch<Seq<char>>,
    pub close_reason: Patch<Seq<char>>,
}

impl View for WebSocketUpdate {
    type V = WebSocketUpdateView;

    open spec fn view(&self) -> WebSocketUpdateView {
        WebSocketUpdateView {
            state: patch_text_view(self.state),
            status: self.status,
            response_time: self.response_time,
            message: patch_message_view(self.message),
            error: patch_text_view(self.error),
            close_reason: patch_text_view(self.close_reason),
        }
    }
}

/// A decoded message of one of the three kinds.
#[derive(Debug, Clone, PartialEq, Eq)]
pub enum ClientMessage {
    Network(NetworkEvent),
    Console(ConsoleLogEvent),
    WebSocketUpdate { ws_id: String, update: WebSocketUpdate },
}

pub enum ClientMessageView {
    Network(NetworkEventView),
    Console(ConsoleLogEventView),
    WebSocketUpdate { ws_id: Seq<char>, update: WebSocketUpdateView },
}

impl View for ClientMessage {
    type V = ClientMessageView;

    open spec fn view(&self) -> ClientMessageView {
        match self {
            ClientMessage::Network(event) => ClientMessageView::Network(event@),
            ClientMessage::Console(event) => ClientMessageView::Console(event@),
            ClientMessage::WebSocketUpdate { ws_id, update } => ClientMessageView::WebSocketUpdate {
                ws_id: ws_id@,
                update: update@,
            },
        }
    }
}

} // verus!
