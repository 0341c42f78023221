use dev_lens_relay::decode::{
    decode_console, decode_headers, decode_message, decode_network, decode_update,
};
use dev_lens_relay::encode::{
    encode_console, encode_entries, encode_envelope, encode_headers, encode_message,
    encode_message_list, encode_network, encode_payload, encode_update,
};
use dev_lens_relay::json::Json;
use dev_lens_relay::message::{
    ConsoleLogEvent, NetworkEvent, NetworkHeaders, Patch, WebSocketMessage, WebSocketUpdate,
};
use dev_lens_relay::router::{Payload, WebSocketUpdateEnvelope};
use dev_lens_relay::string_map::StringMap;
use dev_lens_relay::text::parse_json;

fn text(s: &str) -> Json {
    Json::Str(s.to_string())
}

fn member(name: &str, value: Json) -> (String, Json) {
    (name.to_string(), value)
}

fn map(entries: &[(&str, &str)]) -> StringMap {
    let mut m = StringMap::new();
    for (k, v) in entries {
        m.insert(k.to_string(), v.to_string());
    }
    m
}

fn message(id: &str, timestamp: u64) -> WebSocketMessage {
    WebSocketMessage {
        id: id.to_string(),
        direction: "sent".to_string(),
        data: "payload \"quoted\"".to_string(),
        timestamp,
    }
}

fn full_event() -> NetworkEvent {
    NetworkEvent {
        id: "req-9".to_string(),
        method: "PUT".to_string(),
        url: "wss://example.test/socket".to_string(),
        status: 101,
        response_time: 250,
        headers: NetworkHeaders {
            request: map(&[("Upgrade", "websocket"), ("Connection", "Upgrade")]),
            response: map(&[("Sec-WebSocket-Accept", "x")]),
        },
        cookies: Some(map(&[("b", "2"), ("a", "1")])),
        query_params: Some(map(&[])),
        request_body: Some(String::new()),
        response_body: "body".to_string(),
        kind: "websocket".to_string(),
        ws_state: Some("open".to_string()),
        ws_messages: Some(vec![message("m1", 1), message("m2", u64::MAX)]),
    }
}

fn minimal_event() -> NetworkEvent {
    NetworkEvent {
        id: String::new(),
        method: "GET".to_string(),
        url: "/".to_string(),
        status: 0,
        response_time: 0,
        headers: NetworkHeaders {
            request: StringMap::new(),
            response: StringMap::new(),
        },
        cookies: None,
        query_params: None,
        request_body: None,
        response_body: String::new(),
        kind: "xhr".to_string(),
        ws_state: None,
        ws_messages: None,
    }
}

#[test]
fn network_event_survives_encoding_and_decoding() {
    for event in [full_event(), minimal_event()] {
        assert_eq!(decode_network(&encode_network(&event)), Ok(event));
    }
}

#[test]
fn network_event_is_written_in_schema_order_without_absent_members() {
    assert_eq!(
        encode_network(&minimal_event()),
        Json::Object(vec![
            member("id", text("")),
            member("method", text("GET")),
            member("url", text("/")),
            member("status", Json::Unsigned(0)),
            member("responseTime", Json::Unsigned(0)),
            member(
                "headers",
                Json::Object(vec![
                    member("request", Json::Object(vec![])),
                    member("response", Json::Object(vec![])),
                ])
            ),
            member("responseBody", text("")),
            member("type", text("xhr")),
        ])
    );
}

#[test]
fn full_network_event_is_written_with_every_member() {
    let json = encode_network(&full_event());
    let names: Vec<String> = match &json {
        Json::Object(members) => members.iter().map(|(name, _)| name.clone()).collect(),
        other => panic!("not an object: {:?}", other),
    };
    assert_eq!(
        names,
        vec![
            "id",
            "method",
            "url",
            "status",
            "responseTime",
            "headers",
            "cookies",
            "queryParams",
            "requestBody",
            "responseBody",
            "type",
            "wsState",
            "wsMessages"
        ]
    );
    assert_eq!(json.field("status"), Some(&Json::Unsigned(101)));
    assert_eq!(
        json.field("cookies"),
        Some(&Json::Object(vec![
            member("b", text("2")),
            member("a", text("1"))
        ]))
    );
    assert_eq!(json.field("queryParams"), Some(&Json::Object(vec![])));
    assert_eq!(json.field("requestBody"), Some(&text("")));
}

#[test]
fn decoded_text_is_encoded_back_member_for_member() {
    let source = "{\"id\":\"a\",\"method\":\"GET\",\"url\":\"/\",\"status\":204,\
        \"responseTime\":3,\"headers\":{\"request\":{},\"response\":{\"x\":\"y\"}},\
        \"responseBody\":\"\",\"type\":\"fetch\",\"unknown\":[1,2]}";
    let event = decode_network(&parse_json(source).unwrap()).unwrap();
    let again = decode_network(&encode_network(&event)).unwrap();
    assert_eq!(event, again);
    assert_eq!(encode_network(&event).field("unknown"), None);
}

#[test]
fn message_survives_encoding_and_decoding() {
    let m = message("m", 123456789);
    assert_eq!(
        encode_message(&m),
        Json::Object(vec![
            member("id", text("m")),
            member("direction", text("sent")),
            member("data", text("payload \"quoted\"")),
            member("timestamp", Json::Unsigned(123456789)),
        ])
    );
    assert_eq!(decode_message(&encode_message(&m)), Ok(m));
}

#[test]
fn message_list_is_written_as_an_array_in_order() {
    let list = vec![message("a", 1), message("b", 2)];
    assert_eq!(
        encode_message_list(&list),
        Json::Array(vec![encode_message(&list[0]), encode_message(&list[1])])
    );
    assert_eq!(encode_message_list(&vec![]), Json::Array(vec![]));
}

#[test]
fn map_is_written_entry_for_entry() {
    assert_eq!(
        encode_entries(&map(&[("b", "2"), ("a", "1")])),
        Json::Object(vec![member("b", text("2")), member("a", text("1"))])
    );
    assert_eq!(encode_entries(&StringMap::new()), Json::Object(vec![]));
}

#[test]
fn headers_survive_encoding_and_decoding() {
    let headers = NetworkHeaders {
        request: map(&[("A", "1"), ("a", "2")]),
        response: map(&[("Z", "")]),
    };
    assert_eq!(decode_headers(&encode_headers(&headers)), Ok(headers));
}

#[test]
fn console_line_survives_encoding_and_decoding() {
    let event = ConsoleLogEvent {
        level: "debug".to_string(),
        message: "line\nbreak".to_string(),
    };
    assert_eq!(
        encode_console(&event),
        Json::Object(vec![
            member("level", text("debug")),
            member("message", text("line\nbreak")),
        ])
    );
    assert_eq!(decode_console(&encode_console(&event)), Ok(event));
}

fn mixed_update() -> WebSocketUpdate {
    WebSocketUpdate {
        state: Patch::Value("closing".to_string()),
        status: Patch::Null,
        response_time: Patch::Value(77),
        message: Patch::Value(message("m", 5)),
        error: Patch::Absent,
        close_reason: Patch::Value(String::new()),
    }
}

#[test]
fn update_survives_encoding_and_decoding() {
    let absent = WebSocketUpdate {
        state: Patch::Absent,
        status: Patch::Absent,
        response_time: Patch::Absent,
        message: Patch::Absent,
        error: Patch::Absent,
        close_reason: Patch::Absent,
    };
    let null = WebSocketUpdate {
        state: Patch::Null,
        status: Patch::Null,
        response_time: Patch::Null,
        message: Patch::Null,
        error: Patch::Null,
        close_reason: Patch::Null,
    };
    let set = WebSocketUpdate {
        state: Patch::Value("open".to_string()),
        status: Patch::Value(u16::MAX),
        response_time: Patch::Value(u64::MAX),
        message: Patch::Value(message("m", 0)),
        error: Patch::Value("e".to_string()),
        close_reason: Patch::Value("r".to_string()),
    };
    for update in [absent, null, set, mixed_update()] {
        assert_eq!(decode_update(&encode_update(&update)), Ok(update));
    }
}

#[test]
fn update_writes_null_members_and_omits_absent_ones() {
    assert_eq!(
        encode_update(&mixed_update()),
        Json::Object(vec![
            member("state", text("closing")),
            member("status", Json::Null),
            member("responseTime", Json::Unsigned(77)),
            member("message", encode_message(&message("m", 5))),
            member("closeReason", text("")),
        ])
    );
}

#[test]
fn envelope_holds_identifier_and_update() {
    let envelope = WebSocketUpdateEnvelope {
        ws_id: "ws-1".to_string(),
        update: mixed_update(),
    };
    let json = encode_envelope(&envelope);
    assert_eq!(
        json,
        Json::Object(vec![
            member("wsId", text("ws-1")),
            member("update", encode_update(&mixed_update())),
        ])
    );
    assert_eq!(
        decode_update(json.field("update").unwrap()),
        Ok(mixed_update())
    );
}

#[test]
fn payload_is_encoded_by_its_kind() {
    assert_eq!(
        encode_payload(&Payload::Network(full_event())),
        encode_network(&full_event())
    );
    let line = ConsoleLogEvent {
        level: "info".to_string(),
        message: "m".to_string(),
    };
    assert_eq!(
        encode_payload(&Payload::Console(line.clone())),
        encode_console(&line)
    );
    let envelope = WebSocketUpdateEnvelope {
        ws_id: "w".to_string(),
        update: mixed_update(),
    };
    assert_eq!(
        encode_payload(&Payload::WebSocketUpdate(envelope.clone())),
        encode_envelope(&envelope)
    );
}
