use dev_lens_relay::decode::{
    decode_console, decode_headers, decode_message, decode_network, decode_tagged, decode_update,
    DecodeError,
};
use dev_lens_relay::json::Json;
use dev_lens_relay::message::{
    ClientMessage, ConsoleLogEvent, NetworkEvent, NetworkHeaders, Patch, WebSocketMessage,
    WebSocketUpdate,
};
use dev_lens_relay::string_map::StringMap;
use dev_lens_relay::text::parse_json;

const FULL_NETWORK: &str = r#"{
    "id": "req-1",
    "method": "POST",
    "url": "https://example.test/api?x=1",
    "status": 201,
    "responseTime": 37,
    "headers": {
        "request": {"Accept": "*/*"},
        "response": {"Content-Type": "application/json", "X-Trace": "abc"}
    },
    "cookies": {"session": "s1"},
    "queryParams": {"x": "1"},
    "requestBody": "{\"a\":1}",
    "responseBody": "{\"ok\":true}",
    "type": "websocket",
    "wsState": "open",
    "wsMessages": [
        {"id": "m1", "direction": "sent", "data": "ping", "timestamp": 1700000000000},
        {"id": "m2", "direction": "received", "data": "pong", "timestamp": 1700000000001}
    ]
}"#;

const MINIMAL_NETWORK: &str = r#"{
    "id": "req-2",
    "method": "GET",
    "url": "/",
    "status": 200,
    "responseTime": 0,
    "headers": {"request": {}, "response": {}},
    "responseBody": "",
    "type": "fetch"
}"#;

fn doc(text: &str) -> Json {
    parse_json(text).expect("the test text is JSON")
}

fn map(entries: &[(&str, &str)]) -> StringMap {
    let mut m = StringMap::new();
    for (k, v) in entries {
        m.insert(k.to_string(), v.to_string());
    }
    m
}

fn without(text: &str, name: &str) -> Json {
    match doc(text) {
        Json::Object(members) => {
            Json::Object(members.into_iter().filter(|(k, _)| k != name).collect())
        }
        other => other,
    }
}

fn with(text: &str, name: &str, value: Json) -> Json {
    match doc(text) {
        Json::Object(mut members) => {
            members.push((name.to_string(), value));
            Json::Object(members)
        }
        other => other,
    }
}

#[test]
fn decodes_full_network_event() {
    let event = decode_network(&doc(FULL_NETWORK)).unwrap();
    assert_eq!(event.id, "req-1");
    assert_eq!(event.method, "POST");
    assert_eq!(event.url, "https://example.test/api?x=1");
    assert_eq!(event.status, 201);
    assert_eq!(event.response_time, 37);
    assert_eq!(event.headers.request, map(&[("Accept", "*/*")]));
    assert_eq!(event.headers.response.len(), 2);
    assert_eq!(
        event.headers.response.get("Content-Type"),
        Some(&"application/json".to_string())
    );
    assert_eq!(event.headers.response.get("X-Trace"), Some(&"abc".to_string()));
    assert_eq!(event.cookies, Some(map(&[("session", "s1")])));
    assert_eq!(event.query_params, Some(map(&[("x", "1")])));
    assert_eq!(event.request_body, Some("{\"a\":1}".to_string()));
    assert_eq!(event.response_body, "{\"ok\":true}");
    assert_eq!(event.kind, "websocket");
    assert_eq!(event.ws_state, Some("open".to_string()));
    assert_eq!(
        event.ws_messages,
        Some(vec![
            WebSocketMessage {
                id: "m1".to_string(),
                direction: "sent".to_string(),
                data: "ping".to_string(),
                timestamp: 1700000000000,
            },
            WebSocketMessage {
                id: "m2".to_string(),
                direction: "received".to_string(),
                data: "pong".to_string(),
                timestamp: 1700000000001,
            },
        ])
    );
}

#[test]
fn decodes_minimal_network_event() {
    let event = decode_network(&doc(MINIMAL_NETWORK)).unwrap();
    assert_eq!(
        event,
        NetworkEvent {
            id: "req-2".to_string(),
            method: "GET".to_string(),
            url: "/".to_string(),
            status: 200,
            response_time: 0,
            headers: NetworkHeaders {
                request: StringMap::new(),
                response: StringMap::new(),
            },
            cookies: None,
            query_params: None,
            request_body: None,
            response_body: String::new(),
            kind: "fetch".to_string(),
            ws_state: None,
            ws_messages: None,
        }
    );
}

#[test]
fn network_event_without_id_is_refused() {
    assert_eq!(
        decode_network(&without(MINIMAL_NETWORK, "id")),
        Err(DecodeError::MissingField("id"))
    );
}

#[test]
fn each_required_member_of_a_network_event_is_needed() {
    for name in [
        "id",
        "method",
        "url",
        "status",
        "responseTime",
        "headers",
        "responseBody",
        "type",
    ] {
        assert_eq!(
            decode_network(&without(FULL_NETWORK, name)),
            Err(DecodeError::MissingField(name)),
            "without {}",
            name
        );
    }
}

#[test]
fn each_optional_member_of_a_network_event_may_be_missing() {
    for name in ["cookies", "queryParams", "requestBody", "wsState", "wsMessages"] {
        assert!(
            decode_network(&without(FULL_NETWORK, name)).is_ok(),
            "without {}",
            name
        );
    }
}

#[test]
fn null_optional_members_decode_as_absent() {
    let mut d = doc(MINIMAL_NETWORK);
    for name in ["cookies", "queryParams", "requestBody", "wsState", "wsMessages"] {
        d = match d {
            Json::Object(mut members) => {
                members.push((name.to_string(), Json::Null));
                Json::Object(members)
            }
            other => other,
        };
    }
    assert_eq!(decode_network(&d), decode_network(&doc(MINIMAL_NETWORK)));
}

#[test]
fn null_required_member_is_a_type_mismatch() {
    assert_eq!(
        decode_network(&with(MINIMAL_NETWORK, "url", Json::Null)),
        Err(DecodeError::TypeMismatch("url"))
    );
}

#[test]
fn first_failure_in_schema_order_is_reported() {
    let d = with(
        &MINIMAL_NETWORK.replace("\"method\": \"GET\",", ""),
        "id",
        Json::Unsigned(7),
    );
    assert_eq!(decode_network(&d), Err(DecodeError::TypeMismatch("id")));
    let d = with(
        &MINIMAL_NETWORK.replace("\"method\": \"GET\",", ""),
        "status",
        Json::Null,
    );
    assert_eq!(decode_network(&d), Err(DecodeError::MissingField("method")));
}

#[test]
fn unknown_members_are_ignored() {
    let d = with(
        MINIMAL_NETWORK,
        "initiator",
        Json::Object(vec![("line".to_string(), Json::OtherNumber)]),
    );
    assert_eq!(decode_network(&d), decode_network(&doc(MINIMAL_NETWORK)));
}

#[test]
fn status_sent_as_text_is_a_type_mismatch() {
    assert_eq!(
        decode_network(&with(MINIMAL_NETWORK, "status", Json::Str("200".to_string()))),
        Err(DecodeError::TypeMismatch("status"))
    );
}

#[test]
fn status_must_fit_sixteen_bits() {
    let ok = decode_network(&with(MINIMAL_NETWORK, "status", Json::Unsigned(65535))).unwrap();
    assert_eq!(ok.status, 65535);
    assert_eq!(
        decode_network(&with(MINIMAL_NETWORK, "status", Json::Unsigned(65536))),
        Err(DecodeError::TypeMismatch("status"))
    );
    assert_eq!(
        decode_network(&with(MINIMAL_NETWORK, "status", Json::OtherNumber)),
        Err(DecodeError::TypeMismatch("status"))
    );
}

#[test]
fn fractional_status_in_text_is_refused() {
    let text = MINIMAL_NETWORK.replace("\"status\": 200", "\"status\": 200.0");
    assert_eq!(
        decode_network(&doc(&text)),
        Err(DecodeError::TypeMismatch("status"))
    );
    let text = MINIMAL_NETWORK.replace("\"status\": 200", "\"status\": -200");
    assert_eq!(
        decode_network(&doc(&text)),
        Err(DecodeError::TypeMismatch("status"))
    );
}

#[test]
fn response_time_takes_the_whole_range() {
    let event =
        decode_network(&with(MINIMAL_NETWORK, "responseTime", Json::Unsigned(u64::MAX))).unwrap();
    assert_eq!(event.response_time, u64::MAX);
}

#[test]
fn network_event_must_be_an_object() {
    assert_eq!(decode_network(&Json::Null), Err(DecodeError::NotAnObject));
    assert_eq!(
        decode_network(&Json::Array(vec![])),
        Err(DecodeError::NotAnObject)
    );
    assert_eq!(
        decode_network(&Json::Str("x".to_string())),
        Err(DecodeError::NotAnObject)
    );
    assert_eq!(
        decode_network(&Json::Object(vec![])),
        Err(DecodeError::MissingField("id"))
    );
}

#[test]
fn headers_need_both_maps() {
    assert_eq!(
        decode_headers(&doc("{\"request\": {}}")),
        Err(DecodeError::MissingField("response"))
    );
    assert_eq!(
        decode_headers(&doc("{\"response\": {}}")),
        Err(DecodeError::MissingField("request"))
    );
    assert_eq!(decode_headers(&doc("[]")), Err(DecodeError::NotAnObject));
    assert_eq!(
        decode_network(&with(MINIMAL_NETWORK, "headers", Json::Str("h".to_string()))),
        Err(DecodeError::NotAnObject)
    );
}

#[test]
fn header_values_must_be_text() {
    assert_eq!(
        decode_headers(&doc("{\"request\": {\"a\": 1}, \"response\": {}}")),
        Err(DecodeError::TypeMismatch("request"))
    );
    assert_eq!(
        decode_headers(&doc("{\"request\": {}, \"response\": {\"a\": \"x\", \"b\": null}}")),
        Err(DecodeError::TypeMismatch("response"))
    );
    assert_eq!(
        decode_headers(&doc("{\"request\": [], \"response\": {}}")),
        Err(DecodeError::TypeMismatch("request"))
    );
}

#[test]
fn repeated_header_keeps_last_value_and_first_place() {
    let headers = decode_headers(&Json::Object(vec![
        (
            "request".to_string(),
            Json::Object(vec![
                ("a".to_string(), Json::Str("1".to_string())),
                ("b".to_string(), Json::Str("2".to_string())),
                ("a".to_string(), Json::Str("3".to_string())),
            ]),
        ),
        ("response".to_string(), Json::Object(vec![])),
    ]))
    .unwrap();
    assert_eq!(headers.request, map(&[("a", "3"), ("b", "2")]));
    assert_eq!(
        headers.request.entries(),
        &vec![
            ("a".to_string(), "3".to_string()),
            ("b".to_string(), "2".to_string())
        ]
    );
}

#[test]
fn header_keys_keep_their_case() {
    let headers = decode_headers(&doc(
        "{\"request\": {\"Accept\": \"a\", \"accept\": \"b\"}, \"response\": {}}",
    ))
    .unwrap();
    assert_eq!(headers.request.len(), 2);
    assert_eq!(headers.request.get("Accept"), Some(&"a".to_string()));
    assert_eq!(headers.request.get("accept"), Some(&"b".to_string()));
}

#[test]
fn cookies_must_be_a_map_of_text() {
    assert_eq!(
        decode_network(&with(MINIMAL_NETWORK, "cookies", Json::Str("a=b".to_string()))),
        Err(DecodeError::TypeMismatch("cookies"))
    );
    assert_eq!(
        decode_network(&with(
            MINIMAL_NETWORK,
            "queryParams",
            Json::Object(vec![("n".to_string(), Json::Unsigned(1))])
        )),
        Err(DecodeError::TypeMismatch("queryParams"))
    );
}

#[test]
fn ws_messages_must_be_an_array_of_messages() {
    assert_eq!(
        decode_network(&with(MINIMAL_NETWORK, "wsMessages", Json::Object(vec![]))),
        Err(DecodeError::TypeMismatch("wsMessages"))
    );
    assert_eq!(
        decode_network(&with(
            MINIMAL_NETWORK,
            "wsMessages",
            Json::Array(vec![Json::Unsigned(1)])
        )),
        Err(DecodeError::NotAnObject)
    );
    let event =
        decode_network(&with(MINIMAL_NETWORK, "wsMessages", Json::Array(vec![]))).unwrap();
    assert_eq!(event.ws_messages, Some(vec![]));
}

#[test]
fn first_bad_ws_message_is_reported() {
    let d = with(
        MINIMAL_NETWORK,
        "wsMessages",
        doc(
            "[{\"id\":\"a\",\"direction\":\"sent\",\"data\":\"\",\"timestamp\":1},\
              {\"id\":\"b\",\"direction\":\"sent\",\"timestamp\":2},\
              {\"direction\":\"sent\",\"data\":\"\",\"timestamp\":3}]",
        ),
    );
    assert_eq!(decode_network(&d), Err(DecodeError::MissingField("data")));
}

#[test]
fn decodes_ws_message() {
    assert_eq!(
        decode_message(&doc(
            "{\"id\":\"m\",\"direction\":\"received\",\"data\":\"{}\",\"timestamp\":5,\"x\":1}"
        )),
        Ok(WebSocketMessage {
            id: "m".to_string(),
            direction: "received".to_string(),
            data: "{}".to_string(),
            timestamp: 5,
        })
    );
}

#[test]
fn ws_message_failures() {
    assert_eq!(
        decode_message(&doc("{\"direction\":\"s\",\"data\":\"\",\"timestamp\":5}")),
        Err(DecodeError::MissingField("id"))
    );
    assert_eq!(
        decode_message(&doc("{\"id\":\"m\",\"data\":\"\",\"timestamp\":5}")),
        Err(DecodeError::MissingField("direction"))
    );
    assert_eq!(
        decode_message(&doc("{\"id\":\"m\",\"direction\":\"s\",\"data\":\"\"}")),
        Err(DecodeError::MissingField("timestamp"))
    );
    assert_eq!(
        decode_message(&doc(
            "{\"id\":\"m\",\"direction\":\"s\",\"data\":\"\",\"timestamp\":\"5\"}"
        )),
        Err(DecodeError::TypeMismatch("timestamp"))
    );
    assert_eq!(
        decode_message(&doc(
            "{\"id\":\"m\",\"direction\":\"s\",\"data\":\"\",\"timestamp\":1.5}"
        )),
        Err(DecodeError::TypeMismatch("timestamp"))
    );
    assert_eq!(
        decode_message(&doc(
            "{\"id\":\"m\",\"direction\":\"s\",\"data\":{},\"timestamp\":5}"
        )),
        Err(DecodeError::TypeMismatch("data"))
    );
    assert_eq!(decode_message(&doc("7")), Err(DecodeError::NotAnObject));
}

#[test]
fn decodes_console_line() {
    assert_eq!(
        decode_console(&doc("{\"level\":\"warn\",\"message\":\"careful\"}")),
        Ok(ConsoleLogEvent {
            level: "warn".to_string(),
            message: "careful".to_string(),
        })
    );
    assert_eq!(
        decode_console(&doc("{\"level\":\"log\",\"message\":\"\"}")),
        Ok(ConsoleLogEvent {
            level: "log".to_string(),
            message: String::new(),
        })
    );
}

#[test]
fn console_line_failures() {
    assert_eq!(
        decode_console(&doc("{\"message\":\"m\"}")),
        Err(DecodeError::MissingField("level"))
    );
    assert_eq!(
        decode_console(&doc("{\"level\":\"info\"}")),
        Err(DecodeError::MissingField("message"))
    );
    assert_eq!(
        decode_console(&doc("{\"level\":3,\"message\":\"m\"}")),
        Err(DecodeError::TypeMismatch("level"))
    );
    assert_eq!(
        decode_console(&doc("{\"level\":\"info\",\"message\":[\"m\"]}")),
        Err(DecodeError::TypeMismatch("message"))
    );
    assert_eq!(decode_console(&doc("\"info\"")), Err(DecodeError::NotAnObject));
}

fn no_change() -> WebSocketUpdate {
    WebSocketUpdate {
        state: Patch::Absent,
        status: Patch::Absent,
        response_time: Patch::Absent,
        message: Patch::Absent,
        error: Patch::Absent,
        close_reason: Patch::Absent,
    }
}

#[test]
fn empty_update_changes_nothing() {
    assert_eq!(decode_update(&doc("{}")), Ok(no_change()));
}

#[test]
fn update_keeps_absent_null_and_empty_apart() {
    let update = decode_update(&doc("{\"error\": null, \"closeReason\": \"\"}")).unwrap();
    assert_eq!(update.state, Patch::Absent);
    assert_eq!(update.error, Patch::Null);
    assert_eq!(update.close_reason, Patch::Value(String::new()));
    assert_ne!(update, no_change());
}

#[test]
fn decodes_full_update() {
    let update = decode_update(&doc(
        "{\"state\":\"closed\",\"status\":101,\"responseTime\":12,\
          \"message\":{\"id\":\"m\",\"direction\":\"sent\",\"data\":\"x\",\"timestamp\":9},\
          \"error\":\"boom\",\"closeReason\":\"bye\",\"extra\":true}",
    ))
    .unwrap();
    assert_eq!(
        update,
        WebSocketUpdate {
            state: Patch::Value("closed".to_string()),
            status: Patch::Value(101),
            response_time: Patch::Value(12),
            message: Patch::Value(WebSocketMessage {
                id: "m".to_string(),
                direction: "sent".to_string(),
                data: "x".to_string(),
                timestamp: 9,
            }),
            error: Patch::Value("boom".to_string()),
            close_reason: Patch::Value("bye".to_string()),
        }
    );
}

#[test]
fn update_with_all_members_null() {
    let update = decode_update(&doc(
        "{\"state\":null,\"status\":null,\"responseTime\":null,\"message\":null,\
          \"error\":null,\"closeReason\":null}",
    ))
    .unwrap();
    assert_eq!(
        update,
        WebSocketUpdate {
            state: Patch::Null,
            status: Patch::Null,
            response_time: Patch::Null,
            message: Patch::Null,
            error: Patch::Null,
            close_reason: Patch::Null,
        }
    );
}

#[test]
fn update_failures() {
    assert_eq!(
        decode_update(&doc("{\"state\": 1}")),
        Err(DecodeError::TypeMismatch("state"))
    );
    assert_eq!(
        decode_update(&doc("{\"status\": \"101\"}")),
        Err(DecodeError::TypeMismatch("status"))
    );
    assert_eq!(
        decode_update(&doc("{\"status\": 70000}")),
        Err(DecodeError::TypeMismatch("status"))
    );
    assert_eq!(
        decode_update(&doc("{\"responseTime\": -1}")),
        Err(DecodeError::TypeMismatch("responseTime"))
    );
    assert_eq!(
        decode_update(&doc("{\"message\": \"m\"}")),
        Err(DecodeError::NotAnObject)
    );
    assert_eq!(
        decode_update(&doc("{\"message\": {\"id\": \"m\"}}")),
        Err(DecodeError::MissingField("direction"))
    );
    assert_eq!(
        decode_update(&doc("{\"closeReason\": false, \"error\": 1}")),
        Err(DecodeError::TypeMismatch("error"))
    );
    assert_eq!(decode_update(&doc("null")), Err(DecodeError::NotAnObject));
}

#[test]
fn decodes_tagged_messages_of_each_kind() {
    let network = format!("{{\"type\":\"network\",\"data\":{}}}", MINIMAL_NETWORK);
    assert_eq!(
        decode_tagged(&doc(&network)),
        Ok(ClientMessage::Network(
            decode_network(&doc(MINIMAL_NETWORK)).unwrap()
        ))
    );
    assert_eq!(
        decode_tagged(&doc(
            "{\"type\":\"console\",\"data\":{\"level\":\"info\",\"message\":\"m\"}}"
        )),
        Ok(ClientMessage::Console(ConsoleLogEvent {
            level: "info".to_string(),
            message: "m".to_string(),
        }))
    );
    assert_eq!(
        decode_tagged(&doc(
            "{\"type\":\"websocket-update\",\"wsId\":\"ws-7\",\"data\":{}}"
        )),
        Ok(ClientMessage::WebSocketUpdate {
            ws_id: "ws-7".to_string(),
            update: no_change(),
        })
    );
}

#[test]
fn tagged_message_failures() {
    assert_eq!(decode_tagged(&doc("[]")), Err(DecodeError::NotAnObject));
    assert_eq!(
        decode_tagged(&doc("{\"data\":{}}")),
        Err(DecodeError::MissingField("type"))
    );
    assert_eq!(
        decode_tagged(&doc("{\"type\":1,\"data\":{}}")),
        Err(DecodeError::TypeMismatch("type"))
    );
    assert_eq!(
        decode_tagged(&doc("{\"type\":\"trace\",\"data\":{}}")),
        Err(DecodeError::UnknownKind)
    );
    assert_eq!(
        decode_tagged(&doc("{\"type\":\"Network\",\"data\":{}}")),
        Err(DecodeError::UnknownKind)
    );
    assert_eq!(
        decode_tagged(&doc("{\"type\":\"console\"}")),
        Err(DecodeError::MissingField("data"))
    );
    assert_eq!(
        decode_tagged(&doc("{\"type\":\"console\",\"data\":null}")),
        Err(DecodeError::NotAnObject)
    );
    assert_eq!(
        decode_tagged(&doc("{\"type\":\"network\",\"data\":{\"method\":\"GET\"}}")),
        Err(DecodeError::MissingField("id"))
    );
    assert_eq!(
        decode_tagged(&doc("{\"type\":\"websocket-update\",\"data\":{}}")),
        Err(DecodeError::MissingField("wsId"))
    );
    assert_eq!(
        decode_tagged(&doc("{\"type\":\"websocket-update\",\"wsId\":7,\"data\":{}}")),
        Err(DecodeError::TypeMismatch("wsId"))
    );
    assert_eq!(
        decode_tagged(&doc("{\"type\":\"websocket-update\",\"wsId\":\"w\"}")),
        Err(DecodeError::MissingField("data"))
    );
}

#[test]
fn ws_id_of_other_kinds_is_ignored() {
    assert_eq!(
        decode_tagged(&doc(
            "{\"type\":\"console\",\"wsId\":5,\"data\":{\"level\":\"info\",\"message\":\"m\"}}"
        )),
        Ok(ClientMessage::Console(ConsoleLogEvent {
            level: "info".to_string(),
            message: "m".to_string(),
        }))
    );
}

#[test]
fn socket_members_are_tested_but_not_enforced() {
    let full = decode_network(&doc(FULL_NETWORK)).unwrap();
    assert!(full.socket_members_fit());
    let minimal = decode_network(&doc(MINIMAL_NETWORK)).unwrap();
    assert!(minimal.socket_members_fit());
    let state_on_fetch =
        decode_network(&with(MINIMAL_NETWORK, "wsState", Json::Str("open".to_string()))).unwrap();
    assert!(!state_on_fetch.socket_members_fit());
    let messages_without_state =
        decode_network(&without(FULL_NETWORK, "wsState")).unwrap();
    assert!(!messages_without_state.socket_members_fit());
}
