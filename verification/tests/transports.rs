use dev_lens_relay::connection::accept_frame;
use dev_lens_relay::decode::DecodeError;
use dev_lens_relay::json::Json;
use dev_lens_relay::message::{ConsoleLogEvent, Patch, WebSocketUpdate};
use dev_lens_relay::request::{accept_request, decode_request, Endpoint, ForwardError, Status};
use dev_lens_relay::router::{Channel, Forward, Payload, WebSocketUpdateEnvelope};
use dev_lens_relay::text::parse_json;

fn network_body(id: &str) -> String {
    format!(
        "{{\"id\":\"{}\",\"method\":\"GET\",\"url\":\"/items\",\"status\":200,\
          \"responseTime\":12,\"headers\":{{\"request\":{{\"Accept\":\"*/*\"}},\
          \"response\":{{\"Content-Type\":\"text/plain\"}}}},\"cookies\":{{\"k\":\"v\"}},\
          \"responseBody\":\"hello\",\"type\":\"xhr\"}}",
        id
    )
}

fn update_body() -> &'static str {
    "{\"state\":\"open\",\"status\":101,\"error\":null}"
}

fn failure(channel: Channel) -> ForwardError {
    ForwardError {
        channel,
        cause: "the window is gone".to_string(),
    }
}

#[test]
fn network_event_is_forwarded_alike_on_both_transports() {
    let body = network_body("r-1");
    let frame = format!("{{\"type\":\"network\",\"data\":{}}}", body);
    let by_request = accept_request(Endpoint::Network, &body).unwrap();
    let by_frame = accept_frame(&frame).unwrap();
    assert_eq!(by_request, by_frame);
    assert_eq!(by_request.channel, Channel::NetworkLog);
    assert_eq!(by_request.channel.name(), "network-log");
    match by_request.payload {
        Payload::Network(event) => {
            assert_eq!(event.id, "r-1");
            assert_eq!(event.status, 200);
            assert_eq!(event.response_body, "hello");
            assert_eq!(event.cookies.unwrap().get("k"), Some(&"v".to_string()));
        }
        other => panic!("wrong payload {:?}", other),
    }
}

#[test]
fn console_line_is_forwarded_alike_on_both_transports() {
    let body = "{\"level\":\"error\",\"message\":\"it broke\"}";
    let frame = format!("{{\"data\":{},\"type\":\"console\"}}", body);
    let expected = Forward {
        channel: Channel::ConsoleLog,
        payload: Payload::Console(ConsoleLogEvent {
            level: "error".to_string(),
            message: "it broke".to_string(),
        }),
    };
    assert_eq!(accept_request(Endpoint::Console, body), Ok(expected.clone()));
    assert_eq!(accept_frame(&frame), Ok(expected));
    assert_eq!(Channel::ConsoleLog.name(), "console-log");
}

#[test]
fn update_envelope_is_the_same_for_path_and_body_identifier() {
    let frame = format!(
        "{{\"type\":\"websocket-update\",\"wsId\":\"ws-42\",\"data\":{}}}",
        update_body()
    );
    let expected = Forward {
        channel: Channel::WebSocketUpdate,
        payload: Payload::WebSocketUpdate(WebSocketUpdateEnvelope {
            ws_id: "ws-42".to_string(),
            update: WebSocketUpdate {
                state: Patch::Value("open".to_string()),
                status: Patch::Value(101),
                response_time: Patch::Absent,
                message: Patch::Absent,
                error: Patch::Null,
                close_reason: Patch::Absent,
            },
        }),
    };
    let by_request = accept_request(
        Endpoint::WebSocketUpdate {
            ws_id: "ws-42".to_string(),
        },
        update_body(),
    );
    assert_eq!(by_request, Ok(expected.clone()));
    assert_eq!(accept_frame(&frame), Ok(expected));
    assert_eq!(Channel::WebSocketUpdate.name(), "websocket-update");
}

#[test]
fn identifier_is_carried_through_unread() {
    for id in ["", "a b", "../x", "ws-\u{e9}"] {
        let forward = accept_request(
            Endpoint::WebSocketUpdate {
                ws_id: id.to_string(),
            },
            "{}",
        )
        .unwrap();
        match forward.payload {
            Payload::WebSocketUpdate(envelope) => assert_eq!(envelope.ws_id, id),
            other => panic!("wrong payload {:?}", other),
        }
    }
}

#[test]
fn body_is_decoded_for_its_endpoint_only() {
    let console = "{\"level\":\"info\",\"message\":\"m\"}";
    assert_eq!(
        accept_request(Endpoint::Network, console),
        Err(DecodeError::MissingField("id"))
    );
    assert_eq!(
        accept_request(Endpoint::Console, &network_body("r")),
        Err(DecodeError::MissingField("level"))
    );
    let tagged = format!("{{\"type\":\"console\",\"data\":{}}}", console);
    assert_eq!(
        accept_request(Endpoint::Console, &tagged),
        Err(DecodeError::MissingField("level"))
    );
    assert_eq!(accept_frame(console), Err(DecodeError::MissingField("type")));
}

#[test]
fn undecodable_body_leads_to_no_forward() {
    assert_eq!(
        accept_request(Endpoint::Network, "not json"),
        Err(DecodeError::Malformed)
    );
    assert_eq!(
        accept_request(Endpoint::Console, ""),
        Err(DecodeError::Malformed)
    );
    let without_id = network_body("r").replace("\"id\":\"r\",", "");
    assert_eq!(
        accept_request(Endpoint::Network, &without_id),
        Err(DecodeError::MissingField("id"))
    );
    assert_eq!(
        accept_frame(&format!("{{\"type\":\"network\",\"data\":{}}}", without_id)),
        Err(DecodeError::MissingField("id"))
    );
    assert_eq!(accept_frame("{"), Err(DecodeError::Malformed));
}

#[test]
fn decode_request_takes_a_document() {
    let doc = parse_json("{\"level\":\"debug\",\"message\":\"x\"}").unwrap();
    assert!(decode_request(Endpoint::Console, &doc).is_ok());
    assert_eq!(
        decode_request(Endpoint::Network, &Json::Null),
        Err(DecodeError::NotAnObject)
    );
}

#[test]
fn status_codes() {
    assert_eq!(Status::Success.code(), 200);
    assert_eq!(Status::BadRequest.code(), 400);
    assert_eq!(Status::ServerError.code(), 500);
}

#[test]
fn status_follows_the_outcome_of_the_forward() {
    assert_eq!(Status::completed(&Ok(())), Status::Success);
    assert_eq!(
        Status::completed(&Err(failure(Channel::NetworkLog))),
        Status::ServerError
    );
    assert_eq!(
        Status::rejected(&DecodeError::Malformed),
        Status::BadRequest
    );
    assert_eq!(
        Status::rejected(&DecodeError::MissingField("id")),
        Status::BadRequest
    );
}

#[test]
fn failed_forward_does_not_harm_the_next_call() {
    let first = accept_request(Endpoint::Network, &network_body("r-1")).unwrap();
    let first_status = Status::completed(&Err(failure(first.channel)));
    assert_eq!(first_status.code(), 500);
    let second = accept_request(Endpoint::Console, "{\"level\":\"info\",\"message\":\"m\"}");
    assert!(second.is_ok());
    assert_eq!(Status::completed(&Ok(())).code(), 200);
}

#[test]
fn two_callers_keep_their_own_payloads() {
    let a_body = network_body("caller-a");
    let b_body = network_body("caller-b");
    let a1 = accept_request(Endpoint::Network, &a_body).unwrap();
    let b1 = accept_request(Endpoint::Network, &b_body).unwrap();
    let b2 = accept_request(Endpoint::Network, &b_body).unwrap();
    let a2 = accept_request(Endpoint::Network, &a_body).unwrap();
    assert_eq!(a1, a2);
    assert_eq!(b1, b2);
    assert_ne!(a1, b1);
    match (a1.payload, b1.payload) {
        (Payload::Network(a), Payload::Network(b)) => {
            assert_eq!(a.id, "caller-a");
            assert_eq!(b.id, "caller-b");
        }
        other => panic!("wrong payloads {:?}", other),
    }
}

#[test]
fn failure_notice_names_channel_and_cause() {
    assert_eq!(
        failure(Channel::NetworkLog).notice(),
        "Failed to emit network-log: the window is gone"
    );
    assert_eq!(
        ForwardError {
            channel: Channel::WebSocketUpdate,
            cause: String::new(),
        }
        .notice(),
        "Failed to emit websocket-update: "
    );
}
