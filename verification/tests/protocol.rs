use beakr_core::json::JVal;
use beakr_core::protocol::{
    OutgoingMessage, IncomingMessage, ResponseStatus, encode_outgoing, parse_incoming,
};
use beakr_core::pairing::{replace_text, claim_url, claim_body, parse_claim_response};

fn obj(fields: Vec<(&str, JVal)>) -> JVal {
    JVal::Obj(fields.into_iter().map(|(k, v)| (String::from(k), v)).collect())
}

#[test]
fn test_encode_heartbeat() {
    assert_eq!(encode_outgoing(&OutgoingMessage::Heartbeat), "{\"type\":\"heartbeat\"}");
}

#[test]
fn test_encode_register() {
    let m = OutgoingMessage::Register {
        device_name: String::from("My \"Mac\""),
        platform: String::from("macos"),
        scoped_folders: vec![String::from("/Users/u/Docs"), String::from("/tmp")],
        platform_version: Some(String::from("14.2")),
        app_version: None,
    };
    let text = encode_outgoing(&m);
    assert_eq!(
        text,
        "{\"type\":\"register\",\"device_name\":\"My \\\"Mac\\\"\",\"platform\":\"macos\",\"scoped_folders\":[\"/Users/u/Docs\",\"/tmp\"],\"platform_version\":\"14.2\"}"
    );
    // The frame is well-formed JSON.
    let v: serde_json::Value = serde_json::from_str(&text).unwrap();
    assert_eq!(v["type"], "register");
    assert_eq!(v["device_name"], "My \"Mac\"");
    assert!(v.get("app_version").is_none());
}

#[test]
fn test_encode_response_success() {
    let m = OutgoingMessage::Response {
        request_id: String::from("r-1"),
        status: ResponseStatus::Success,
        data: Some(String::from("{\"files\":[]}")),
        error: None,
        bytes_transferred: Some(123),
    };
    assert_eq!(
        encode_outgoing(&m),
        "{\"type\":\"response\",\"request_id\":\"r-1\",\"status\":\"success\",\"data\":{\"files\":[]},\"bytes_transferred\":123}"
    );
}

#[test]
fn test_encode_response_error_omits_absent_fields() {
    let m = OutgoingMessage::Response {
        request_id: String::from("r-2"),
        status: ResponseStatus::Error,
        data: None,
        error: Some(String::from("Unknown tool: x")),
        bytes_transferred: None,
    };
    let text = encode_outgoing(&m);
    assert_eq!(
        text,
        "{\"type\":\"response\",\"request_id\":\"r-2\",\"status\":\"error\",\"error\":\"Unknown tool: x\"}"
    );
    let v: serde_json::Value = serde_json::from_str(&text).unwrap();
    assert!(v.get("data").is_none());
    assert!(v.get("bytes_transferred").is_none());
}

#[test]
fn test_encode_update_folders() {
    let m = OutgoingMessage::UpdateFolders { scoped_folders: vec![String::from("/a")] };
    assert_eq!(
        encode_outgoing(&m),
        "{\"type\":\"update_folders\",\"scoped_folders\":[\"/a\"]}"
    );
    let empty = OutgoingMessage::UpdateFolders { scoped_folders: Vec::new() };
    assert_eq!(encode_outgoing(&empty), "{\"type\":\"update_folders\",\"scoped_folders\":[]}");
}

#[test]
fn test_encode_escapes_control_characters() {
    let m = OutgoingMessage::Response {
        request_id: String::from("a\nb\t\"c\"\\d\u{1}"),
        status: ResponseStatus::Success,
        data: None,
        error: None,
        bytes_transferred: None,
    };
    let text = encode_outgoing(&m);
    let v: serde_json::Value = serde_json::from_str(&text).unwrap();
    assert_eq!(v["request_id"], "a\nb\t\"c\"\\d\u{1}");
}

#[test]
fn test_parse_incoming_registered() {
    let v = obj(vec![
        ("type", JVal::Str(String::from("registered"))),
        ("device_id", JVal::Str(String::from("dev-7"))),
    ]);
    match parse_incoming(v) {
        Some(IncomingMessage::Registered { device_id }) => assert_eq!(device_id, "dev-7"),
        _ => panic!("registered frame did not parse"),
    }
}

#[test]
fn test_parse_incoming_request() {
    let v = obj(vec![
        ("type", JVal::Str(String::from("request"))),
        ("request_id", JVal::Str(String::from("r-9"))),
        ("tool", JVal::Str(String::from("list_files"))),
        ("params", obj(vec![("path", JVal::Str(String::from("/d")))])),
    ]);
    match parse_incoming(v) {
        Some(IncomingMessage::Request { request_id, tool, params }) => {
            assert_eq!(request_id, "r-9");
            assert_eq!(tool, "list_files");
            match params.get("path").and_then(|p| p.as_str()) {
                Some(p) => assert_eq!(p, "/d"),
                None => panic!("params lost their path"),
            }
        }
        _ => panic!("request frame did not parse"),
    }
}

#[test]
fn test_parse_incoming_unknown_type_dropped() {
    let v = obj(vec![("type", JVal::Str(String::from("ping")))]);
    assert!(parse_incoming(v).is_none());
    let missing = obj(vec![("request_id", JVal::Str(String::from("r")))]);
    assert!(parse_incoming(missing).is_none());
    let incomplete = obj(vec![
        ("type", JVal::Str(String::from("request"))),
        ("request_id", JVal::Str(String::from("r"))),
    ]);
    assert!(parse_incoming(incomplete).is_none());
}

#[test]
fn test_replace_text() {
    assert_eq!(replace_text("ws://x/ws", "ws://", "http://"), "http://x/ws");
    assert_eq!(replace_text("aaa", "a", "bb"), "bbbbbb");
    assert_eq!(replace_text("abc", "z", "y"), "abc");
    assert_eq!(replace_text("abc", "", "y"), "abc");
}

#[test]
fn test_claim_url() {
    assert_eq!(
        claim_url("wss://api.thebeakr.com/v1/desktop-agent/ws"),
        "https://api.thebeakr.com/v1/desktop-agent/pair/claim"
    );
    assert_eq!(
        claim_url("ws://localhost:8000/v1/desktop-agent/ws"),
        "http://localhost:8000/v1/desktop-agent/pair/claim"
    );
}

#[test]
fn test_claim_body() {
    let body = claim_body(
        "ABCD",
        "My Mac",
        "macos",
        &vec![String::from("/Users/u")],
        "14.2",
        "1.0.0",
    );
    assert_eq!(
        body,
        "{\"code\":\"ABCD\",\"device_name\":\"My Mac\",\"platform\":\"macos\",\"scoped_folders\":[\"/Users/u\"],\"platform_version\":\"14.2\",\"app_version\":\"1.0.0\"}"
    );
    let v: serde_json::Value = serde_json::from_str(&body).unwrap();
    assert_eq!(v["code"], "ABCD");
}

#[test]
fn test_parse_claim_response_paths() {
    let ok_body: Result<JVal, String> =
        Ok(obj(vec![("device_token", JVal::Str(String::from("tok")))]));
    assert_eq!(parse_claim_response(true, "200 OK", &ok_body), Ok(String::from("tok")));

    let no_token: Result<JVal, String> = Ok(obj(vec![]));
    assert_eq!(
        parse_claim_response(true, "200 OK", &no_token),
        Err(String::from("Missing device_token in response"))
    );

    let bad_body: Result<JVal, String> = Err(String::from("expected value at line 1"));
    assert_eq!(
        parse_claim_response(true, "200 OK", &bad_body),
        Err(String::from("Invalid response: expected value at line 1"))
    );

    let detail: Result<JVal, String> =
        Ok(obj(vec![("detail", JVal::Str(String::from("code expired")))]));
    assert_eq!(
        parse_claim_response(false, "400 Bad Request", &detail),
        Err(String::from("code expired"))
    );

    let plain: Result<JVal, String> = Err(String::from("not json"));
    assert_eq!(
        parse_claim_response(false, "502 Bad Gateway", &plain),
        Err(String::from("Pairing failed (HTTP 502 Bad Gateway)"))
    );
}
