use beakr_core::state::{AppState, ConnectionStatus, Settings, coalesce_folders, should_connect, connection_status_data};
use beakr_core::supervisor::{
    Supervisor, SessionEnd, EndAction, ObserverEvent, backoff_wait_ms, heartbeat_frame,
    update_folders_frame, respond_to_request, request_started_event, current_platform,
};
use beakr_core::ws_url;

fn fresh() -> Supervisor {
    Supervisor::new(AppState::new())
}

fn status_of(ev: &ObserverEvent) -> Option<ConnectionStatus> {
    match ev {
        ObserverEvent::StatusChanged(s) => Some(s.clone()),
        _ => None,
    }
}

#[test]
fn test_revocation_is_terminal() {
    let mut sup = fresh();
    sup.begin_attempt();
    sup.on_registered(String::from("dev-1"));
    assert_eq!(sup.state.ws_status, ConnectionStatus::Connected);

    let (act, events) = sup.on_session_end(&SessionEnd::Closed(4010), false);
    assert!(matches!(act, EndAction::Stop));
    assert_eq!(sup.state.ws_status, ConnectionStatus::Revoked);
    assert!(sup.state.device_id.is_none());
    assert_eq!(events.len(), 2);
    assert_eq!(status_of(&events[0]), Some(ConnectionStatus::Revoked));
    assert!(matches!(events[1], ObserverEvent::TokenInvalid));
}

#[test]
fn test_session_expiry_fast_reconnect() {
    let mut sup = fresh();
    sup.begin_attempt();
    sup.on_registered(String::from("dev-1"));

    let (act, events) = sup.on_session_end(&SessionEnd::Closed(4011), false);
    match act {
        EndAction::FastReconnect { wait_ms } => assert_eq!(wait_ms, 500),
        _ => panic!("session expiry must reconnect without backoff"),
    }
    assert_eq!(sup.attempt, 0);
    assert_eq!(sup.state.ws_status, ConnectionStatus::Reconnecting);
    assert!(events.iter().any(|e| matches!(e, ObserverEvent::TokenRefreshNeeded)));
}

#[test]
fn test_failed_attempts_raise_backoff() {
    let mut sup = fresh();
    for expected in 1u32..=6 {
        let (act, _) = sup.on_session_end(&SessionEnd::ConnectFailed, false);
        assert_eq!(sup.attempt, expected);
        match act {
            EndAction::Reconnect { wait_ms } => assert!(wait_ms <= 36000),
            _ => panic!("a failed attempt must reconnect with backoff"),
        }
    }
    // A clean close of a session that registered resets the count.
    sup.begin_attempt();
    sup.on_registered(String::from("dev-1"));
    let (_, _) = sup.on_session_end(&SessionEnd::ClosedNoCode, false);
    assert_eq!(sup.attempt, 0);
}

#[test]
fn test_close_before_registration_counts_as_failure() {
    // A server that accepts the socket and closes before acknowledging
    // registration has not given a successful session: the count rises and
    // backoff grows, rather than re-dialing at the floor forever.
    let mut sup = fresh();
    for expected in 1u32..=3 {
        sup.begin_attempt();
        let (act, _) = sup.on_session_end(&SessionEnd::Closed(1000), false);
        assert_eq!(sup.attempt, expected);
        assert!(matches!(act, EndAction::Reconnect { .. }));
    }
    let (_, _) = sup.on_session_end(&SessionEnd::StreamEnded, false);
    assert_eq!(sup.attempt, 4);
}

#[test]
fn test_backoff_never_exceeds_bound() {
    for attempt in 0u32..40 {
        for _ in 0..8 {
            assert!(backoff_wait_ms(attempt) <= 36000);
        }
    }
}

#[test]
fn test_shutdown_disconnects() {
    let mut sup = fresh();
    sup.begin_attempt();
    let (act, events) = sup.on_session_end(&SessionEnd::StreamEnded, true);
    assert!(matches!(act, EndAction::Stop));
    assert_eq!(sup.state.ws_status, ConnectionStatus::Disconnected);
    assert_eq!(events.len(), 1);
    assert_eq!(status_of(&events[0]), Some(ConnectionStatus::Disconnected));
}

#[test]
fn test_register_frame_text() {
    let mut state = AppState::new();
    state.device_name = String::from("Box");
    state.scoped_folders = vec![String::from("/d")];
    let sup = Supervisor::new(state);
    let frame = sup.register_frame(
        current_platform(false, false),
        Some(String::from("6.1")),
        Some(String::from("0.1.0")),
    );
    assert_eq!(
        frame,
        "{\"type\":\"register\",\"device_name\":\"Box\",\"platform\":\"linux\",\"scoped_folders\":[\"/d\"],\"platform_version\":\"6.1\",\"app_version\":\"0.1.0\"}"
    );
}

#[test]
fn test_heartbeat_and_update_frames() {
    assert_eq!(heartbeat_frame(), "{\"type\":\"heartbeat\"}");
    assert_eq!(
        update_folders_frame(&vec![String::from("/a"), String::from("/b")]),
        "{\"type\":\"update_folders\",\"scoped_folders\":[\"/a\",\"/b\"]}"
    );
}

#[test]
fn test_respond_matches_request_id() {
    let rid = String::from("req-42");
    let (frame, events) = respond_to_request(&rid, Ok((String::from("{\"files\":[]}"), None)));
    assert_eq!(
        frame,
        "{\"type\":\"response\",\"request_id\":\"req-42\",\"status\":\"success\",\"data\":{\"files\":[]}}"
    );
    assert_eq!(events.len(), 1);
    assert!(matches!(&events[0], ObserverEvent::RequestCompleted(id, true) if id == "req-42"));

    let (err_frame, err_events) = respond_to_request(&rid, Err(String::from("Unknown tool: x")));
    assert_eq!(
        err_frame,
        "{\"type\":\"response\",\"request_id\":\"req-42\",\"status\":\"error\",\"error\":\"Unknown tool: x\"}"
    );
    assert!(matches!(&err_events[0], ObserverEvent::RequestCompleted(id, false) if id == "req-42"));
}

#[test]
fn test_request_started_event() {
    let ev = request_started_event(&String::from("r"), &String::from("read_file"));
    assert!(matches!(ev, ObserverEvent::RequestStarted(id, tool) if id == "r" && tool == "read_file"));
}

#[test]
fn test_current_platform_tags() {
    assert_eq!(current_platform(true, false), "macos");
    assert_eq!(current_platform(false, true), "windows");
    assert_eq!(current_platform(false, false), "linux");
}

#[test]
fn test_ws_url_choice() {
    assert_eq!(
        ws_url(Some(String::from("ws://other/ws")), true),
        "ws://other/ws"
    );
    assert_eq!(ws_url(None, true), "ws://localhost:8000/v1/desktop-agent/ws");
    assert_eq!(ws_url(None, false), "wss://api.thebeakr.com/v1/desktop-agent/ws");
}

#[test]
fn test_status_texts() {
    assert_eq!(ConnectionStatus::Connected.wire_tag(), "connected");
    assert_eq!(ConnectionStatus::Revoked.wire_tag(), "revoked");
    assert_eq!(ConnectionStatus::Revoked.label(), "Device Revoked");
    assert_eq!(ConnectionStatus::Connecting.tray_text(), "Status: Connecting…");
}

#[test]
fn test_app_state_defaults_and_settings() {
    let s = AppState::new();
    assert!(s.auth_token.is_none());
    assert_eq!(s.ws_status, ConnectionStatus::Disconnected);
    assert!(s.scoped_folders.is_empty());
    assert_eq!(s.device_name, "My Computer");
    assert!(s.device_id.is_none());

    let d = Settings::default();
    assert!(d.scoped_folders.is_empty());
    assert!(d.device_name.is_none());
    assert!(!d.auto_connect);
}

#[test]
fn test_coalesce_folders_keeps_first_occurrence() {
    let folders = vec![
        String::from("/a"),
        String::from("/b"),
        String::from("/a"),
        String::from("/c"),
        String::from("/b"),
    ];
    assert_eq!(
        coalesce_folders(&folders),
        vec![String::from("/a"), String::from("/b"), String::from("/c")]
    );
}

#[test]
fn test_should_connect_only_when_idle() {
    assert!(should_connect(&ConnectionStatus::Disconnected));
    assert!(should_connect(&ConnectionStatus::Revoked));
    assert!(!should_connect(&ConnectionStatus::Connected));
    assert!(!should_connect(&ConnectionStatus::Connecting));
    assert!(!should_connect(&ConnectionStatus::Reconnecting));
}

#[test]
fn test_connection_status_data_text() {
    let mut s = AppState::new();
    assert_eq!(
        connection_status_data(&s),
        "{\"status\":\"disconnected\",\"device_id\":null}"
    );
    s.ws_status = ConnectionStatus::Connected;
    s.device_id = Some(String::from("dev-1"));
    assert_eq!(
        connection_status_data(&s),
        "{\"status\":\"connected\",\"device_id\":\"dev-1\"}"
    );
}
