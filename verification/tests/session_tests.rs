use tunno_sync::session::{
    build_server_info, choose_port, ping_response, ApiServer, LivenessState, LivenessStatus,
    StartOutcome,
};

#[test]
fn liveness_starts_waiting() {
    let s = LivenessState::new(1_000);
    assert_eq!(s.status, LivenessStatus::Waiting);
    assert_eq!(s.last_activity_ms, 1_000);
}

#[test]
fn ping_connects_a_waiting_session() {
    let mut s = LivenessState::new(1_000);
    s.on_ping(2_000);
    assert_eq!(s.status, LivenessStatus::Connected);
    assert_eq!(s.last_activity_ms, 2_000);
}

#[test]
fn idle_connected_session_times_out() {
    let mut s = LivenessState::new(1_000);
    s.on_ping(2_000);
    s.on_monitor_tick(63_000, 60_000);
    assert_eq!(s.status, LivenessStatus::TimedOut);
}

#[test]
fn active_session_does_not_time_out() {
    let mut s = LivenessState::new(1_000);
    s.on_ping(2_000);
    s.on_monitor_tick(60_000, 60_000);
    assert_eq!(s.status, LivenessStatus::Connected);
}

#[test]
fn waiting_session_never_times_out() {
    let mut s = LivenessState::new(0);
    s.on_monitor_tick(1_000_000, 60_000);
    assert_eq!(s.status, LivenessStatus::Waiting);
}

#[test]
fn ping_reconnects_after_timeout() {
    let mut s = LivenessState::new(0);
    s.on_ping(1_000);
    s.on_monitor_tick(100_000, 60_000);
    assert_eq!(s.status, LivenessStatus::TimedOut);
    s.on_ping(101_000);
    assert_eq!(s.status, LivenessStatus::Connected);
}

#[test]
fn syncing_counts_as_active_for_timeout() {
    let mut s = LivenessState::new(0);
    s.on_ping(1_000);
    s.mark_syncing(2_000);
    assert_eq!(s.status, LivenessStatus::Syncing);
    s.on_activity(3_000);
    assert_eq!(s.status, LivenessStatus::Syncing);
    s.on_monitor_tick(100_000, 60_000);
    assert_eq!(s.status, LivenessStatus::TimedOut);
}

#[test]
fn reset_returns_to_waiting() {
    let mut s = LivenessState::new(0);
    s.on_ping(1_000);
    s.reset();
    assert_eq!(s.status, LivenessStatus::Waiting);
}

#[test]
fn server_info_composes_url_and_endpoints() {
    let info = build_server_info("192.168.1.7", 3030);
    assert_eq!(info.ip, "192.168.1.7");
    assert_eq!(info.port, 3030);
    assert_eq!(info.url, "http://192.168.1.7:3030");
    assert_eq!(info.endpoints, vec!["/ping".to_string(), "/connection".to_string()]);
}

#[test]
fn choose_port_takes_the_first_bindable() {
    let outcomes = vec![false, false, true, true];
    assert_eq!(choose_port(3030, &outcomes), Some(3032));
}

#[test]
fn choose_port_fails_when_range_exhausted() {
    let outcomes = vec![false; 100];
    assert_eq!(choose_port(3030, &outcomes), None);
}

#[test]
fn session_singleton_refuses_a_second_listener() {
    let mut server = ApiServer::new();
    assert!(!server.is_running());
    let first = server.start("10.0.0.2", 3031, 5_000);
    let info = match first {
        StartOutcome::Started(i) => i,
        StartOutcome::AlreadyRunning(_) => panic!("expected a fresh start"),
    };
    assert_eq!(info.url, "http://10.0.0.2:3031");
    assert!(server.is_running());
    assert_eq!(server.liveness.status, LivenessStatus::Waiting);
    let token = server.token.clone().expect("a running session holds a token");
    assert_eq!(token.len(), 36);

    let second = server.start("10.0.0.9", 4000, 6_000);
    match second {
        StartOutcome::AlreadyRunning(i) => assert_eq!(i.url, "http://10.0.0.2:3031"),
        StartOutcome::Started(_) => panic!("two listeners may never be live at once"),
    }
    assert_eq!(server.token, Some(token));
}

#[test]
fn stop_clears_session_and_resets_liveness() {
    let mut server = ApiServer::new();
    server.start("10.0.0.2", 3031, 5_000);
    server.liveness.on_ping(6_000);
    assert_eq!(server.liveness.status, LivenessStatus::Connected);
    server.stop();
    assert!(!server.is_running());
    assert_eq!(server.token, None);
    assert_eq!(server.liveness.status, LivenessStatus::Waiting);
    assert!(server.get_server_info().is_none());
}

#[test]
fn qr_payload_mirrors_the_running_session() {
    let mut server = ApiServer::new();
    assert!(server.generate_qr_data().is_none());
    server.start("10.1.1.1", 3030, 0);
    let qr = server.generate_qr_data().expect("a running session has a pairing payload");
    assert_eq!(qr.ip, "10.1.1.1");
    assert_eq!(qr.port, 3030);
    assert_eq!(qr.url, "http://10.1.1.1:3030");
    assert_eq!(qr.endpoints, vec!["/ping".to_string(), "/connection".to_string()]);
}

#[test]
fn ping_response_has_fixed_greeting() {
    let r = ping_response();
    assert_eq!(r.message, "pong");
    assert_eq!(r.status, "ok");
    assert!(!r.timestamp.is_empty());
}
