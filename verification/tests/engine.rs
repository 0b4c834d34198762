use roommate::engine::{EngineTask, NetworkEngine, LEASE_TIMEOUT_NANOS};
use roommate::protocol::{Op, Request};
use roommate::status::NetworkStatus;

fn request(op: Op) -> Request {
    Request { v: 1, op, hostname: None, ip: None, login_server: None, auth_key: None }
}

#[test]
fn lease_runs_out_after_silence() {
    let mut e = NetworkEngine::new(0);
    assert!(!e.lease_expired(10 * LEASE_TIMEOUT_NANOS));
    let mut conn = request(Op::Connect);
    conn.hostname = Some("roommate-a".into());
    match e.handle(&conn, 5) {
        EngineTask::Connect { hostname, login_server, auth_key } => {
            assert_eq!(hostname, "roommate-a");
            assert_eq!(login_server, None);
            assert_eq!(auth_key, None);
        }
        _ => panic!("expected a connect task"),
    }
    let r = e.finish_connect(Ok("已连接".into()), 100);
    assert!(r.ok && e.connected && e.last_touch == 100);
    assert!(!e.lease_expired(100 + LEASE_TIMEOUT_NANOS));
    assert!(e.lease_expired(101 + LEASE_TIMEOUT_NANOS));
    assert!(e.enforce_lease(101 + LEASE_TIMEOUT_NANOS));
    match e.handle(&request(Op::Heartbeat), 200) {
        EngineTask::Reply(r) => assert_eq!(r.message.as_deref(), Some("ok")),
        _ => panic!("expected a reply"),
    }
    assert!(!e.lease_expired(200 + LEASE_TIMEOUT_NANOS));
    e.teardown_done(&Ok(()));
    assert!(!e.connected);
    assert!(!e.lease_expired(u64::MAX));
}

#[test]
fn refused_request_does_not_renew() {
    let mut e = NetworkEngine { connected: true, last_touch: 0 };
    let mut bad = request(Op::Heartbeat);
    bad.v = 2;
    match e.handle(&bad, 1_000) {
        EngineTask::Reply(r) => {
            assert!(!r.ok);
            assert_eq!(r.op, Op::Heartbeat);
        }
        _ => panic!("expected a reply"),
    }
    assert_eq!(e.last_touch, 0);
}

#[test]
fn tasks_per_command() {
    let mut e = NetworkEngine::new(0);
    match e.handle(&request(Op::Health), 1) {
        EngineTask::Reply(r) => {
            assert_eq!(r.ready, Some(true));
            assert_eq!(r.connected, Some(false));
            assert_eq!(r.protocol, Some(1));
        }
        _ => panic!(),
    }
    match e.handle(&request(Op::Heartbeat), 2) {
        EngineTask::Reply(r) => assert_eq!(r.message.as_deref(), Some("idle")),
        _ => panic!(),
    }
    assert!(matches!(e.handle(&request(Op::Status), 3), EngineTask::CheckDaemon { connected: false }));
    assert!(matches!(e.handle(&request(Op::Version), 3), EngineTask::Version));
    assert!(matches!(e.handle(&request(Op::Disconnect), 3), EngineTask::Disconnect));
    assert!(matches!(e.handle(&request(Op::ResetEngine), 3), EngineTask::ResetEngine));
    let mut ping = request(Op::Ping);
    ping.ip = Some("100.64.0.2".into());
    match e.handle(&ping, 4) {
        EngineTask::Ping(ip) => assert_eq!(ip, "100.64.0.2"),
        _ => panic!(),
    }
    match NetworkEngine::status_after_check(false, false) {
        EngineTask::Reply(r) => assert_eq!(r.error.as_deref(), Some("尚未连接")),
        _ => panic!(),
    }
    assert!(matches!(NetworkEngine::status_after_check(false, true), EngineTask::QueryStatus { connected: false }));
}

#[test]
fn finishing_replies() {
    let mut e = NetworkEngine { connected: true, last_touch: 7 };
    let r = e.finish_teardown(Op::Disconnect, Err("stuck".into()));
    assert!(!r.ok && e.connected);
    let r = e.finish_teardown(Op::ResetEngine, Ok(()));
    assert_eq!(r.message.as_deref(), Some("网络引擎已重置"));
    assert!(!e.connected);
    let r = e.finish_teardown(Op::Disconnect, Ok(()));
    assert_eq!(r.message.as_deref(), Some("已断开连接"));
    let r = e.finish_connect(Err("login".into()), 9);
    assert!(!r.ok && !e.connected && e.last_touch == 7);
    let st = NetworkStatus {
        backend_state: "Running".into(),
        self_id: "n1".into(),
        self_ips: vec![],
        self_hostname: "me".into(),
        peers: vec![],
    };
    let r = NetworkEngine::finish_status(true, Ok(st));
    assert!(r.ok && r.connected == Some(true) && r.status.is_some());
    assert_eq!(NetworkEngine::finish_ping(Ok(13)).latency_ms, Some(13));
    assert_eq!(NetworkEngine::finish_version(Ok("1.80.0".into())).version.as_deref(), Some("1.80.0"));
    assert!(!NetworkEngine::finish_version(Err("x".into())).ok);
}

#[test]
fn connect_carries_the_room_key() {
    let mut e = NetworkEngine::new(0);
    let mut conn = request(Op::Connect);
    conn.hostname = Some("roommate-a".into());
    conn.login_server = Some(" https://hs.room.example ".into());
    conn.auth_key = Some("  tskey-auth-room1  ".into());
    match e.handle(&conn, 5) {
        EngineTask::Connect { hostname, login_server, auth_key } => {
            assert_eq!(hostname, "roommate-a");
            assert_eq!(login_server.as_deref(), Some("https://hs.room.example"));
            assert_eq!(auth_key.as_deref(), Some("tskey-auth-room1"));
        }
        _ => panic!("expected a connect task"),
    }
    conn.login_server = None;
    conn.auth_key = Some("   ".into());
    match e.handle(&conn, 6) {
        EngineTask::Connect { login_server, auth_key, .. } => {
            assert_eq!(login_server, None);
            assert_eq!(auth_key, None);
        }
        _ => panic!("expected a connect task"),
    }
}

#[test]
fn connect_with_a_blank_login_server_is_refused() {
    let mut e = NetworkEngine::new(0);
    let mut conn = request(Op::Connect);
    conn.login_server = Some("   ".into());
    match e.handle(&conn, 5) {
        EngineTask::Reply(r) => {
            assert!(!r.ok);
            assert_eq!(r.error.as_deref(), Some("非法 login server"));
        }
        _ => panic!("expected a refusal"),
    }
}
