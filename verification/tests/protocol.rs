use roommate::config::PROTOCOL_VERSION;
use roommate::protocol::{frame_body_len, frame_message, validate_request, Op, Request, Response};

fn request(v: u32, op: Op) -> Request {
    Request { v, op, hostname: None, ip: None, login_server: None, auth_key: None }
}

const OP_NAMES: [(Op, &str); 8] = [
    (Op::Health, "health"),
    (Op::Connect, "connect"),
    (Op::Disconnect, "disconnect"),
    (Op::Status, "status"),
    (Op::Ping, "ping"),
    (Op::Version, "version"),
    (Op::Heartbeat, "heartbeat"),
    (Op::ResetEngine, "resetEngine"),
];

fn text_value(o: &Option<String>) -> serde_json::Value {
    match o {
        Some(s) => serde_json::Value::String(s.clone()),
        None => serde_json::Value::Null,
    }
}

/// The JSON object a request is sent as.
fn request_json(req: &Request) -> serde_json::Value {
    let name = OP_NAMES.iter().find(|(op, _)| *op == req.op).unwrap().1;
    let mut m = serde_json::Map::new();
    m.insert("v".to_string(), serde_json::Value::from(req.v));
    m.insert("op".to_string(), serde_json::Value::String(name.to_string()));
    m.insert("hostname".to_string(), text_value(&req.hostname));
    m.insert("ip".to_string(), text_value(&req.ip));
    m.insert("loginServer".to_string(), text_value(&req.login_server));
    m.insert("authKey".to_string(), text_value(&req.auth_key));
    serde_json::Value::Object(m)
}

fn text_field(v: &serde_json::Value, key: &str) -> Option<String> {
    v.get(key).and_then(|x| x.as_str()).map(|s| s.to_string())
}

/// A request read back from its JSON object.
fn request_from_json(v: &serde_json::Value) -> Request {
    let name = v["op"].as_str().unwrap();
    let op = OP_NAMES.iter().find(|(_, n)| *n == name).unwrap().0;
    Request {
        v: v["v"].as_u64().unwrap() as u32,
        op,
        hostname: text_field(v, "hostname"),
        ip: text_field(v, "ip"),
        login_server: text_field(v, "loginServer"),
        auth_key: text_field(v, "authKey"),
    }
}

#[test]
fn roundtrip_frame() {
    let req = request(1, Op::Health);
    let body = serde_json::to_vec(&request_json(&req)).unwrap();
    let bytes = frame_message(&body).unwrap();
    assert_eq!(u32::from_le_bytes(bytes[0..4].try_into().unwrap()) as usize, bytes.len() - 4);
    let header: [u8; 4] = bytes[0..4].try_into().unwrap();
    assert_eq!(frame_body_len(header), Some(body.len()));
    let value: serde_json::Value = serde_json::from_slice(&bytes[4..]).unwrap();
    let decoded = request_from_json(&value);
    assert_eq!(decoded.op, Op::Health);
    assert_eq!(decoded.v, 1);
    assert_eq!(decoded.auth_key, None);
}

#[test]
fn rejects_bad_protocol() {
    let req = request(99, Op::Health);
    assert!(validate_request(&req).is_err());
}

#[test]
fn rejects_injection_ip() {
    let mut req = request(1, Op::Ping);
    req.ip = Some("1.1.1.1 && calc".into());
    assert!(validate_request(&req).is_err());
}

#[test]
fn version_mismatch_message_names_both_versions() {
    let req = request(99, Op::Status);
    assert_eq!(
        validate_request(&req),
        Err("协议版本不匹配（客户端 99, 服务 1）。请重装 Roommate。".to_string())
    );
}

#[test]
fn accepts_plain_commands() {
    for op in [Op::Health, Op::Disconnect, Op::Status, Op::Version, Op::Heartbeat, Op::ResetEngine] {
        assert_eq!(validate_request(&request(PROTOCOL_VERSION, op)), Ok(()));
    }
}

#[test]
fn ping_ip_checks() {
    let mut req = request(1, Op::Ping);
    assert_eq!(validate_request(&req), Err("IP 为空".to_string()));
    req.ip = Some("   ".into());
    assert_eq!(validate_request(&req), Err("IP 为空".to_string()));
    req.ip = Some(" 100.64.0.2 ".into());
    assert_eq!(validate_request(&req), Ok(()));
    req.ip = Some("fd7a:115c:a1e0::1".into());
    assert_eq!(validate_request(&req), Ok(()));
    req.ip = Some("1".repeat(46));
    assert_eq!(validate_request(&req), Err("非法 IP".to_string()));
    req.ip = Some("1".repeat(45));
    assert_eq!(validate_request(&req), Ok(()));
    req.ip = Some("100.64.0.g".into());
    assert_eq!(validate_request(&req), Err("非法 IP".to_string()));
}

#[test]
fn connect_field_checks() {
    let mut req = request(1, Op::Connect);
    assert_eq!(validate_request(&req), Ok(()));
    req.hostname = Some("roommate-alice_1".into());
    assert_eq!(validate_request(&req), Ok(()));
    req.hostname = Some("bad host".into());
    assert_eq!(validate_request(&req), Err("非法 hostname".to_string()));
    req.hostname = Some("a".repeat(49));
    assert_eq!(validate_request(&req), Err("非法 hostname".to_string()));
    req.hostname = Some("a".repeat(48));
    assert_eq!(validate_request(&req), Ok(()));
    req.auth_key = Some("tskey\u{7}".into());
    assert_eq!(validate_request(&req), Err("非法 AuthKey".to_string()));
    req.auth_key = Some("é".repeat(257));
    assert_eq!(validate_request(&req), Err("非法 AuthKey".to_string()));
    req.auth_key = Some("é".repeat(256));
    assert_eq!(validate_request(&req), Ok(()));
    req.login_server = Some("  https://hs.example.com  ".into());
    assert_eq!(validate_request(&req), Ok(()));
    req.login_server = Some("http://hs.example.com".into());
    assert_eq!(validate_request(&req), Ok(()));
    req.login_server = Some("ftp://hs.example.com".into());
    assert_eq!(validate_request(&req), Err("非法 login server".to_string()));
    req.login_server = Some("https://hs example.com".into());
    assert_eq!(validate_request(&req), Err("非法 login server".to_string()));
    req.hostname = Some("x y".into());
    assert_eq!(validate_request(&req), Err("非法 hostname".to_string()));
}

#[test]
fn frame_limits() {
    let big = vec![b'x'; 8 * 1024 * 1024 + 1];
    assert_eq!(frame_message(&big), Err("消息过大".to_string()));
    let max = vec![b'x'; 8 * 1024 * 1024];
    let f = frame_message(&max).unwrap();
    assert_eq!(&f[0..4], &[0x00, 0x00, 0x80, 0x00]);
    assert_eq!(frame_body_len([0x00, 0x00, 0x80, 0x00]), Some(8 * 1024 * 1024));
    assert_eq!(frame_body_len([0x01, 0x00, 0x80, 0x00]), None);
    assert_eq!(frame_body_len([0, 0, 0, 0]), None);
    assert_eq!(frame_message(b""), Ok(vec![0, 0, 0, 0]));
    assert_eq!(frame_message(&[7, 8]), Ok(vec![2, 0, 0, 0, 7, 8]));
    assert_eq!(frame_body_len([0x2c, 0x01, 0, 0]), Some(300));
}

#[test]
fn response_constructors() {
    let r = Response::health(true, false);
    assert!(r.ok);
    assert_eq!(r.op, Op::Health);
    assert_eq!(r.protocol, Some(PROTOCOL_VERSION));
    assert_eq!(r.ready, Some(true));
    assert_eq!(r.connected, Some(false));
    let e = Response::err(Op::Ping, "x".to_string());
    assert!(!e.ok);
    assert_eq!(e.error.as_deref(), Some("x"));
    let m = Response::ok_message(Op::Connect, "done".to_string());
    assert!(m.ok);
    assert_eq!(m.message.as_deref(), Some("done"));
    assert_eq!(m.error, None);
}
