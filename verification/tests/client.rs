use roommate::client::{check_ready_for_connect, map_connect_error, pipe_open_retryable, ServiceClient};
use roommate::protocol::{Op, Response};

fn health_reply(protocol: Option<u32>, ready: Option<bool>) -> Result<Response, String> {
    let mut r = Response::health(true, false);
    r.protocol = protocol;
    r.ready = ready;
    Ok(r)
}

#[test]
fn health_checks_protocol() {
    let c = ServiceClient::new();
    assert!(c.health(health_reply(Some(1), Some(true))).is_ok());
    assert_eq!(
        c.health(health_reply(Some(2), Some(true))).unwrap_err(),
        "协议版本不匹配（服务 Some(2), 客户端 1）。请重装 Roommate。"
    );
    assert_eq!(
        c.health(health_reply(None, Some(true))).unwrap_err(),
        "协议版本不匹配（服务 None, 客户端 1）。请重装 Roommate。"
    );
    let failed = Response { error: None, ..Response::err(Op::Health, String::new()) };
    assert_eq!(c.health(Ok(failed)).unwrap_err(), "健康检查失败");
    assert_eq!(c.health(Err("pipe".into())).unwrap_err(), "pipe");
}

#[test]
fn ready_needs_passing_health() {
    let c = ServiceClient::new();
    assert!(c.ready(health_reply(Some(1), Some(true))));
    assert!(!c.ready(health_reply(Some(1), None)));
    assert!(!c.ready(health_reply(Some(2), Some(true))));
    assert!(!c.ready(Err("down".into())));
}

#[test]
fn connect_request_after_health() {
    let c = ServiceClient::new();
    let req = c
        .connect(health_reply(Some(1), Some(true)), "roommate-a", Some("  https://hs  "), Some("   "))
        .unwrap();
    assert_eq!(req.op, Op::Connect);
    assert_eq!(req.v, 1);
    assert_eq!(req.hostname.as_deref(), Some("roommate-a"));
    assert_eq!(req.login_server.as_deref(), Some("https://hs"));
    assert_eq!(req.auth_key, None);
    assert!(c.connect(Err("no service".into()), "h", None, None).is_err());
    assert_eq!(c.connect_reply(Ok(Response::ok_message(Op::Connect, "已连接 x".into()))), Ok("已连接 x".to_string()));
    let mut ok_no_msg = Response::health(true, true);
    ok_no_msg.op = Op::Connect;
    assert_eq!(c.connect_reply(Ok(ok_no_msg)), Ok("已连接".to_string()));
    assert_eq!(c.connect_reply(Ok(Response::err(Op::Connect, "boom".into()))), Err("boom".to_string()));
}

#[test]
fn reply_readers() {
    let c = ServiceClient::new();
    let bare_fail = Response { error: None, ..Response::err(Op::Ping, String::new()) };
    assert_eq!(c.ping(Ok(bare_fail.clone())), Err("ping 失败".to_string()));
    let mut ok = Response::ok_message(Op::Ping, "x".into());
    assert_eq!(c.ping(Ok(ok.clone())), Err("无延迟数据".to_string()));
    ok.latency_ms = Some(42);
    assert_eq!(c.ping(Ok(ok)), Ok(42));
    assert_eq!(c.version(Ok(bare_fail.clone())), Err("版本查询失败".to_string()));
    assert_eq!(c.status(Ok(bare_fail.clone())).unwrap_err(), "无法读取状态");
    assert_eq!(c.status(Ok(Response::ok_message(Op::Status, "x".into()))).unwrap_err(), "状态为空");
    assert_eq!(c.heartbeat(Ok(bare_fail.clone())), Err("心跳失败".to_string()));
    assert_eq!(c.heartbeat(Ok(Response::ok_message(Op::Heartbeat, "ok".into()))), Ok(()));
    assert_eq!(c.disconnect(Ok(bare_fail.clone())), Err("断开失败".to_string()));
    assert_eq!(c.reset_engine(Ok(bare_fail)), Err("重置网络引擎失败".to_string()));
    let mut ok_empty = Response::ok_message(Op::Disconnect, String::new());
    ok_empty.message = None;
    assert_eq!(c.disconnect(Ok(ok_empty.clone())), Ok("已断开连接".to_string()));
    assert_eq!(c.reset_engine(Ok(ok_empty)), Ok("网络引擎已重置".to_string()));
    let p = ServiceClient::ping_request("100.64.0.2");
    assert_eq!(p.op, Op::Ping);
    assert_eq!(p.ip.as_deref(), Some("100.64.0.2"));
    let h = ServiceClient::req(Op::Heartbeat);
    assert_eq!(h.v, 1);
    assert_eq!(h.hostname, None);
}

#[test]
fn gui_connect_gate() {
    let c = ServiceClient::new();
    assert_eq!(check_ready_for_connect(&c, health_reply(Some(1), Some(true))), Ok(()));
    assert_eq!(
        check_ready_for_connect(&c, health_reply(Some(1), Some(false))),
        Err("网络服务未就绪，请修复安装或运行 scripts/dev-service.ps1".to_string())
    );
    let unreachable = map_connect_error(2, "");
    assert_eq!(
        check_ready_for_connect(&c, Err(unreachable.clone())),
        Err(format!("{unreachable}（安装 Roommate 时会注册网络服务，日常使用无需再弹 UAC）"))
    );
    assert_eq!(check_ready_for_connect(&c, Err("其他".into())), Err("其他".to_string()));
}

#[test]
fn pipe_errors() {
    assert_eq!(map_connect_error(231, "busy"), "网络服务正忙，请稍后重试。");
    assert_eq!(map_connect_error(5, "denied"), "无权连接网络服务。");
    assert_eq!(map_connect_error(109, "pipe ended"), "无法连接网络服务: pipe ended");
    assert!(pipe_open_retryable(2));
    assert!(pipe_open_retryable(231));
    assert!(!pipe_open_retryable(5));
}
