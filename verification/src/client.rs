//! The GUI side of the service protocol: the requests the client sends and
//! how it reads the service's replies.
//!
//! Sending a request and receiving the reply is the caller's work; every
//! method here that reads a reply takes it as delivered by the transport,
//! `Err` carrying the transport's own failure.

use vstd::prelude::*;
use crate::config::{hostname_for, lemma_hostname_accepted, PROTOCOL_VERSION};
use crate::protocol::{
    is_error_reply, is_health_reply, is_message_reply, request_check, Op, Request, Response,
};
use crate::status::{opt_chars_or, NetworkStatus};
use crate::text::{
    chars_of, clone_string, concat, contains, contains_seq, decimal, decimal_string, owned,
    string_from_chars, trim, trim_chars,
};

verus! {

/// Client of the network service.
#[derive(Clone, Copy)]
pub struct ServiceClient;

impl Default for ServiceClient {
    fn default() -> (c: Self) {
        ServiceClient
    }
}

/// How `{:?}` shows an `Option<u32>`.
pub open spec fn debug_opt_u32(p: Option<u32>) -> Seq<char> {
    match p {
        Some(n) => "Some("@ + decimal(n as nat) + ")"@,
        None => "None"@,
    }
}

pub open spec fn protocol_mismatch_message(p: Option<u32>) -> Seq<char> {
    "协议版本不匹配（服务 "@ + debug_opt_u32(p) + ", 客户端 "@ + decimal(PROTOCOL_VERSION as nat)
        + "）。请重装 Roommate。"@
}

/// The error a reply stands for, if it is one: the transport's error, or the
/// service's error message, or `fallback` when a failed reply gives none.
pub open spec fn reply_error(reply: Result<Response, String>, fallback: Seq<char>) -> Option<Seq<char>> {
    match reply {
        Err(e) => Some(e@),
        Ok(r) => if r.ok {
            None
        } else {
            Some(opt_chars_or(r.error, fallback))
        },
    }
}

/// What a health check yields: the reply, if it succeeded and speaks this
/// client's protocol version.
pub open spec fn health_outcome(reply: Result<Response, String>) -> Result<Response, Seq<char>> {
    match reply_error(reply, "健康检查失败"@) {
        Some(e) => Err(e),
        None => {
            let r = reply->Ok_0;
            if r.protocol != Some(PROTOCOL_VERSION) {
                Err(protocol_mismatch_message(r.protocol))
            } else {
                Ok(r)
            }
        },
    }
}

/// A text that is set and not blank, trimmed.
pub open spec fn trimmed_non_empty(o: Option<&str>) -> Option<Seq<char>> {
    match o {
        Some(s) => if trim(s@).len() > 0 {
            Some(trim(s@))
        } else {
            None
        },
        None => None,
    }
}

pub open spec fn opt_string_view(o: Option<String>) -> Option<Seq<char>> {
    match o {
        Some(s) => Some(s@),
        None => None,
    }
}

pub open spec fn is_bare_request(r: Request, op: Op) -> bool {
    &&& r.v == PROTOCOL_VERSION
    &&& r.op == op
    &&& r.hostname is None
    &&& r.ip is None
    &&& r.login_server is None
    &&& r.auth_key is None
}

pub open spec fn string_result_view<T>(r: Result<T, String>) -> Result<T, Seq<char>> {
    match r {
        Ok(v) => Ok(v),
        Err(e) => Err(e@),
    }
}

pub open spec fn text_result_view(r: Result<String, String>) -> Result<Seq<char>, Seq<char>> {
    match r {
        Ok(v) => Ok(v@),
        Err(e) => Err(e@),
    }
}

/// The answer a reply carries: `field` of a successful reply, its error
/// otherwise (see [`reply_error`]); `missing` when a successful reply lacks it.
pub open spec fn answer<T>(
    reply: Result<Response, String>,
    fallback: Seq<char>,
    field: Option<T>,
    missing: Seq<char>,
) -> Result<T, Seq<char>> {
    match reply_error(reply, fallback) {
        Some(e) => Err(e),
        None => match field {
            Some(v) => Ok(v),
            None => Err(missing),
        },
    }
}

pub open spec fn message_answer(
    reply: Result<Response, String>,
    fallback: Seq<char>,
    default: Seq<char>,
) -> Result<Seq<char>, Seq<char>> {
    match reply_error(reply, fallback) {
        Some(e) => Err(e),
        None => Ok(opt_chars_or(reply->Ok_0.message, default)),
    }
}

fn fail_text(r: &Response, fallback: &str) -> (e: String)
    ensures
        e@ == opt_chars_or(r.error, fallback@),
{
    match &r.error {
        Some(e) => clone_string(e),
        None => owned(fallback),
    }
}

fn debug_opt_u32_string(p: Option<u32>) -> (s: String)
    ensures
        s@ == debug_opt_u32(p),
{
    match p {
        Some(n) => {
            let a = concat("Some(", decimal_string(n as u64).as_str());
            concat(a.as_str(), ")")
        },
        None => owned("None"),
    }
}

fn message_or(r: &Response, default: &str) -> (m: String)
    ensures
        m@ == opt_chars_or(r.message, default@),
{
    match &r.message {
        Some(m) => clone_string(m),
        None => owned(default),
    }
}

fn trim_opt(o: Option<&str>) -> (r: Option<String>)
    ensures
        opt_string_view(r) == trimmed_non_empty(o),
{
    match o {
        Some(s) => {
            let v = chars_of(s);
            let t = trim_chars(&v);
            if t.len() == 0 {
                None
            } else {
                Some(string_from_chars(&t))
            }
        },
        None => None,
    }
}

/// The reply to a command that answers with a message: the message (or
/// `default` when there is none) on success, the error otherwise.
fn read_message(reply: Result<Response, String>, fallback: &str, default: &str) -> (r: Result<String, String>)
    ensures
        text_result_view(r) == message_answer(reply, fallback@, default@),
{
    match reply {
        Err(e) => Err(e),
        Ok(resp) => if !resp.ok {
            Err(fail_text(&resp, fallback))
        } else {
            Ok(message_or(&resp, default))
        },
    }
}

impl ServiceClient {
    pub fn new() -> (c: Self) {
        ServiceClient
    }

    /// A request for `op` with no arguments.
    pub fn req(op: Op) -> (r: Request)
        ensures
            is_bare_request(r, op),
    {
        Request {
            v: PROTOCOL_VERSION,
            op,
            hostname: None,
            ip: None,
            login_server: None,
            auth_key: None,
        }
    }

    /// Reads the reply to a health check ([`health_outcome`]): a failed reply
    /// or one of another protocol version is an error.
    pub fn health(&self, reply: Result<Response, String>) -> (r: Result<Response, String>)
        ensures
            string_result_view(r) == health_outcome(reply),
    {
        match reply {
            Err(e) => Err(e),
            Ok(resp) => {
                if !resp.ok {
                    return Err(fail_text(&resp, "健康检查失败"));
                }
                if resp.protocol != Some(PROTOCOL_VERSION) {
                    let m = concat("协议版本不匹配（服务 ", debug_opt_u32_string(resp.protocol).as_str());
                    let m = concat(m.as_str(), ", 客户端 ");
                    let m = concat(m.as_str(), decimal_string(PROTOCOL_VERSION as u64).as_str());
                    return Err(concat(m.as_str(), "）。请重装 Roommate。"));
                }
                Ok(resp)
            },
        }
    }

    /// Whether the service is ready, by the reply to a health check: only a
    /// passing health check that reports readiness counts.
    pub fn ready(&self, reply: Result<Response, String>) -> (b: bool)
        ensures
            b == (health_outcome(reply) matches Ok(r) && r.ready == Some(true)),
    {
        match self.health(reply) {
            Ok(r) => match r.ready {
                Some(b) => b,
                None => false,
            },
            Err(_) => false,
        }
    }

    /// The connect request to send once the health check has passed; the
    /// health check's error otherwise. Login server and auth key are sent
    /// trimmed, and only when not blank.
    pub fn connect(
        &self,
        health_reply: Result<Response, String>,
        hostname: &str,
        login_server: Option<&str>,
        auth_key: Option<&str>,
    ) -> (r: Result<Request, String>)
        ensures
            health_outcome(health_reply) matches Err(e) ==> (r matches Err(e2) && e2@ == e),
            health_outcome(health_reply) is Ok ==> (r matches Ok(req) && {
                &&& req.v == PROTOCOL_VERSION
                &&& req.op == Op::Connect
                &&& opt_string_view(req.hostname) == Some(hostname@)
                &&& req.ip is None
                &&& opt_string_view(req.login_server) == trimmed_non_empty(login_server)
                &&& opt_string_view(req.auth_key) == trimmed_non_empty(auth_key)
            }),
    {
        match self.health(health_reply) {
            Err(e) => Err(e),
            Ok(_) => {
                let mut req = Self::req(Op::Connect);
                req.hostname = Some(owned(hostname));
                req.login_server = trim_opt(login_server);
                req.auth_key = trim_opt(auth_key);
                Ok(req)
            },
        }
    }

    /// Reads the reply to a connect request.
    pub fn connect_reply(&self, reply: Result<Response, String>) -> (r: Result<String, String>)
        ensures
            text_result_view(r) == message_answer(
                reply,
                "连接失败"@,
                "已连接"@,
            ),
    {
        read_message(reply, "连接失败", "已连接")
    }

    /// Reads the reply to a disconnect request.
    pub fn disconnect(&self, reply: Result<Response, String>) -> (r: Result<String, String>)
        ensures
            text_result_view(r) == message_answer(
                reply,
                "断开失败"@,
                "已断开连接"@,
            ),
    {
        read_message(reply, "断开失败", "已断开连接")
    }

    /// Reads the reply to a request to reset the network engine.
    pub fn reset_engine(&self, reply: Result<Response, String>) -> (r: Result<String, String>)
        ensures
            text_result_view(r) == message_answer(
                reply,
                "重置网络引擎失败"@,
                "网络引擎已重置"@,
            ),
    {
        read_message(reply, "重置网络引擎失败", "网络引擎已重置")
    }

    /// Reads the reply to a status request.
    pub fn status(&self, reply: Result<Response, String>) -> (r: Result<NetworkStatus, String>)
        ensures
            string_result_view(r) == answer(
                reply,
                "无法读取状态"@,
                match reply {
                    Ok(resp) => resp.status,
                    Err(_) => None,
                },
                "状态为空"@,
            ),
    {
        match reply {
            Err(e) => Err(e),
            Ok(resp) => {
                if !resp.ok {
                    return Err(fail_text(&resp, "无法读取状态"));
                }
                match resp.status {
                    Some(s) => Ok(s),
                    None => Err(owned("状态为空")),
                }
            },
        }
    }

    /// The request to ping `ip` through the tunnel.
    pub fn ping_request(ip: &str) -> (r: Request)
        ensures
            r.v == PROTOCOL_VERSION,
            r.op == Op::Ping,
            opt_string_view(r.ip) == Some(ip@),
            r.hostname is None,
            r.login_server is None,
            r.auth_key is None,
    {
        let mut req = Self::req(Op::Ping);
        req.ip = Some(owned(ip));
        req
    }

    /// Reads the reply to a ping request: the round-trip time in milliseconds.
    pub fn ping(&self, reply: Result<Response, String>) -> (r: Result<u32, String>)
        ensures
            string_result_view(r) == answer(
                reply,
                "ping 失败"@,
                match reply {
                    Ok(resp) => resp.latency_ms,
                    Err(_) => None,
                },
                "无延迟数据"@,
            ),
    {
        match reply {
            Err(e) => Err(e),
            Ok(resp) => {
                if !resp.ok {
                    return Err(fail_text(&resp, "ping 失败"));
                }
                match resp.latency_ms {
                    Some(ms) => Ok(ms),
                    None => Err(owned("无延迟数据")),
                }
            },
        }
    }

    /// Reads the reply to a version request: the sidecar's version text.
    pub fn version(&self, reply: Result<Response, String>) -> (r: Result<String, String>)
        ensures
            text_result_view(r) == answer(
                reply,
                "版本查询失败"@,
                match reply {
                    Ok(resp) => opt_string_view(resp.version),
                    Err(_) => None,
                },
                "无版本信息"@,
            ),
    {
        match reply {
            Err(e) => Err(e),
            Ok(resp) => {
                if !resp.ok {
                    return Err(fail_text(&resp, "版本查询失败"));
                }
                match resp.version {
                    Some(v) => Ok(v),
                    None => Err(owned("无版本信息")),
                }
            },
        }
    }

    /// Reads the reply to a lease heartbeat.
    pub fn heartbeat(&self, reply: Result<Response, String>) -> (r: Result<(), String>)
        ensures
            string_result_view(r) == (match reply_error(reply, "心跳失败"@) {
                Some(e) => Err(e),
                None => Ok(()),
            }),
    {
        match reply {
            Err(e) => Err(e),
            Ok(resp) => if !resp.ok {
                Err(fail_text(&resp, "心跳失败"))
            } else {
                Ok(())
            },
        }
    }
}

// ---------------------------------------------------------------------------
// GUI connect command and transport errors
// ---------------------------------------------------------------------------

pub open spec fn mentions_unreachable(e: Seq<char>) -> bool {
    contains_seq(e, "未就绪"@) || contains_seq(e, "无法连接"@)
}

/// What the GUI's connect command makes of the health check that precedes
/// it: an unreachable service's error gets a note about the installer, and a
/// service that is not ready is refused.
pub open spec fn connect_gate(reply: Result<Response, String>) -> Result<(), Seq<char>> {
    match health_outcome(reply) {
        Err(e) => Err(
            if mentions_unreachable(e) {
                e + "（安装 Roommate 时会注册网络服务，日常使用无需再弹 UAC）"@
            } else {
                e
            },
        ),
        Ok(r) => if r.ready == Some(true) {
            Ok(())
        } else {
            Err("网络服务未就绪，请修复安装或运行 scripts/dev-service.ps1"@)
        },
    }
}

/// Checks the service's health reply before the GUI connects (see [`connect_gate`]).
pub fn check_ready_for_connect(client: &ServiceClient, reply: Result<Response, String>) -> (r: Result<(), String>)
    ensures
        string_result_view(r) == connect_gate(reply),
{
    match client.health(reply) {
        Err(e) => {
            let ev = chars_of(e.as_str());
            let a = chars_of("未就绪");
            let b = chars_of("无法连接");
            if contains(&ev, &a) || contains(&ev, &b) {
                Err(concat(e.as_str(), "（安装 Roommate 时会注册网络服务，日常使用无需再弹 UAC）"))
            } else {
                Err(e)
            }
        },
        Ok(h) => {
            if h.ready == Some(true) {
                Ok(())
            } else {
                Err(owned("网络服务未就绪，请修复安装或运行 scripts/dev-service.ps1"))
            }
        },
    }
}

/// Whether opening the service's pipe is worth retrying after the OS error
/// `code`: only when the pipe does not exist yet (2) or is busy (231).
pub fn pipe_open_retryable(code: i32) -> (b: bool)
    ensures
        b == (code == 2 || code == 231),
{
    code == 2 || code == 231
}

/// The message shown when the service's pipe cannot be opened, by OS error
/// code; `os_error` is the system's own description, used for other codes.
pub fn map_connect_error(code: i32, os_error: &str) -> (m: String)
    ensures
        m@ == (if code == 2 {
            "网络服务未就绪。请确认已安装 Roommate，或管理员运行 scripts/dev-service.ps1。"@
        } else if code == 231 {
            "网络服务正忙，请稍后重试。"@
        } else if code == 5 {
            "无权连接网络服务。"@
        } else {
            "无法连接网络服务: "@ + os_error@
        }),
{
    if code == 2 {
        owned("网络服务未就绪。请确认已安装 Roommate，或管理员运行 scripts/dev-service.ps1。")
    } else if code == 231 {
        owned("网络服务正忙，请稍后重试。")
    } else if code == 5 {
        owned("无权连接网络服务。")
    } else {
        concat("无法连接网络服务: ", os_error)
    }
}

// ---------------------------------------------------------------------------
// Agreement between the client and the service
// ---------------------------------------------------------------------------

/// The reply the service makes to a health check passes the client's health
/// check: both speak the same protocol version.
pub proof fn lemma_service_health_reply_passes(r: Response, ready: bool, connected: bool)
    requires
        is_health_reply(r, ready, connected),
    ensures
        health_outcome(Ok::<Response, String>(r)) == Ok::<Response, Seq<char>>(r),
{
}

/// The service accepts every request the client makes without arguments,
/// except a ping, which needs an address.
pub proof fn lemma_bare_requests_accepted(req: Request, op: Op)
    requires
        is_bare_request(req, op),
        op != Op::Ping,
    ensures
        request_check(req) is Ok,
{
}

/// The service accepts the connect request the client makes for this
/// machine's host name when no login server or auth key is passed on.
pub proof fn lemma_own_connect_request_accepted(req: Request, user: Seq<char>)
    requires
        req.v == PROTOCOL_VERSION,
        req.op == Op::Connect,
        opt_string_view(req.hostname) == Some(hostname_for(user)),
        req.login_server is None,
        req.auth_key is None,
    ensures
        request_check(req) is Ok,
{
    lemma_hostname_accepted(user);
}

/// A failed reply from the service is reported by the client with the
/// service's own error text, whatever the command.
pub proof fn lemma_service_error_reaches_client(r: Response, op: Op, e: Seq<char>, fallback: Seq<char>)
    requires
        is_error_reply(r, op, e),
    ensures
        reply_error(Ok::<Response, String>(r), fallback) == Some(e),
{
}

/// A successful reply carrying a message is reported by the client as that
/// message, whatever default the client would use for a reply without one.
pub proof fn lemma_service_message_reaches_client(
    r: Response,
    op: Op,
    m: Seq<char>,
    fallback: Seq<char>,
    default: Seq<char>,
)
    requires
        is_message_reply(r, op, m),
    ensures
        message_answer(Ok::<Response, String>(r), fallback, default) == Ok::<Seq<char>, Seq<char>>(m),
{
}

/// A successful reply carrying a value (a latency, a version, a status) is
/// read by the client as that value.
pub proof fn lemma_service_value_reaches_client<T>(
    r: Response,
    value: T,
    fallback: Seq<char>,
    missing: Seq<char>,
)
    requires
        r.ok,
    ensures
        answer(Ok::<Response, String>(r), fallback, Some(value), missing) == Ok::<T, Seq<char>>(value),
{
}

} // verus!
