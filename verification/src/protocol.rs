//! Fixed-command protocol between the GUI and the network service: the
//! messages, the checks the service applies to a request before acting on it,
//! and the length-prefixed framing of message bodies.

use vstd::prelude::*;
use vstd::utf8::encode_utf8;
use crate::config::PROTOCOL_VERSION;
use crate::status::NetworkStatus;
use crate::text::{
    chars_of, concat, decimal, decimal_string, has_prefix, is_ascii_alnum, is_ascii_alphanumeric,
    is_ascii_hex, is_ascii_hexdigit, is_control, is_ctrl, is_whitespace, is_ws, owned,
    starts_with, string_from_chars, trim, trim_chars, utf8_len_exceeds,
};

verus! {

/// The commands the service understands.
#[derive(Debug, Clone, Copy, PartialEq, Eq, Structural)]
pub enum Op {
    Health,
    Connect,
    Disconnect,
    Status,
    Ping,
    Version,
    Heartbeat,
    ResetEngine,
}

/// A request from the GUI.
#[derive(Debug, Clone)]
pub struct Request {
    pub v: u32,
    pub op: Op,
    pub hostname: Option<String>,
    pub ip: Option<String>,
    pub login_server: Option<String>,
    pub auth_key: Option<String>,
}

/// The service's reply; the optional fields are set by the commands they belong to.
#[derive(Debug, Clone)]
pub struct Response {
    pub ok: bool,
    pub op: Op,
    pub error: Option<String>,
    pub message: Option<String>,
    pub protocol: Option<u32>,
    pub ready: Option<bool>,
    pub connected: Option<bool>,
    pub status: Option<NetworkStatus>,
    pub latency_ms: Option<u32>,
    pub version: Option<String>,
}

impl Response {
    /// A failed reply to `op` carrying `error`.
    pub fn err(op: Op, error: String) -> (r: Response)
        ensures
            !r.ok,
            r.op == op,
            r.error == Some(error),
            r.message is None,
            r.protocol is None,
            r.ready is None,
            r.connected is None,
            r.status is None,
            r.latency_ms is None,
            r.version is None,
    {
        Response {
            ok: false,
            op,
            error: Some(error),
            message: None,
            protocol: None,
            ready: None,
            connected: None,
            status: None,
            latency_ms: None,
            version: None,
        }
    }

    /// The reply to a health check: the protocol version, readiness and
    /// whether the tunnel is up.
    pub fn health(ready: bool, connected: bool) -> (r: Response)
        ensures
            r.ok,
            r.op == Op::Health,
            r.error is None,
            r.message is None,
            r.protocol == Some(PROTOCOL_VERSION),
            r.ready == Some(ready),
            r.connected == Some(connected),
            r.status is None,
            r.latency_ms is None,
            r.version is None,
    {
        Response {
            ok: true,
            op: Op::Health,
            error: None,
            message: None,
            protocol: Some(PROTOCOL_VERSION),
            ready: Some(ready),
            connected: Some(connected),
            status: None,
            latency_ms: None,
            version: None,
        }
    }

    /// A successful reply to `op` carrying `message`.
    pub fn ok_message(op: Op, message: String) -> (r: Response)
        ensures
            r.ok,
            r.op == op,
            r.error is None,
            r.message == Some(message),
            r.protocol is None,
            r.ready is None,
            r.connected is None,
            r.status is None,
            r.latency_ms is None,
            r.version is None,
    {
        Response {
            ok: true,
            op,
            error: None,
            message: Some(message),
            protocol: None,
            ready: None,
            connected: None,
            status: None,
            latency_ms: None,
            version: None,
        }
    }
}

/// `r` is a failed reply to `op` whose error is `msg`.
pub open spec fn is_error_reply(r: Response, op: Op, msg: Seq<char>) -> bool {
    &&& !r.ok
    &&& r.op == op
    &&& r.error matches Some(e) && e@ == msg
    &&& r.message is None
    &&& r.protocol is None
    &&& r.ready is None
    &&& r.connected is None
    &&& r.status is None
    &&& r.latency_ms is None
    &&& r.version is None
}

/// `r` is a successful reply to `op` whose message is `msg`.
pub open spec fn is_message_reply(r: Response, op: Op, msg: Seq<char>) -> bool {
    &&& r.ok
    &&& r.op == op
    &&& r.error is None
    &&& r.message matches Some(m) && m@ == msg
    &&& r.protocol is None
    &&& r.ready is None
    &&& r.connected is None
    &&& r.status is None
    &&& r.latency_ms is None
    &&& r.version is None
}

/// `r` is the reply to a health check reporting `ready` and `connected`.
pub open spec fn is_health_reply(r: Response, ready: bool, connected: bool) -> bool {
    &&& r.ok
    &&& r.op == Op::Health
    &&& r.error is None
    &&& r.message is None
    &&& r.protocol == Some(PROTOCOL_VERSION)
    &&& r.ready == Some(ready)
    &&& r.connected == Some(connected)
    &&& r.status is None
    &&& r.latency_ms is None
    &&& r.version is None
}

// ---------------------------------------------------------------------------
// Request checks
// ---------------------------------------------------------------------------

pub open spec fn opt_chars(o: Option<String>) -> Seq<char> {
    match o {
        Some(s) => s@,
        None => Seq::empty(),
    }
}

/// The characters of an optional text, if present.
pub open spec fn opt_text(o: Option<String>) -> Option<Seq<char>> {
    match o {
        Some(s) => Some(s@),
        None => None,
    }
}

/// An optional request field as the service uses it: trimmed, and absent
/// when missing or blank.
pub open spec fn trimmed_field(o: Option<String>) -> Option<Seq<char>> {
    match o {
        Some(s) => if trim(s@).len() > 0 {
            Some(trim(s@))
        } else {
            None
        },
        None => None,
    }
}

/// An optional request field, trimmed, and absent when missing or blank
/// (see [`trimmed_field`]).
pub fn trim_field(o: &Option<String>) -> (r: Option<String>)
    ensures
        opt_text(r) == trimmed_field(*o),
{
    match o {
        Some(s) => {
            let v = chars_of(s.as_str());
            let t = trim_chars(&v);
            if t.len() == 0 {
                None
            } else {
                Some(string_from_chars(&t))
            }
        },
        None => None,
    }
}

/// Characters an IP literal may hold: hex digits, '.' and ':'.
pub open spec fn is_ip_char(c: char) -> bool {
    is_ascii_hex(c) || c == '.' || c == ':'
}

/// Characters a host name may hold: ASCII letters and digits, '-' and '_'.
pub open spec fn is_host_char(c: char) -> bool {
    is_ascii_alnum(c) || c == '-' || c == '_'
}

pub open spec fn all_ip_chars(s: Seq<char>) -> bool {
    forall|i: int| 0 <= i < s.len() ==> is_ip_char(#[trigger] s[i])
}

pub open spec fn all_host_chars(s: Seq<char>) -> bool {
    forall|i: int| 0 <= i < s.len() ==> is_host_char(#[trigger] s[i])
}

pub open spec fn has_ctrl(s: Seq<char>) -> bool {
    exists|i: int| 0 <= i < s.len() && is_ctrl(#[trigger] s[i])
}

pub open spec fn has_ws_or_ctrl(s: Seq<char>) -> bool {
    exists|i: int| 0 <= i < s.len() && (is_ws(#[trigger] s[i]) || is_ctrl(s[i]))
}

/// Size of a string in UTF-8 bytes (what `str::len` counts).
pub open spec fn byte_len(s: Seq<char>) -> nat {
    encode_utf8(s).len()
}

pub open spec fn version_mismatch_message(v: u32) -> Seq<char> {
    "协议版本不匹配（客户端 "@ + decimal(v as nat) + ", 服务 "@ + decimal(PROTOCOL_VERSION as nat)
        + "）。请重装 Roommate。"@
}

/// The check of a ping target: after trimming, it must be non-empty, at most
/// 45 bytes, and made of hex digits, '.' and ':' only.
pub open spec fn ping_check(ip: Option<String>) -> Result<(), Seq<char>> {
    let t = trim(opt_chars(ip));
    if t.len() == 0 {
        Err("IP 为空"@)
    } else if !all_ip_chars(t) || byte_len(t) > 45 {
        Err("非法 IP"@)
    } else {
        Ok(())
    }
}

pub open spec fn bad_hostname(h: Seq<char>) -> bool {
    byte_len(h) > 48 || !all_host_chars(h)
}

pub open spec fn bad_auth_key(k: Seq<char>) -> bool {
    byte_len(k) > 512 || has_ctrl(k)
}

pub open spec fn bad_login_server(s: Seq<char>) -> bool {
    let t = trim(s);
    byte_len(t) > 256 || !(has_prefix(t, "https://"@) || has_prefix(t, "http://"@))
        || has_ws_or_ctrl(t)
}

/// The checks of a connect request's optional host name, auth key and login
/// server, in that order.
pub open spec fn connect_check(req: Request) -> Result<(), Seq<char>> {
    if req.hostname is Some && bad_hostname(req.hostname->0@) {
        Err("非法 hostname"@)
    } else if req.auth_key is Some && bad_auth_key(req.auth_key->0@) {
        Err("非法 AuthKey"@)
    } else if req.login_server is Some && bad_login_server(req.login_server->0@) {
        Err("非法 login server"@)
    } else {
        Ok(())
    }
}

/// The service's verdict on a request: a protocol version other than its own
/// is refused whatever the command; ping and connect requests are then
/// checked; every other command is accepted.
pub open spec fn request_check(req: Request) -> Result<(), Seq<char>> {
    if req.v != PROTOCOL_VERSION {
        Err(version_mismatch_message(req.v))
    } else {
        match req.op {
            Op::Ping => ping_check(req.ip),
            Op::Connect => connect_check(req),
            _ => Ok(()),
        }
    }
}

pub open spec fn result_view(r: Result<(), String>) -> Result<(), Seq<char>> {
    match r {
        Ok(()) => Ok(()),
        Err(e) => Err(e@),
    }
}

fn all_ip(v: &Vec<char>) -> (b: bool)
    ensures
        b == all_ip_chars(v@),
{
    for i in 0..v.len()
        invariant
            forall|j: int| 0 <= j < i ==> is_ip_char(#[trigger] v@[j]),
    {
        let c = v[i];
        if !(is_ascii_hexdigit(c) || c == '.' || c == ':') {
            return false;
        }
    }
    true
}

fn all_host(v: &Vec<char>) -> (b: bool)
    ensures
        b == all_host_chars(v@),
{
    for i in 0..v.len()
        invariant
            forall|j: int| 0 <= j < i ==> is_host_char(#[trigger] v@[j]),
    {
        let c = v[i];
        if !(is_ascii_alphanumeric(c) || c == '-' || c == '_') {
            return false;
        }
    }
    true
}

fn any_ctrl(v: &Vec<char>) -> (b: bool)
    ensures
        b == has_ctrl(v@),
{
    for i in 0..v.len()
        invariant
            forall|j: int| 0 <= j < i ==> !is_ctrl(#[trigger] v@[j]),
    {
        if is_control(v[i]) {
            return true;
        }
    }
    false
}

fn any_ws_or_ctrl(v: &Vec<char>) -> (b: bool)
    ensures
        b == has_ws_or_ctrl(v@),
{
    for i in 0..v.len()
        invariant
            forall|j: int| 0 <= j < i ==> !(is_ws(#[trigger] v@[j]) || is_ctrl(v@[j])),
    {
        if is_whitespace(v[i]) || is_control(v[i]) {
            return true;
        }
    }
    false
}

fn check_ping(ip: &Option<String>) -> (r: Result<(), String>)
    ensures
        result_view(r) == ping_check(*ip),
{
    let raw = match ip {
        Some(s) => chars_of(s.as_str()),
        None => Vec::new(),
    };
    let t = trim_chars(&raw);
    if t.len() == 0 {
        return Err(owned("IP 为空"));
    }
    if !all_ip(&t) || utf8_len_exceeds(&t, 45) {
        return Err(owned("非法 IP"));
    }
    Ok(())
}

fn check_connect(req: &Request) -> (r: Result<(), String>)
    ensures
        result_view(r) == connect_check(*req),
{
    if let Some(h) = &req.hostname {
        let hv = chars_of(h.as_str());
        if utf8_len_exceeds(&hv, 48) || !all_host(&hv) {
            return Err(owned("非法 hostname"));
        }
    }
    if let Some(key) = &req.auth_key {
        let kv = chars_of(key.as_str());
        if utf8_len_exceeds(&kv, 512) || any_ctrl(&kv) {
            return Err(owned("非法 AuthKey"));
        }
    }
    if let Some(server) = &req.login_server {
        let sv = chars_of(server.as_str());
        let t = trim_chars(&sv);
        let https = chars_of("https://");
        let http = chars_of("http://");
        if utf8_len_exceeds(&t, 256) || !(starts_with(&t, &https) || starts_with(&t, &http))
            || any_ws_or_ctrl(&t) {
            return Err(owned("非法 login server"));
        }
    }
    Ok(())
}

/// The error message for a request of protocol version `v`.
fn version_mismatch(v: u32) -> (m: String)
    ensures
        m@ == version_mismatch_message(v),
{
    let m = concat("协议版本不匹配（客户端 ", decimal_string(v as u64).as_str());
    let m = concat(m.as_str(), ", 服务 ");
    let m = concat(m.as_str(), decimal_string(PROTOCOL_VERSION as u64).as_str());
    concat(m.as_str(), "）。请重装 Roommate。")
}

/// Checks a request before the service acts on it (see [`request_check`]).
pub fn validate_request(req: &Request) -> (r: Result<(), String>)
    ensures
        result_view(r) == request_check(*req),
{
    if req.v != PROTOCOL_VERSION {
        return Err(version_mismatch(req.v));
    }
    match req.op {
        Op::Ping => check_ping(&req.ip),
        Op::Connect => check_connect(req),
        _ => Ok(()),
    }
}

// ---------------------------------------------------------------------------
// Framing
// ---------------------------------------------------------------------------

/// Largest message body, in bytes, that is sent or accepted.
pub const MAX_FRAME_LEN: usize = 8 * 1024 * 1024;

/// `n` as four little-endian bytes.
pub open spec fn le_bytes(n: u32) -> Seq<u8> {
    seq![
        (n % 256) as u8,
        ((n / 256) % 256) as u8,
        ((n / 65536) % 256) as u8,
        (n / 16777216) as u8,
    ]
}

/// The number that four little-endian bytes stand for.
pub open spec fn le_value(b: Seq<u8>) -> nat {
    (b[0] + 256 * b[1] + 65536 * b[2] + 16777216 * b[3]) as nat
}

/// The body length a receiver accepts from a 4-byte header: the announced
/// length when it is neither 0 nor larger than [`MAX_FRAME_LEN`].
pub open spec fn accepted_len(header: Seq<u8>) -> Option<nat> {
    let n = le_value(header);
    if 0 < n <= MAX_FRAME_LEN {
        Some(n)
    } else {
        None
    }
}

/// The frame of a body: its length as four little-endian bytes, then the body.
pub open spec fn frame_of(body: Seq<u8>) -> Seq<u8> {
    le_bytes(body.len() as u32) + body
}

pub proof fn lemma_le_roundtrip(n: u32)
    ensures
        le_value(le_bytes(n)) == n,
{
    let a = n % 256;
    let q1 = n / 256;
    let b = q1 % 256;
    let q2 = q1 / 256;
    let c = q2 % 256;
    let d = q2 / 256;
    assert(n / 65536 == q2);
    assert(n / 16777216 == d);
    assert(n == a + 256 * b + 65536 * c + 16777216 * d);
}

/// Frames a serialized message body; a body larger than [`MAX_FRAME_LEN`]
/// is refused.
pub fn frame_message(body: &[u8]) -> (r: Result<Vec<u8>, String>)
    ensures
        body@.len() > MAX_FRAME_LEN <==> r is Err,
        r matches Err(e) ==> e@ == "消息过大"@,
        r matches Ok(out) ==> out@ == frame_of(body@),
{
    if body.len() > MAX_FRAME_LEN {
        return Err(owned("消息过大"));
    }
    let n = body.len() as u32;
    let mut out: Vec<u8> = Vec::with_capacity(4 + body.len());
    out.push((n % 256) as u8);
    out.push(((n / 256) % 256) as u8);
    out.push(((n / 65536) % 256) as u8);
    out.push((n / 16777216) as u8);
    for i in 0..body.len()
        invariant
            n == body@.len(),
            out@ == le_bytes(n) + body@.take(i as int),
    {
        out.push(body[i]);
        assert(body@.take(i + 1) =~= body@.take(i as int).push(body@[i as int]));
    }
    assert(body@.take(body@.len() as int) =~= body@);
    Ok(out)
}

/// The body length announced by a frame header, if a receiver accepts it.
pub fn frame_body_len(header: [u8; 4]) -> (r: Option<usize>)
    ensures
        r matches Some(n) ==> accepted_len(header@) == Some(n as nat),
        r is None ==> accepted_len(header@) is None,
{
    let n: u32 = header[0] as u32 + 256 * (header[1] as u32) + 65536 * (header[2] as u32)
        + 16777216 * (header[3] as u32);
    assert(n == le_value(header@));
    if n == 0 || n as usize > MAX_FRAME_LEN {
        None
    } else {
        Some(n as usize)
    }
}

/// A frame made by [`frame_message`] is read back as the same body: its
/// header announces the body's length, a receiver accepts it unless the body
/// is empty, and the bytes after the header are the body.
pub proof fn lemma_frame_roundtrip(body: Seq<u8>)
    requires
        body.len() <= MAX_FRAME_LEN,
    ensures
        le_value(frame_of(body).take(4)) == body.len(),
        frame_of(body).skip(4) == body,
        body.len() > 0 ==> accepted_len(frame_of(body).take(4)) == Some(body.len()),
{
    lemma_le_roundtrip(body.len() as u32);
    assert(frame_of(body).take(4) =~= le_bytes(body.len() as u32));
    assert(frame_of(body).skip(4) =~= body);
}

} // verus!
