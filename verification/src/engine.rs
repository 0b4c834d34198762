//! The network service's bookkeeping: whether the tunnel is up, when the GUI
//! last spoke to the service (its lease), and what to do for each request.
//!
//! Starting the sidecar, logging in, querying it and tearing it down are the
//! caller's work: [`NetworkEngine::handle`] says which of them a request
//! needs, and the `finish_*` methods turn their outcome into the reply. Time
//! is a reading of the caller's monotonic clock, in nanoseconds.

use vstd::prelude::*;
use crate::cli::{connect_up_outcome, up_outcome};
use crate::config::{LEASE_TIMEOUT_SECS, PROTOCOL_VERSION};
use crate::protocol::{
    is_error_reply, is_health_reply, is_message_reply, opt_chars, opt_text, request_check,
    trim_field, trimmed_field, validate_request, Op, Request, Response,
};
use crate::status::NetworkStatus;
use crate::text::owned;

verus! {

/// The lease length in clock units (nanoseconds).
pub const LEASE_TIMEOUT_NANOS: u64 = LEASE_TIMEOUT_SECS * 1_000_000_000;

/// The service's connection state.
pub struct NetworkEngine {
    /// Whether the tunnel is up.
    pub connected: bool,
    /// When the GUI last made an accepted request, or the tunnel last came up.
    pub last_touch: u64,
}

/// What the service must do to answer a request.
pub enum EngineTask {
    /// Send this reply; nothing else is needed.
    Reply(Response),
    /// Start the sidecar and log in, then call [`NetworkEngine::finish_connect`]:
    /// under `hostname`, to `login_server` with `auth_key` when the request
    /// sent them (trimmed; absent when not sent or blank), else with the
    /// configured ones (see [`crate::cli::connect_up_arguments`]).
    Connect { hostname: String, login_server: Option<String>, auth_key: Option<String> },
    /// Tear the tunnel down, then call [`NetworkEngine::finish_teardown`].
    Disconnect,
    /// Tear the tunnel down to reset the engine, then call
    /// [`NetworkEngine::finish_teardown`].
    ResetEngine,
    /// Find out whether the sidecar runs, then call
    /// [`NetworkEngine::status_after_check`]; `connected` is the state the
    /// request was taken in.
    CheckDaemon { connected: bool },
    /// Query the sidecar's status, then call [`NetworkEngine::finish_status`].
    QueryStatus { connected: bool },
    /// Ping this address through the tunnel, then call [`NetworkEngine::finish_ping`].
    Ping(String),
    /// Ask the sidecar for its version, then call [`NetworkEngine::finish_version`].
    Version,
}

/// The lease has run out: the tunnel is up and more than the lease length
/// has passed since the last touch.
pub open spec fn lease_expired_at(e: NetworkEngine, now: u64) -> bool {
    e.connected && now > e.last_touch && now - e.last_touch > LEASE_TIMEOUT_NANOS
}

/// `t` is what the service must do for `req` when the tunnel's state is `connected`.
pub open spec fn is_task_for(t: EngineTask, connected: bool, req: Request) -> bool {
    match request_check(req) {
        Err(msg) => t matches EngineTask::Reply(r) && is_error_reply(r, req.op, msg),
        Ok(()) => match req.op {
            Op::Health => t matches EngineTask::Reply(r) && is_health_reply(r, true, connected),
            Op::Connect => t matches EngineTask::Connect { hostname, login_server, auth_key } && {
                &&& hostname@ == opt_chars(req.hostname)
                &&& opt_text(login_server) == trimmed_field(req.login_server)
                &&& opt_text(auth_key) == trimmed_field(req.auth_key)
            },
            Op::Disconnect => t is Disconnect,
            Op::Status => t == EngineTask::CheckDaemon { connected },
            Op::Ping => t matches EngineTask::Ping(ip) && ip@ == opt_chars(req.ip),
            Op::Version => t is Version,
            Op::Heartbeat => t matches EngineTask::Reply(r) && is_message_reply(
                r,
                Op::Heartbeat,
                if connected {
                    "ok"@
                } else {
                    "idle"@
                },
            ),
            Op::ResetEngine => t is ResetEngine,
        },
    }
}

/// `after` is `before` once `req` has been taken at `now`: an accepted
/// request renews the lease, a refused one changes nothing.
pub open spec fn is_state_after(before: NetworkEngine, req: Request, now: u64, after: NetworkEngine) -> bool {
    &&& after.connected == before.connected
    &&& after.last_touch == (if request_check(req) is Ok {
        now
    } else {
        before.last_touch
    })
}

impl NetworkEngine {
    /// A service with the tunnel down, started at `now`.
    pub fn new(now: u64) -> (e: Self)
        ensures
            !e.connected,
            e.last_touch == now,
    {
        NetworkEngine { connected: false, last_touch: now }
    }

    /// Whether the GUI's lease has run out at `now` (see [`lease_expired_at`]).
    pub fn lease_expired(&self, now: u64) -> (b: bool)
        ensures
            b == lease_expired_at(*self, now),
    {
        if !self.connected {
            return false;
        }
        now > self.last_touch && now - self.last_touch > LEASE_TIMEOUT_NANOS
    }

    /// Whether the tunnel must be torn down at `now` because the lease ran
    /// out; the caller then tears it down and reports with
    /// [`NetworkEngine::teardown_done`].
    pub fn enforce_lease(&self, now: u64) -> (b: bool)
        ensures
            b == lease_expired_at(*self, now),
    {
        self.lease_expired(now)
    }

    /// Takes a request at `now`: a request the protocol check refuses is
    /// answered with its error at once; an accepted one renews the lease and
    /// yields what must be done for it.
    pub fn handle(&mut self, req: &Request, now: u64) -> (t: EngineTask)
        ensures
            is_task_for(t, old(self).connected, *req),
            is_state_after(*old(self), *req, now, *final(self)),
    {
        if let Err(e) = validate_request(req) {
            return EngineTask::Reply(Response::err(req.op, e));
        }
        self.last_touch = now;
        match req.op {
            Op::Health => EngineTask::Reply(Response::health(true, self.connected)),
            Op::Connect => EngineTask::Connect {
                hostname: match &req.hostname {
                    Some(h) => h.clone(),
                    None => String::new(),
                },
                login_server: trim_field(&req.login_server),
                auth_key: trim_field(&req.auth_key),
            },
            Op::Disconnect => EngineTask::Disconnect,
            Op::Status => EngineTask::CheckDaemon { connected: self.connected },
            Op::Ping => EngineTask::Ping(
                match &req.ip {
                    Some(ip) => ip.clone(),
                    None => String::new(),
                },
            ),
            Op::Version => EngineTask::Version,
            Op::Heartbeat => EngineTask::Reply(
                Response::ok_message(
                    Op::Heartbeat,
                    if self.connected {
                        owned("ok")
                    } else {
                        owned("idle")
                    },
                ),
            ),
            Op::ResetEngine => EngineTask::ResetEngine,
        }
    }

    /// The reply to a connect request once the sidecar has been started and
    /// asked to log in: on success the tunnel is up and the lease renewed at `now`.
    pub fn finish_connect(&mut self, outcome: Result<String, String>, now: u64) -> (r: Response)
        ensures
            outcome matches Ok(m) ==> final(self).connected && final(self).last_touch == now
                && is_message_reply(r, Op::Connect, m@),
            outcome matches Err(e) ==> *final(self) == *old(self) && is_error_reply(
                r,
                Op::Connect,
                e@,
            ),
    {
        match outcome {
            Ok(m) => {
                self.connected = true;
                self.last_touch = now;
                Response::ok_message(Op::Connect, m)
            },
            Err(e) => Response::err(Op::Connect, e),
        }
    }

    /// Records the outcome of tearing the tunnel down: once it succeeded the
    /// tunnel is down.
    pub fn teardown_done(&mut self, outcome: &Result<(), String>)
        ensures
            outcome is Ok ==> !final(self).connected && final(self).last_touch == old(
                self,
            ).last_touch,
            outcome is Err ==> *final(self) == *old(self),
    {
        if outcome.is_ok() {
            self.connected = false;
        }
    }

    /// The reply to a disconnect or reset request once the tunnel has been
    /// torn down (see [`NetworkEngine::teardown_done`]).
    pub fn finish_teardown(&mut self, op: Op, outcome: Result<(), String>) -> (r: Response)
        requires
            op == Op::Disconnect || op == Op::ResetEngine,
        ensures
            outcome is Ok ==> !final(self).connected && final(self).last_touch == old(
                self,
            ).last_touch && is_message_reply(
                r,
                op,
                if op == Op::Disconnect {
                    "已断开连接"@
                } else {
                    "网络引擎已重置"@
                },
            ),
            outcome matches Err(e) ==> *final(self) == *old(self) && is_error_reply(r, op, e@),
    {
        self.teardown_done(&outcome);
        match outcome {
            Ok(()) => Response::ok_message(
                op,
                if op == Op::Disconnect {
                    owned("已断开连接")
                } else {
                    owned("网络引擎已重置")
                },
            ),
            Err(e) => Response::err(op, e),
        }
    }

    /// What follows the check whether the sidecar runs: a status request
    /// taken with the tunnel down is refused unless the sidecar still runs.
    pub fn status_after_check(connected: bool, daemon_running: bool) -> (t: EngineTask)
        ensures
            !connected && !daemon_running ==> (t matches EngineTask::Reply(r) && is_error_reply(
                r,
                Op::Status,
                "尚未连接"@,
            )),
            connected || daemon_running ==> (t == EngineTask::QueryStatus { connected }),
    {
        if !connected && !daemon_running {
            EngineTask::Reply(Response::err(Op::Status, owned("尚未连接")))
        } else {
            EngineTask::QueryStatus { connected }
        }
    }

    /// The reply to a status request from the sidecar's answer.
    pub fn finish_status(connected: bool, outcome: Result<NetworkStatus, String>) -> (r: Response)
        ensures
            outcome matches Ok(st) ==> ({
                &&& r.ok
                &&& r.op == Op::Status
                &&& r.connected == Some(connected)
                &&& r.status == Some(st)
                &&& r.error is None && r.message is None && r.protocol is None
                &&& r.ready is None && r.latency_ms is None && r.version is None
            }),
            outcome matches Err(e) ==> is_error_reply(r, Op::Status, e@),
    {
        match outcome {
            Ok(status) => Response {
                ok: true,
                op: Op::Status,
                error: None,
                message: None,
                protocol: None,
                ready: None,
                connected: Some(connected),
                status: Some(status),
                latency_ms: None,
                version: None,
            },
            Err(e) => Response::err(Op::Status, e),
        }
    }

    /// The reply to a ping request from the measured round-trip time.
    pub fn finish_ping(outcome: Result<u32, String>) -> (r: Response)
        ensures
            outcome matches Ok(ms) ==> ({
                &&& r.ok
                &&& r.op == Op::Ping
                &&& r.latency_ms == Some(ms)
                &&& r.error is None && r.message is None && r.protocol is None
                &&& r.ready is None && r.connected is None && r.status is None
                &&& r.version is None
            }),
            outcome matches Err(e) ==> is_error_reply(r, Op::Ping, e@),
    {
        match outcome {
            Ok(ms) => Response {
                ok: true,
                op: Op::Ping,
                error: None,
                message: None,
                protocol: None,
                ready: None,
                connected: None,
                status: None,
                latency_ms: Some(ms),
                version: None,
            },
            Err(e) => Response::err(Op::Ping, e),
        }
    }

    /// The reply to a version request from the sidecar's version text.
    pub fn finish_version(outcome: Result<String, String>) -> (r: Response)
        ensures
            outcome matches Ok(v) ==> ({
                &&& r.ok
                &&& r.op == Op::Version
                &&& r.version == Some(v)
                &&& r.error is None && r.message is None && r.protocol is None
                &&& r.ready is None && r.connected is None && r.status is None
                &&& r.latency_ms is None
            }),
            outcome matches Err(e) ==> is_error_reply(r, Op::Version, e@),
    {
        match outcome {
            Ok(v) => Response {
                ok: true,
                op: Op::Version,
                error: None,
                message: None,
                protocol: None,
                ready: None,
                connected: None,
                status: None,
                latency_ms: None,
                version: Some(v),
            },
            Err(e) => Response::err(Op::Version, e),
        }
    }
}

/// Every request the service accepts renews the GUI's lease: for the whole
/// lease length after it, the lease has not run out.
pub proof fn lemma_accepted_request_renews_lease(
    before: NetworkEngine,
    req: Request,
    now: u64,
    after: NetworkEngine,
    later: u64,
)
    requires
        is_state_after(before, req, now, after),
        request_check(req) is Ok,
        now <= later,
        later - now <= LEASE_TIMEOUT_NANOS,
    ensures
        !lease_expired_at(after, later),
{
}

/// A request the service refuses does not renew the lease: the service's
/// state is what it was.
pub proof fn lemma_refused_request_changes_nothing(
    before: NetworkEngine,
    req: Request,
    now: u64,
    after: NetworkEngine,
)
    requires
        is_state_after(before, req, now, after),
        request_check(req) is Err,
    ensures
        after == before,
{
}

/// The lease never runs out while the tunnel is down, and always runs out
/// once the tunnel is up and the GUI has been silent for longer than the
/// lease length.
pub proof fn lemma_lease_expiry(e: NetworkEngine, now: u64)
    ensures
        !e.connected ==> !lease_expired_at(e, now),
        e.connected && now >= e.last_touch && now - e.last_touch > LEASE_TIMEOUT_NANOS
            ==> lease_expired_at(e, now),
{
}

/// A health check reports the tunnel as it is: an accepted health request is
/// answered at once, ready, with the protocol version and `connected` equal
/// to whether the tunnel was up when it was taken.
pub proof fn lemma_health_reports_connection(t: EngineTask, connected: bool, req: Request)
    requires
        is_task_for(t, connected, req),
        req.op == Op::Health,
        req.v == PROTOCOL_VERSION,
    ensures
        t matches EngineTask::Reply(r) && r.ok && r.op == Op::Health && r.ready == Some(true)
            && r.connected == Some(connected) && r.protocol == Some(PROTOCOL_VERSION)
            && r.error is None,
{
}

/// After a successful connect the tunnel is up, so a health check taken
/// next reports it connected.
pub proof fn lemma_health_after_connect(
    e: NetworkEngine,
    t: EngineTask,
    req: Request,
    now: u64,
    after: NetworkEngine,
)
    requires
        e.connected,
        is_task_for(t, e.connected, req),
        is_state_after(e, req, now, after),
        req.op == Op::Health,
        req.v == PROTOCOL_VERSION,
    ensures
        t matches EngineTask::Reply(r) && r.connected == Some(true),
        after.connected,
{
}

/// Joining a room logs in with what the connect request carried: an accepted
/// connect request that sent an auth key (such as the one a room service
/// issues) logs in with that key, trimmed, and with the login server it sent,
/// whatever is configured; the configured ones stand in only for what the
/// request left out.
pub proof fn lemma_connect_uses_sent_credentials(
    t: EngineTask,
    connected: bool,
    req: Request,
    configured_login: Seq<char>,
    configured_key: Seq<char>,
    own_hostname: Seq<char>,
)
    requires
        is_task_for(t, connected, req),
        req.op == Op::Connect,
        request_check(req) is Ok,
    ensures
        t matches EngineTask::Connect { hostname, login_server, auth_key } && connect_up_outcome(
            hostname@,
            opt_text(login_server),
            opt_text(auth_key),
            configured_login,
            configured_key,
            own_hostname,
        ) == up_outcome(
            match trimmed_field(req.login_server) {
                Some(l) => l,
                None => configured_login,
            },
            match trimmed_field(req.auth_key) {
                Some(k) => k,
                None => configured_key,
            },
            if opt_chars(req.hostname).len() == 0 {
                own_hostname
            } else {
                opt_chars(req.hostname)
            },
        ),
{
}

} // verus!
