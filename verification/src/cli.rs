//! The parts of driving the `tailscale` command-line tool that decide rather
//! than run: the arguments of `tailscale up`, how a finished command's output
//! is read, when a login counts as complete, and where a latency figure is
//! looked for in `tailscale ping` output.
//!
//! Turning a latency figure such as `45.2` into whole milliseconds is done
//! with floating point by the caller.

use vstd::prelude::*;
use crate::protocol::opt_text;
use crate::status::NetworkStatus;
use crate::text::{
    chars_of, clone_string, concat, contains, contains_seq, decimal, decimal_string, ends_with,
    find_seq, has_suffix, is_whitespace, is_ws, lowered, occurs_at, owned, slice_chars,
    string_from_chars, to_lower, trim, trim_chars, trim_end_char, trim_end_char_chars,
};

verus! {

// ---------------------------------------------------------------------------
// Words
// ---------------------------------------------------------------------------

/// Splitting `s` into words, as a left fold over its characters: the words
/// finished so far, and the word being read.
pub open spec fn words_state(s: Seq<char>) -> (Seq<Seq<char>>, Seq<char>)
    decreases s.len(),
{
    if s.len() == 0 {
        (seq![], seq![])
    } else {
        let (done, cur) = words_state(s.drop_last());
        let c = s.last();
        if is_ws(c) {
            if cur.len() > 0 {
                (done.push(cur), seq![])
            } else {
                (done, cur)
            }
        } else {
            (done, cur.push(c))
        }
    }
}

/// The white-space separated words of `s` (`str::split_whitespace`).
pub open spec fn words(s: Seq<char>) -> Seq<Seq<char>> {
    let (done, cur) = words_state(s);
    if cur.len() > 0 {
        done.push(cur)
    } else {
        done
    }
}

/// The white-space separated words of `v`.
pub fn split_words(v: &Vec<char>) -> (r: Vec<Vec<char>>)
    ensures
        r@.map_values(|w: Vec<char>| w@) == words(v@),
{
    let mut done: Vec<Vec<char>> = Vec::new();
    let mut cur: Vec<char> = Vec::new();
    for i in 0..v.len()
        invariant
            (done@.map_values(|w: Vec<char>| w@), cur@) == words_state(v@.take(i as int)),
    {
        let c = v[i];
        assert(v@.take(i + 1).drop_last() =~= v@.take(i as int));
        let ghost before = done@;
        if is_whitespace(c) {
            if cur.len() > 0 {
                let w = cur;
                done.push(w);
                cur = Vec::new();
                assert(done@.map_values(|w: Vec<char>| w@) =~= before.map_values(
                    |w: Vec<char>| w@,
                ).push(w@));
                assert(cur@ =~= Seq::<char>::empty());
            }
        } else {
            cur.push(c);
        }
    }
    assert(v@.take(v@.len() as int) =~= v@);
    if cur.len() > 0 {
        let ghost before = done@;
        done.push(cur);
        assert(done@.map_values(|w: Vec<char>| w@) =~= before.map_values(|w: Vec<char>| w@).push(
            cur@,
        ));
    }
    done
}

// ---------------------------------------------------------------------------
// Latency in `tailscale ping` output
// ---------------------------------------------------------------------------

/// The unit a duration text is written in.
#[derive(Debug, Clone, Copy, PartialEq, Eq, Structural)]
pub enum DurationUnit {
    Millis,
    Seconds,
}

/// A duration text such as `12.6ms` or `0.5s`, trimmed, split into its
/// number text and unit; `None` when it ends in neither `ms` nor `s`.
pub open spec fn duration_parts(s: Seq<char>) -> Option<(Seq<char>, DurationUnit)> {
    let t = trim(s);
    if has_suffix(t, "ms"@) {
        Some((t.take(t.len() - 2), DurationUnit::Millis))
    } else if has_suffix(t, "s"@) {
        Some((t.take(t.len() - 1), DurationUnit::Seconds))
    } else {
        None
    }
}

/// Splits a duration text into its number text and unit (see [`duration_parts`]).
pub fn split_duration(s: &str) -> (r: Option<(String, DurationUnit)>)
    ensures
        r matches Some(p) ==> duration_parts(s@) == Some((p.0@, p.1)),
        r is None ==> duration_parts(s@) is None,
{
    let v = chars_of(s);
    let t = trim_chars(&v);
    let ms = chars_of("ms");
    let sec = chars_of("s");
    proof {
        reveal_strlit("ms");
        reveal_strlit("s");
    }
    if ends_with(&t, &ms) {
        let num = slice_chars(&t, 0, t.len() - 2);
        Some((string_from_chars(&num), DurationUnit::Millis))
    } else if ends_with(&t, &sec) {
        let num = slice_chars(&t, 0, t.len() - 1);
        Some((string_from_chars(&num), DurationUnit::Seconds))
    } else {
        None
    }
}

/// The texts tried, in order, as the duration of one word of ping output:
/// the word without trailing commas, then the word itself if it ends in `ms`.
pub open spec fn word_candidates(w: Seq<char>) -> Seq<Seq<char>> {
    seq![trim_end_char(w, ',')] + (if has_suffix(w, "ms"@) {
        seq![w]
    } else {
        seq![]
    })
}

pub open spec fn words_candidates(ws: Seq<Seq<char>>) -> Seq<Seq<char>>
    decreases ws.len(),
{
    if ws.len() == 0 {
        seq![]
    } else {
        words_candidates(ws.drop_last()) + word_candidates(ws.last())
    }
}

/// Where `p` first occurs in `s`.
pub open spec fn first_occurrence(s: Seq<char>, p: Seq<char>) -> int {
    choose|i: int| occurs_at(s, p, i) && forall|j: int| 0 <= j < i ==> !occurs_at(s, p, j)
}

/// The texts tried, in order, as the round-trip time reported by
/// `tailscale ping`: the candidates of each word, then the first word after
/// the first " in " (if any). The first of them that reads as a duration is
/// the latency.
pub open spec fn ping_candidates(out: Seq<char>) -> Seq<Seq<char>> {
    words_candidates(words(out)) + (if contains_seq(out, " in "@) {
        let ws = words(out.skip(first_occurrence(out, " in "@) + 4));
        if ws.len() > 0 {
            seq![ws[0]]
        } else {
            seq![]
        }
    } else {
        seq![]
    })
}

/// The texts to read, in order, as the latency in `tailscale ping` output
/// (see [`ping_candidates`]).
pub fn ping_latency_candidates(out: &str) -> (r: Vec<String>)
    ensures
        r@.map_values(|s: String| s@) == ping_candidates(out@),
{
    let v = chars_of(out);
    let ws = split_words(&v);
    let ms = chars_of("ms");
    let mut r: Vec<String> = Vec::new();
    for i in 0..ws.len()
        invariant
            ws@.map_values(|w: Vec<char>| w@) == words(out@),
            ms@ == "ms"@,
            r@.map_values(|s: String| s@) == words_candidates(words(out@).take(i as int)),
    {
        let ghost before = r@;
        let w = &ws[i];
        let t = trim_end_char_chars(w, ',');
        r.push(string_from_chars(&t));
        if ends_with(w, &ms) {
            r.push(string_from_chars(w));
        }
        proof {
            let ww = words(out@);
            assert(ww[i as int] == w@);
            assert(ww.take(i + 1).drop_last() =~= ww.take(i as int));
            assert(r@.map_values(|s: String| s@) =~= before.map_values(|s: String| s@)
                + word_candidates(w@));
        }
    }
    proof {
        assert(words(out@).take(ws@.len() as int) =~= words(out@));
    }
    let sep = chars_of(" in ");
    proof {
        reveal_strlit(" in ");
    }
    assert(sep@.len() == 4);
    match find_seq(&v, &sep) {
        Some(idx) => {
            proof {
                let f = first_occurrence(out@, " in "@);
                assert(occurs_at(out@, " in "@, idx as int));
                assert(contains_seq(out@, " in "@));
                if f != idx {
                    if f < idx {
                    } else {
                        assert(!occurs_at(out@, " in "@, idx as int));
                    }
                }
            }
            assert(idx + sep@.len() <= v@.len());
            let n: usize = v.len();
            assert(idx + 4 <= n);
            let start: usize = idx + 4;
            let rest = slice_chars(&v, start, n);
            assert(rest@ =~= out@.skip(idx + 4));
            let rw = split_words(&rest);
            if rw.len() > 0 {
                let ghost before = r@;
                r.push(string_from_chars(&rw[0]));
                assert(r@.map_values(|s: String| s@) =~= before.map_values(|s: String| s@).push(
                    rw@[0]@,
                ));
                assert(rw@.map_values(|w: Vec<char>| w@)[0] == rw@[0]@);
            }
        },
        None => {},
    }
    r
}

// ---------------------------------------------------------------------------
// `tailscale up`
// ---------------------------------------------------------------------------

/// The auth key is missing or still the placeholder.
pub open spec fn auth_key_unset(key: Seq<char>) -> bool {
    contains_seq(key, "replace-me"@) || key.len() == 0
}

/// The arguments of `tailscale up` for logging in to `login` with `key` as
/// `hostname`, without accepting DNS or routes and resetting other settings.
pub open spec fn up_args(login: Seq<char>, key: Seq<char>, hostname: Seq<char>) -> Seq<Seq<char>> {
    seq![
        "up"@,
        "--login-server"@,
        login,
        "--authkey"@,
        key,
        "--hostname"@,
        hostname,
        "--accept-dns=false"@,
        "--accept-routes=false"@,
        "--reset"@,
    ]
}

/// What logging in is to run: refused when the key is unset, else
/// `tailscale up` with [`up_args`].
pub open spec fn up_outcome(login: Seq<char>, key: Seq<char>, hostname: Seq<char>) -> Result<Seq<Seq<char>>, Seq<char>> {
    if auth_key_unset(key) {
        Err("未配置 AuthKey。请在 .env 设置 ROOMMATE_AUTH_KEY"@)
    } else {
        Ok(up_args(login, key, hostname))
    }
}

pub open spec fn args_result_view(r: Result<Vec<String>, String>) -> Result<Seq<Seq<char>>, Seq<char>> {
    match r {
        Ok(args) => Ok(args@.map_values(|s: String| s@)),
        Err(e) => Err(e@),
    }
}

/// The arguments of `tailscale up` (see [`up_outcome`]); refused when the key is unset.
pub fn up_arguments(login: &str, key: &str, hostname: &str) -> (r: Result<Vec<String>, String>)
    ensures
        args_result_view(r) == up_outcome(login@, key@, hostname@),
{
    let kv = chars_of(key);
    let placeholder = chars_of("replace-me");
    if contains(&kv, &placeholder) || kv.len() == 0 {
        return Err(owned("未配置 AuthKey。请在 .env 设置 ROOMMATE_AUTH_KEY"));
    }
    let mut args: Vec<String> = Vec::new();
    args.push(owned("up"));
    args.push(owned("--login-server"));
    args.push(owned(login));
    args.push(owned("--authkey"));
    args.push(owned(key));
    args.push(owned("--hostname"));
    args.push(owned(hostname));
    args.push(owned("--accept-dns=false"));
    args.push(owned("--accept-routes=false"));
    args.push(owned("--reset"));
    assert(args@.map_values(|s: String| s@) =~= up_args(login@, key@, hostname@));
    Ok(args)
}

/// A setting for one connection: the value sent with the request when there
/// is one, else the configured value.
pub open spec fn chosen(requested: Option<Seq<char>>, configured: Seq<char>) -> Seq<char> {
    match requested {
        Some(r) => r,
        None => configured,
    }
}

/// The value sent with the request when there is one, else the configured value.
pub fn chosen_setting(requested: &Option<String>, configured: &str) -> (r: String)
    ensures
        r@ == chosen(opt_text(*requested), configured@),
{
    match requested {
        Some(v) => clone_string(v),
        None => owned(configured),
    }
}

/// The host name a connection logs in as: the one sent with the request,
/// or this machine's own when none was sent.
pub open spec fn login_hostname(requested: Seq<char>, own: Seq<char>) -> Seq<char> {
    if requested.len() == 0 {
        own
    } else {
        requested
    }
}

/// What a connect request logs in with: the login server and auth key sent
/// with it (a room's key, issued by the room service), each replaced by the
/// configured one only when not sent, and its host name (this machine's own
/// when none was sent).
pub open spec fn connect_up_outcome(
    hostname: Seq<char>,
    login_server: Option<Seq<char>>,
    auth_key: Option<Seq<char>>,
    configured_login: Seq<char>,
    configured_key: Seq<char>,
    own_hostname: Seq<char>,
) -> Result<Seq<Seq<char>>, Seq<char>> {
    up_outcome(
        chosen(login_server, configured_login),
        chosen(auth_key, configured_key),
        login_hostname(hostname, own_hostname),
    )
}

/// The arguments of `tailscale up` for a connect request (see [`connect_up_outcome`]).
pub fn connect_up_arguments(
    hostname: &str,
    login_server: &Option<String>,
    auth_key: &Option<String>,
    configured_login: &str,
    configured_key: &str,
    own_hostname: &str,
) -> (r: Result<Vec<String>, String>)
    ensures
        args_result_view(r) == connect_up_outcome(
            hostname@,
            opt_text(*login_server),
            opt_text(*auth_key),
            configured_login@,
            configured_key@,
            own_hostname@,
        ),
{
    let login = chosen_setting(login_server, configured_login);
    let key = chosen_setting(auth_key, configured_key);
    let host = if hostname.is_empty() {
        owned(own_hostname)
    } else {
        owned(hostname)
    };
    up_arguments(login.as_str(), key.as_str(), host.as_str())
}

/// The message when a login did not complete: the sidecar's backend state
/// and addresses when its status could be read (`status` holds the state
/// and the addresses as `{:?}` renders the list), the login server used, and
/// the output of `tailscale up`.
pub open spec fn login_incomplete_text(status: Option<(Seq<char>, Seq<char>)>, login: Seq<char>, output: Seq<char>) -> Seq<char> {
    let detail = match status {
        Some((state, ips)) => "BackendState="@ + state + ", ips="@ + ips,
        None => "无法读取 status"@,
    };
    "登录未完成（"@ + detail + "）。请确认 AuthKey 有效、login-server 为 "@ + login + "。输出: "@
        + output
}

/// The message when a login did not complete (see [`login_incomplete_text`]).
pub fn login_incomplete_message(status: Option<(&str, &str)>, login: &str, output: &str) -> (m: String)
    ensures
        m@ == login_incomplete_text(
            match status {
                Some((a, b)) => Some((a@, b@)),
                None => None,
            },
            login@,
            output@,
        ),
{
    let detail = match status {
        Some((state, ips)) => {
            let d = concat("BackendState=", state);
            let d = concat(d.as_str(), ", ips=");
            concat(d.as_str(), ips)
        },
        None => owned("无法读取 status"),
    };
    let m = concat("登录未完成（", detail.as_str());
    let m = concat(m.as_str(), "）。请确认 AuthKey 有效、login-server 为 ");
    let m = concat(m.as_str(), login);
    let m = concat(m.as_str(), "。输出: ");
    concat(m.as_str(), output)
}

/// The message when a `tailscale` command runs longer than `secs` seconds.
pub fn command_timeout_message(secs: u64, args: &Vec<String>) -> (m: String)
    ensures
        m@ == "命令超时 ("@ + decimal(secs as nat) + "s): tailscale "@ + join(
            args@.map_values(|s: String| s@),
            " "@,
        ),
{
    let m = concat("命令超时 (", decimal_string(secs).as_str());
    let m = concat(m.as_str(), "s): tailscale ");
    let joined = join_strings(args, " ");
    concat(m.as_str(), joined.as_str())
}

/// The message when a `tailscale` command cannot be started; `error` is the
/// system's description.
pub fn command_spawn_failed_message(args: &Vec<String>, error: &str) -> (m: String)
    ensures
        m@ == "执行 tailscale "@ + join(args@.map_values(|s: String| s@), " "@) + " 失败: "@
            + error@,
{
    let joined = join_strings(args, " ");
    let m = concat("执行 tailscale ", joined.as_str());
    let m = concat(m.as_str(), " 失败: ");
    concat(m.as_str(), error)
}

/// `parts` joined with `sep` between them.
pub open spec fn join(parts: Seq<Seq<char>>, sep: Seq<char>) -> Seq<char>
    decreases parts.len(),
{
    if parts.len() == 0 {
        seq![]
    } else if parts.len() == 1 {
        parts[0]
    } else {
        join(parts.drop_last(), sep) + sep + parts.last()
    }
}

/// `parts` joined with `sep` between them (`[String]::join`).
pub fn join_strings(parts: &Vec<String>, sep: &str) -> (r: String)
    ensures
        r@ == join(parts@.map_values(|s: String| s@), sep@),
{
    let ghost ps = parts@.map_values(|s: String| s@);
    let mut r = String::new();
    for i in 0..parts.len()
        invariant
            ps == parts@.map_values(|s: String| s@),
            r@ == join(ps.take(i as int), sep@),
    {
        assert(ps.take(i + 1).drop_last() =~= ps.take(i as int));
        if i == 0 {
            r = parts[0].clone();
            assert(ps.take(1) =~= seq![ps[0]]);
        } else {
            let a = concat(r.as_str(), sep);
            r = concat(a.as_str(), parts[i].as_str());
        }
    }
    assert(ps.take(parts@.len() as int) =~= ps);
    r
}

/// Whether the sidecar reports a completed login: its backend runs and it
/// has addresses.
pub open spec fn logged_in(st: NetworkStatus) -> bool {
    lowered(st.backend_state@) == "running"@ && st.self_ips.len() > 0
}

/// The message reporting a completed login, naming this node's addresses and name.
pub open spec fn login_message(st: NetworkStatus) -> Seq<char> {
    "已连接 "@ + join(st.self_ips@.map_values(|s: String| s@), ", "@) + " ("@ + st.self_hostname@
        + ")"@
}

/// A key is refused exactly when it is empty or holds the placeholder
/// `replace-me` somewhere; any other key (a Headscale key in hex, a
/// `tskey-` key, whatever its form) logs in with exactly the arguments
/// `up --login-server <login> --authkey <key> --hostname <hostname>
/// --accept-dns=false --accept-routes=false --reset`.
pub proof fn lemma_key_refused_exactly(login: Seq<char>, key: Seq<char>, hostname: Seq<char>)
    ensures
        (key.len() == 0 || exists|i: int|
            0 <= i && i + 10 <= key.len() && #[trigger] key.subrange(i, i + 10) == "replace-me"@)
            ==> up_outcome(login, key, hostname) == Err::<Seq<Seq<char>>, Seq<char>>(
            "未配置 AuthKey。请在 .env 设置 ROOMMATE_AUTH_KEY"@,
        ),
        !(key.len() == 0 || exists|i: int|
            0 <= i && i + 10 <= key.len() && #[trigger] key.subrange(i, i + 10) == "replace-me"@)
            ==> up_outcome(login, key, hostname) == Ok::<Seq<Seq<char>>, Seq<char>>(
            seq![
                "up"@,
                "--login-server"@,
                login,
                "--authkey"@,
                key,
                "--hostname"@,
                hostname,
                "--accept-dns=false"@,
                "--accept-routes=false"@,
                "--reset"@,
            ],
        ),
{
    reveal_strlit("replace-me");
    if exists|i: int| 0 <= i && i + 10 <= key.len() && #[trigger] key.subrange(i, i + 10) == "replace-me"@ {
        let i = choose|i: int| 0 <= i && i + 10 <= key.len() && #[trigger] key.subrange(i, i + 10) == "replace-me"@;
        assert(occurs_at(key, "replace-me"@, i));
    }
    if contains_seq(key, "replace-me"@) {
        let i = choose|i: int| occurs_at(key, "replace-me"@, i);
        assert(key.subrange(i, i + 10) == "replace-me"@);
    }
}

/// A backend reported as running in any ASCII capitalisation (`Running`,
/// `RUNNING`, `running`) counts as logged in once this node has an address.
pub proof fn lemma_running_any_case(st: NetworkStatus)
    requires
        st.self_ips.len() > 0,
        st.backend_state@.len() == 7,
        forall|i: int| 0 <= i < 7 ==> (#[trigger] st.backend_state@[i] == "running"@[i]
            || st.backend_state@[i] as int + 32 == "running"@[i] as int),
    ensures
        logged_in(st),
{
    reveal_strlit("running");
    let b = st.backend_state@;
    assert(crate::text::all_ascii(b)) by {
        assert forall|i: int| 0 <= i < b.len() implies (#[trigger] b[i] as u32) < 0x80 by {
            assert(b[i] == "running"@[i] || b[i] as int + 32 == "running"@[i] as int);
        }
    }
    assert(lowered(b) =~= "running"@) by {
        assert forall|i: int| 0 <= i < 7 implies #[trigger] lowered(b)[i] == "running"@[i] by {
            assert(b[i] == "running"@[i] || b[i] as int + 32 == "running"@[i] as int);
        }
    }
}

/// The message reporting a completed login, if the status shows one (see
/// [`logged_in`]); `None` while the login is still in progress.
pub fn login_confirmation(st: &NetworkStatus) -> (r: Option<String>)
    ensures
        logged_in(*st) <==> r is Some,
        r matches Some(m) ==> m@ == login_message(*st),
{
    let state = to_lower(st.backend_state.as_str());
    let running = owned("running");
    if state == running && st.self_ips.len() > 0 {
        let ips = join_strings(&st.self_ips, ", ");
        let m = concat("已连接 ", ips.as_str());
        let m = concat(m.as_str(), " (");
        let m = concat(m.as_str(), st.self_hostname.as_str());
        Some(concat(m.as_str(), ")"))
    } else {
        None
    }
}

/// How many times the sidecar's status is read after `tailscale up` before
/// the login is given up on.
pub const LOGIN_POLL_ATTEMPTS: u32 = 10;

/// What to do after a status read while waiting for a login to complete.
#[derive(Debug, Clone, PartialEq, Eq)]
pub enum LoginPoll {
    /// The login is complete; report this message.
    Confirmed(String),
    /// Wait and read the status again.
    Wait,
    /// Stop waiting: the login did not complete.
    GiveUp,
}

/// One step of waiting for a login: `attempt` status reads have been made
/// (this one included) and `status` is what this one returned, if it could
/// be read. A status showing the login complete ends the wait with its
/// message; otherwise the wait goes on until [`LOGIN_POLL_ATTEMPTS`] reads
/// have been made.
pub fn login_poll_step(attempt: u32, status: Option<&NetworkStatus>) -> (r: LoginPoll)
    ensures
        (match status {
            Some(st) => logged_in(*st),
            None => false,
        }) ==> (r matches LoginPoll::Confirmed(m) && m@ == login_message(*status.unwrap())),
        !(match status {
            Some(st) => logged_in(*st),
            None => false,
        }) ==> r == (if attempt >= LOGIN_POLL_ATTEMPTS {
            LoginPoll::GiveUp
        } else {
            LoginPoll::Wait
        }),
{
    if let Some(st) = status {
        if let Some(m) = login_confirmation(st) {
            return LoginPoll::Confirmed(m);
        }
    }
    if attempt >= LOGIN_POLL_ATTEMPTS {
        LoginPoll::GiveUp
    } else {
        LoginPoll::Wait
    }
}

/// Whether a command has run past its time limit: more than `timeout_secs`
/// seconds have passed (`elapsed_nanos` is the time since it was started).
pub fn command_timed_out(elapsed_nanos: u64, timeout_secs: u64) -> (r: bool)
    ensures
        r == (elapsed_nanos > timeout_secs * 1_000_000_000),
{
    match timeout_secs.checked_mul(1_000_000_000) {
        Some(limit) => elapsed_nanos > limit,
        None => false,
    }
}

// ---------------------------------------------------------------------------
// Command output
// ---------------------------------------------------------------------------

/// What a finished command yields: on failure the trimmed standard error,
/// else the trimmed standard output, else `exit_text`; on success the
/// trimmed standard output, else the trimmed standard error.
pub open spec fn command_result(
    success: bool,
    stdout: Seq<char>,
    stderr: Seq<char>,
    exit_text: Seq<char>,
) -> Result<Seq<char>, Seq<char>> {
    let out = trim(stdout);
    let err = trim(stderr);
    if !success {
        Err(
            if err.len() > 0 {
                err
            } else if out.len() > 0 {
                out
            } else {
                exit_text
            },
        )
    } else {
        Ok(
            if out.len() > 0 {
                out
            } else {
                err
            },
        )
    }
}

/// Reads a finished command's outcome (see [`command_result`]); `exit_text`
/// describes its exit status.
pub fn command_outcome(success: bool, stdout: &str, stderr: &str, exit_text: &str) -> (r: Result<String, String>)
    ensures
        (match r {
            Ok(s) => Ok(s@),
            Err(e) => Err(e@),
        }) == command_result(success, stdout@, stderr@, exit_text@),
{
    let ov = chars_of(stdout);
    let ev = chars_of(stderr);
    let out = trim_chars(&ov);
    let err = trim_chars(&ev);
    if !success {
        if err.len() > 0 {
            Err(string_from_chars(&err))
        } else if out.len() > 0 {
            Err(string_from_chars(&out))
        } else {
            Err(owned(exit_text))
        }
    } else if out.len() > 0 {
        Ok(string_from_chars(&out))
    } else {
        Ok(string_from_chars(&err))
    }
}

} // verus!
