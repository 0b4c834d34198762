//! Where the bundled `tailscale` / `tailscaled` binaries are looked for.

use vstd::prelude::*;
use crate::text::{concat, owned};

verus! {

/// The directory a candidate path starts from.
#[derive(Debug, Clone, Copy, PartialEq, Eq, Structural)]
pub enum BinBase {
    /// The directory the program is installed in.
    InstallDir,
    /// The source tree's `src-tauri` directory, for development builds.
    ManifestDir,
}

/// A place a sidecar binary may be: `base` joined with `parts` in order.
pub struct BinCandidate {
    pub base: BinBase,
    pub parts: Vec<String>,
}

pub open spec fn is_candidate(c: BinCandidate, base: BinBase, parts: Seq<Seq<char>>) -> bool {
    c.base == base && c.parts@.map_values(|s: String| s@) == parts
}

fn candidate1(base: BinBase, a: String) -> (c: BinCandidate)
    ensures
        is_candidate(c, base, seq![a@]),
{
    let mut parts: Vec<String> = Vec::new();
    parts.push(a);
    let c = BinCandidate { base, parts };
    assert(c.parts@.map_values(|s: String| s@) =~= seq![a@]);
    c
}

fn candidate2(base: BinBase, a: String, b: String) -> (c: BinCandidate)
    ensures
        is_candidate(c, base, seq![a@, b@]),
{
    let mut parts: Vec<String> = Vec::new();
    parts.push(a);
    parts.push(b);
    let c = BinCandidate { base, parts };
    assert(c.parts@.map_values(|s: String| s@) =~= seq![a@, b@]);
    c
}

/// The places the binary `name` is looked for, in order: `name.exe` and
/// `name` in the install directory and in its `binaries` directory, then
/// `name-triple.exe` in the install directory, then `name-triple.exe` and
/// `name.exe` in the source tree's `binaries` directory.
pub fn bin_candidates(name: &str, triple: &str) -> (r: Vec<BinCandidate>)
    ensures
        r.len() == 7,
        is_candidate(r@[0], BinBase::InstallDir, seq![name@ + ".exe"@]),
        is_candidate(r@[1], BinBase::InstallDir, seq![name@]),
        is_candidate(r@[2], BinBase::InstallDir, seq!["binaries"@, name@ + ".exe"@]),
        is_candidate(r@[3], BinBase::InstallDir, seq!["binaries"@, name@]),
        is_candidate(r@[4], BinBase::InstallDir, seq![name@ + "-"@ + triple@ + ".exe"@]),
        is_candidate(r@[5], BinBase::ManifestDir, seq!["binaries"@, name@ + "-"@ + triple@ + ".exe"@]),
        is_candidate(r@[6], BinBase::ManifestDir, seq!["binaries"@, name@ + ".exe"@]),
{
    let exe = concat(name, ".exe");
    let dashed = concat(name, "-");
    let dashed = concat(dashed.as_str(), triple);
    let triple_exe = concat(dashed.as_str(), ".exe");
    let mut r: Vec<BinCandidate> = Vec::new();
    r.push(candidate1(BinBase::InstallDir, exe.clone()));
    r.push(candidate1(BinBase::InstallDir, owned(name)));
    r.push(candidate2(BinBase::InstallDir, owned("binaries"), exe.clone()));
    r.push(candidate2(BinBase::InstallDir, owned("binaries"), owned(name)));
    r.push(candidate1(BinBase::InstallDir, triple_exe.clone()));
    r.push(candidate2(BinBase::ManifestDir, owned("binaries"), triple_exe));
    r.push(candidate2(BinBase::ManifestDir, owned("binaries"), exe));
    r
}

/// The first candidate (see [`bin_candidates`]) that is a file, by index,
/// given which of them are; an error naming the binary when none is.
pub fn find_bin(name: &str, is_file: &Vec<bool>) -> (r: Result<usize, String>)
    ensures
        r matches Ok(i) ==> i < is_file.len() && is_file@[i as int] && forall|j: int|
            0 <= j < i ==> !is_file@[j],
        r matches Err(e) ==> (forall|j: int| 0 <= j < is_file.len() ==> !is_file@[j]) && e@
            == "找不到内置 "@ + name@ + " sidecar。请运行 npm run fetch-bins 拉取二进制后再试"@,
{
    for i in 0..is_file.len()
        invariant
            forall|j: int| 0 <= j < i ==> !is_file@[j],
    {
        if is_file[i] {
            return Ok(i);
        }
    }
    let m = concat("找不到内置 ", name);
    Err(concat(m.as_str(), " sidecar。请运行 npm run fetch-bins 拉取二进制后再试"))
}

/// Whether `tailscaled` must be launched: refused while the official
/// Tailscale service runs (the two would fight over the network), not needed
/// when it already runs.
pub fn daemon_needs_start(official_running: bool, daemon_running: bool) -> (r: Result<bool, String>)
    ensures
        official_running ==> (r matches Err(e) && e@
            == "检测到官方 Tailscale 正在运行。请先退出官方客户端（托盘退出或执行 net stop Tailscale），再连接 Roommate。"@),
        !official_running ==> r == Ok::<bool, String>(!daemon_running),
{
    if official_running {
        return Err(
            owned(
                "检测到官方 Tailscale 正在运行。请先退出官方客户端（托盘退出或执行 net stop Tailscale），再连接 Roommate。",
            ),
        );
    }
    Ok(!daemon_running)
}

/// The error when `tailscaled` exits right after launch, naming its log and
/// quoting the log's tail `hint` on a line of its own when there is one.
pub fn daemon_exited_message(log_path: &str, hint: &str) -> (m: String)
    ensures
        m@ == "tailscaled 启动后立即退出。请检查杀软是否拦截，并确认 wintun.dll 与 sidecar 同目录。日志: "@
            + log_path@ + (if hint@.len() == 0 {
            Seq::<char>::empty()
        } else {
            "\n"@ + hint@
        }),
{
    let m = concat(
        "tailscaled 启动后立即退出。请检查杀软是否拦截，并确认 wintun.dll 与 sidecar 同目录。日志: ",
        log_path,
    );
    if hint.is_empty() {
        assert(m@ =~= m@ + Seq::<char>::empty());
        m
    } else {
        let tail = concat("\n", hint);
        let r = concat(m.as_str(), tail.as_str());
        assert(r@ =~= m@ + tail@);
        r
    }
}

/// The target triple the bundled binaries are named after, from the
/// compilation target's OS and architecture (as `std::env::consts` names
/// them): only 64-bit x86 Windows has bundled binaries.
pub fn host_triple(os: &str, arch: &str) -> (t: &'static str)
    ensures
        os@ == "windows"@ && arch@ == "x86_64"@ ==> t@ == "x86_64-pc-windows-msvc"@,
        !(os@ == "windows"@ && arch@ == "x86_64"@) ==> t@ == "unknown"@,
{
    if owned(os) == owned("windows") && owned(arch) == owned("x86_64") {
        "x86_64-pc-windows-msvc"
    } else {
        "unknown"
    }
}

/// The places a `wintun.dll` to install is looked for, in order: the install
/// directory's `binaries` directory, then the source tree's.
pub fn wintun_candidates() -> (r: Vec<BinCandidate>)
    ensures
        r.len() == 2,
        is_candidate(r@[0], BinBase::InstallDir, seq!["binaries"@, "wintun.dll"@]),
        is_candidate(r@[1], BinBase::ManifestDir, seq!["binaries"@, "wintun.dll"@]),
{
    let mut r: Vec<BinCandidate> = Vec::new();
    r.push(candidate2(BinBase::InstallDir, owned("binaries"), owned("wintun.dll")));
    r.push(candidate2(BinBase::ManifestDir, owned("binaries"), owned("wintun.dll")));
    r
}

/// Where `wintun.dll` is to be copied from, given whether it is already
/// next to the program and which of [`wintun_candidates`] are files: nothing
/// to copy when it is there, else the first candidate that is a file, else an
/// error naming the directory it belongs in (that of `tailscaled`).
pub fn wintun_source(dest_exists: bool, candidates: &Vec<bool>, tailscaled: &str) -> (r: Result<Option<usize>, String>)
    ensures
        dest_exists ==> r == Ok::<Option<usize>, String>(None),
        !dest_exists ==> (r matches Ok(Some(i)) ==> i < candidates.len() && candidates@[i as int]
            && forall|j: int| 0 <= j < i ==> !candidates@[j]),
        !dest_exists ==> (r is Ok ==> r matches Ok(Some(_))),
        !dest_exists ==> (r matches Err(e) ==> (forall|j: int|
            0 <= j < candidates.len() ==> !candidates@[j]) && e@ == "缺少 wintun.dll（应与 "@
            + tailscaled@ + " 同目录）。请运行 npm run fetch-bins"@),
{
    if dest_exists {
        return Ok(None);
    }
    for i in 0..candidates.len()
        invariant
            !dest_exists,
            forall|j: int| 0 <= j < i ==> !candidates@[j],
    {
        if candidates[i] {
            return Ok(Some(i));
        }
    }
    let m = concat("缺少 wintun.dll（应与 ", tailscaled);
    Err(concat(m.as_str(), " 同目录）。请运行 npm run fetch-bins"))
}

/// The error when `wintun.dll` cannot be copied to `dest`; `error` is the
/// system's description.
pub fn wintun_copy_failed_message(dest: &str, error: &str) -> (m: String)
    ensures
        m@ == "无法将 wintun.dll 复制到 "@ + dest@ + ": "@ + error@,
{
    let m = concat("无法将 wintun.dll 复制到 ", dest);
    let m = concat(m.as_str(), ": ");
    concat(m.as_str(), error)
}

pub open spec fn texts_view(v: Vec<String>) -> Seq<Seq<char>> {
    v@.map_values(|s: String| s@)
}

/// The arguments `tailscaled` is launched with: its state directory and
/// state file, its control socket, the name of its network adapter, and no
/// log upload.
pub fn daemon_arguments(state_dir: &str, state_file: &str, socket: &str, tun: &str) -> (r: Vec<String>)
    ensures
        texts_view(r) == seq![
            "--statedir"@,
            state_dir@,
            "--state"@,
            state_file@,
            "--socket"@,
            socket@,
            "--tun"@,
            tun@,
            "--no-logs-no-support"@,
        ],
{
    let mut r: Vec<String> = Vec::new();
    r.push(owned("--statedir"));
    r.push(owned(state_dir));
    r.push(owned("--state"));
    r.push(owned(state_file));
    r.push(owned("--socket"));
    r.push(owned(socket));
    r.push(owned("--tun"));
    r.push(owned(tun));
    r.push(owned("--no-logs-no-support"));
    assert(texts_view(r) =~= seq![
        "--statedir"@,
        state_dir@,
        "--state"@,
        state_file@,
        "--socket"@,
        socket@,
        "--tun"@,
        tun@,
        "--no-logs-no-support"@,
    ]);
    r
}

/// The arguments of `tailscaled --cleanup`, which removes what a stopped
/// daemon left behind (routes, adapter state).
pub fn cleanup_arguments(socket: &str, state_dir: &str) -> (r: Vec<String>)
    ensures
        texts_view(r) == seq!["--socket"@, socket@, "--statedir"@, state_dir@, "--cleanup"@],
{
    let mut r: Vec<String> = Vec::new();
    r.push(owned("--socket"));
    r.push(owned(socket));
    r.push(owned("--statedir"));
    r.push(owned(state_dir));
    r.push(owned("--cleanup"));
    assert(texts_view(r) =~= seq!["--socket"@, socket@, "--statedir"@, state_dir@, "--cleanup"@]);
    r
}

} // verus!
