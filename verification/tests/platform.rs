use roommate::platform::{ensure_elevated, is_elevated, official_tailscale_running, run_service_mode};
use roommate::sidecar::{
    bin_candidates, cleanup_arguments, daemon_arguments, find_bin, host_triple, wintun_candidates,
    wintun_copy_failed_message, wintun_source, BinBase,
};
use roommate::text::to_wide;

/// In a development tree holding the bundled binaries, `tailscale` is found
/// even when the install directory has none.
#[test]
fn find_bin_prefers_manifest_binaries_in_dev() {
    // Cargo runs integration tests with the package root as the working
    // directory, so "." is both the install directory tried here and the
    // package's own directory, where `binaries` lives.
    let dir = std::path::PathBuf::from("binaries");
    if !dir.exists() {
        return;
    }
    // The bundled binaries are the 64-bit x86 Windows build, named after the
    // triple that target gets.
    let triple = host_triple("windows", "x86_64");
    let name = format!("tailscale-{triple}.exe");
    if dir.join(&name).is_file() || dir.join("tailscale.exe").is_file() {
        let candidates = bin_candidates("tailscale", triple);
        let present: Vec<bool> = candidates
            .iter()
            .map(|c| {
                let mut p = match c.base {
                    BinBase::InstallDir => std::path::PathBuf::from("."),
                    BinBase::ManifestDir => std::path::PathBuf::from("."),
                };
                for part in &c.parts {
                    p.push(part);
                }
                p.is_file()
            })
            .collect();
        let r = find_bin("tailscale", &present);
        assert!(r.is_ok(), "{r:?}");
    }
}

#[test]
fn candidate_order() {
    let c = bin_candidates("tailscaled", "x86_64-pc-windows-msvc");
    let shown: Vec<(BinBase, Vec<String>)> = c.into_iter().map(|c| (c.base, c.parts)).collect();
    assert_eq!(shown[0], (BinBase::InstallDir, vec!["tailscaled.exe".to_string()]));
    assert_eq!(shown[1], (BinBase::InstallDir, vec!["tailscaled".to_string()]));
    assert_eq!(shown[2], (BinBase::InstallDir, vec!["binaries".to_string(), "tailscaled.exe".to_string()]));
    assert_eq!(shown[4], (BinBase::InstallDir, vec!["tailscaled-x86_64-pc-windows-msvc.exe".to_string()]));
    assert_eq!(
        shown[5],
        (BinBase::ManifestDir, vec!["binaries".to_string(), "tailscaled-x86_64-pc-windows-msvc.exe".to_string()])
    );
    assert_eq!(shown[6], (BinBase::ManifestDir, vec!["binaries".to_string(), "tailscaled.exe".to_string()]));
    assert_eq!(find_bin("tailscale", &vec![false, false, true, true, false, false, false]), Ok(2));
    assert_eq!(
        find_bin("tailscale", &vec![false; 7]),
        Err("找不到内置 tailscale sidecar。请运行 npm run fetch-bins 拉取二进制后再试".to_string())
    );
}

#[test]
fn fallbacks_without_windows() {
    assert!(is_elevated());
    assert_eq!(ensure_elevated(), Ok(()));
    assert_eq!(run_service_mode(), Err("服务模式仅支持 Windows".to_string()));
    assert!(official_tailscale_running(Some("STATE : 4  RUNNING")));
    assert!(!official_tailscale_running(Some("STATE : 1  STOPPED")));
    assert!(!official_tailscale_running(None));
}

#[test]
fn wide_strings() {
    assert_eq!(to_wide("ab"), vec![0x61, 0x62, 0]);
    assert_eq!(to_wide(""), vec![0]);
    assert_eq!(to_wide("黑"), vec![0x9ed1, 0]);
    assert_eq!(to_wide("😀"), vec![0xd83d, 0xde00, 0]);
    let s = "\\\\.\\pipe\\Roommate\\NetworkService";
    let expect: Vec<u16> = s.encode_utf16().chain(std::iter::once(0)).collect();
    assert_eq!(to_wide(s), expect);
}

#[test]
fn host_triples() {
    assert_eq!(host_triple("windows", "x86_64"), "x86_64-pc-windows-msvc");
    assert_eq!(host_triple("windows", "aarch64"), "unknown");
    assert_eq!(host_triple("linux", "x86_64"), "unknown");
}

#[test]
fn wintun_is_copied_from_the_first_found() {
    let c = wintun_candidates();
    let shown: Vec<(BinBase, Vec<String>)> = c.into_iter().map(|c| (c.base, c.parts)).collect();
    let parts = vec!["binaries".to_string(), "wintun.dll".to_string()];
    assert_eq!(shown, vec![(BinBase::InstallDir, parts.clone()), (BinBase::ManifestDir, parts)]);
    assert_eq!(wintun_source(true, &vec![false, false], "C:/r/tailscaled.exe"), Ok(None));
    assert_eq!(wintun_source(false, &vec![false, true], "C:/r/tailscaled.exe"), Ok(Some(1)));
    assert_eq!(wintun_source(false, &vec![true, true], "C:/r/tailscaled.exe"), Ok(Some(0)));
    assert_eq!(
        wintun_source(false, &vec![false, false], "C:/r/tailscaled.exe"),
        Err("缺少 wintun.dll（应与 C:/r/tailscaled.exe 同目录）。请运行 npm run fetch-bins".to_string())
    );
    assert_eq!(
        wintun_copy_failed_message("C:/r/wintun.dll", "denied"),
        "无法将 wintun.dll 复制到 C:/r/wintun.dll: denied"
    );
}

#[test]
fn daemon_launch_arguments() {
    assert_eq!(
        daemon_arguments("/s", "/s/tailscaled.state", "/s/tailscaled.sock", "Roommate"),
        vec![
            "--statedir", "/s", "--state", "/s/tailscaled.state", "--socket", "/s/tailscaled.sock",
            "--tun", "Roommate", "--no-logs-no-support"
        ]
    );
    assert_eq!(
        cleanup_arguments("/s/tailscaled.sock", "/s"),
        vec!["--socket", "/s/tailscaled.sock", "--statedir", "/s", "--cleanup"]
    );
}
