//! Answers that depend on the host system, for the systems that have no
//! Windows service manager, UAC or official Tailscale service to ask; on
//! Windows the caller asks the system instead.

use vstd::prelude::*;
use crate::text::{chars_of, contains, contains_seq, owned};

verus! {

/// Whether this process runs elevated; without UAC every process counts as elevated.
pub fn is_elevated() -> (b: bool)
    ensures
        b,
{
    true
}

/// Makes sure the process runs elevated; without UAC there is nothing to do.
pub fn ensure_elevated() -> (r: Result<(), String>)
    ensures
        r is Ok,
{
    Ok(())
}

/// Runs the program as the network service; only Windows has one.
pub fn run_service_mode() -> (r: Result<(), String>)
    ensures
        r matches Err(e) && e@ == "服务模式仅支持 Windows"@,
{
    Err(owned("服务模式仅支持 Windows"))
}

/// Whether the official Tailscale service is running, by the output of
/// `sc query Tailscale` (`None` when the query could not be made): only
/// output that says `RUNNING` counts.
pub fn official_tailscale_running(query_output: Option<&str>) -> (b: bool)
    ensures
        b == (query_output matches Some(o) && contains_seq(o@, "RUNNING"@)),
{
    match query_output {
        Some(o) => {
            let ov = chars_of(o);
            let running = chars_of("RUNNING");
            contains(&ov, &running)
        },
        None => false,
    }
}

} // verus!
