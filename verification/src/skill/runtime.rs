//! The policy side of running a skill: runtime limits, results, and the
//! verdict on each host call a running skill makes.
use vstd::prelude::*;

use crate::skill::{check_host_call_allowed, declares_kind, required_capability, HostCall, SkillManifest};
use crate::text::{concat2, concat3};

verus! {

/// Limits for one skill run. The time limit is held in whole seconds; the
/// runner turns it into a `Duration`.
#[derive(Debug, Clone)]
pub struct SkillRuntimeConfig {
    pub timeout_secs: u64,
    pub memory_limit_bytes: usize,
}

impl Default for SkillRuntimeConfig {
    fn default() -> (c: Self)
        ensures
            c.timeout_secs == 10,
            c.memory_limit_bytes == 16 * 1024 * 1024,
    {
        SkillRuntimeConfig { timeout_secs: 10, memory_limit_bytes: 16 * 1024 * 1024 }
    }
}

/// What a skill run produced.
#[derive(Debug, Clone, Default)]
pub struct SkillExecutionResult {
    pub stdout: String,
    pub stderr: String,
    pub host_call_logs: Vec<String>,
}

/// The name of a host call as its `Debug` form prints it.
pub open spec fn host_call_name(call: HostCall) -> Seq<char> {
    match call {
        HostCall::FsRead => "FsRead"@,
        HostCall::FsWrite => "FsWrite"@,
        HostCall::NetOutbound => "NetOutbound"@,
        HostCall::BrowserControl => "BrowserControl"@,
    }
}

impl HostCall {
    /// The call's name as its `Debug` form prints it.
    pub fn debug_name(&self) -> (s: &'static str)
        ensures
            s@ == host_call_name(*self),
    {
        match self {
            HostCall::FsRead => "FsRead",
            HostCall::FsWrite => "FsWrite",
            HostCall::NetOutbound => "NetOutbound",
            HostCall::BrowserControl => "BrowserControl",
        }
    }
}

/// The answer a running skill gets for a host call and the log line that
/// records it: 0 and an "allowed" line when the manifest declares the
/// needed capability, -1 and a "denied" line with the reason otherwise.
pub fn host_call_verdict(manifest: &SkillManifest, host_call: HostCall) -> (r: (i32, String))
    ensures
        declares_kind(*manifest, required_capability(host_call)) ==> r.0 == 0 && r.1@
            == "allowed host call: "@ + host_call_name(host_call),
        !declares_kind(*manifest, required_capability(host_call)) ==> r.0 == -1 && r.1@
            == "denied host call: "@ + host_call_name(host_call) + " reason="@
            + "missing required capability: "@ + required_capability(host_call),
{
    let name = host_call.debug_name();
    match check_host_call_allowed(manifest, host_call) {
        Ok(()) => (0, concat2("allowed host call: ", name)),
        Err(e) => {
            let reason = e.message();
            let head = concat3("denied host call: ", name, " reason=");
            (-1, concat2(head.as_str(), reason.as_str()))
        },
    }
}

} // verus!
