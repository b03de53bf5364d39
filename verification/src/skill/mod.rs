//! Skill manifests and the capability policy that gates a skill's host calls.
use vstd::prelude::*;

use crate::text::{concat2, prefix_before, prefix_before_exec};

pub mod package;
pub mod runtime;

verus! {

/// What a skill package declares about itself.
#[derive(Debug, Clone)]
pub struct SkillManifest {
    pub name: String,
    pub version: String,
    pub entrypoint: String,
    pub capabilities: Vec<String>,
}

/// The host calls a skill can make.
#[derive(Debug, Clone, PartialEq, Eq)]
pub enum HostCall {
    FsRead,
    FsWrite,
    NetOutbound,
    BrowserControl,
}

/// Why a skill was refused.
#[derive(Debug)]
pub enum SkillError {
    Parse(String),
    UnknownCapability(String),
    MissingCapability(String),
    Package(String),
    Runtime(String),
}

/// The text of an error as its `Display` renders it.
pub open spec fn skill_error_text(e: SkillError) -> Seq<char> {
    match e {
        SkillError::Parse(m) => "manifest parse error: "@ + m@,
        SkillError::UnknownCapability(m) => "unknown capability: "@ + m@,
        SkillError::MissingCapability(m) => "missing required capability: "@ + m@,
        SkillError::Package(m) => "skill package error: "@ + m@,
        SkillError::Runtime(m) => "skill runtime error: "@ + m@,
    }
}

impl SkillError {
    /// The error's text.
    pub fn message(&self) -> (s: String)
        ensures
            s@ == skill_error_text(*self),
    {
        match self {
            SkillError::Parse(m) => concat2("manifest parse error: ", m.as_str()),
            SkillError::UnknownCapability(m) => concat2("unknown capability: ", m.as_str()),
            SkillError::MissingCapability(m) => concat2("missing required capability: ", m.as_str()),
            SkillError::Package(m) => concat2("skill package error: ", m.as_str()),
            SkillError::Runtime(m) => concat2("skill runtime error: ", m.as_str()),
        }
    }
}

/// The capabilities a manifest may declare (before any `:` scope).
pub open spec fn allowed_capabilities() -> Seq<Seq<char>> {
    seq!["fs.read"@, "fs.write"@, "net.outbound"@, "browser.control"@]
}

/// The kind of a declared capability: its text before the first `:`.
pub open spec fn capability_kind(cap: Seq<char>) -> Seq<char> {
    prefix_before(cap, ':')
}

/// Whether a declared capability is of an allowed kind.
pub open spec fn capability_known(cap: Seq<char>) -> bool {
    allowed_capabilities().contains(capability_kind(cap))
}

/// The capability a host call needs.
pub open spec fn required_capability(call: HostCall) -> Seq<char> {
    match call {
        HostCall::FsRead => "fs.read"@,
        HostCall::FsWrite => "fs.write"@,
        HostCall::NetOutbound => "net.outbound"@,
        HostCall::BrowserControl => "browser.control"@,
    }
}

/// Whether the manifest declares a capability of the given kind.
pub open spec fn declares_kind(manifest: SkillManifest, kind: Seq<char>) -> bool {
    exists|i: int| 0 <= i < manifest.capabilities@.len() && capability_kind(#[trigger] manifest.capabilities@[i]@) == kind
}

fn allowed_list() -> (v: Vec<&'static str>)
    ensures
        v@.len() == allowed_capabilities().len(),
        forall|i: int| 0 <= i < v@.len() ==> #[trigger] v@[i]@ == allowed_capabilities()[i],
{
    vec!["fs.read", "fs.write", "net.outbound", "browser.control"]
}

/// Whether the kind of `cap` is one of the allowed capabilities.
fn is_known_capability(cap: &String) -> (b: bool)
    ensures
        b == capability_known(cap@),
{
    let kind = prefix_before_exec(cap.as_str(), ':');
    let allowed = allowed_list();
    let mut i: usize = 0;
    while i < allowed.len()
        invariant
            kind@ == capability_kind(cap@),
            allowed@.len() == allowed_capabilities().len(),
            forall|k: int| 0 <= k < allowed@.len() ==> #[trigger] allowed@[k]@ == allowed_capabilities()[k],
            i <= allowed@.len(),
            forall|k: int| 0 <= k < i ==> allowed_capabilities()[k] != kind@,
        decreases allowed@.len() - i,
    {
        let candidate = allowed[i].to_owned();
        if candidate == kind {
            assert(allowed_capabilities()[i as int] == kind@);
            return true;
        }
        i = i + 1;
    }
    false
}

/// Checks that every declared capability is of an allowed kind; the first
/// one that is not is reported.
pub fn validate_capabilities(manifest: &SkillManifest) -> (r: Result<(), SkillError>)
    ensures
        r is Ok <==> forall|i: int| 0 <= i < manifest.capabilities@.len() ==> capability_known(#[trigger] manifest.capabilities@[i]@),
        r matches Err(e) ==> exists|i: int|
            0 <= i < manifest.capabilities@.len() && e == SkillError::UnknownCapability(manifest.capabilities@[i])
                && !capability_known(#[trigger] manifest.capabilities@[i]@)
                && forall|j: int| 0 <= j < i ==> capability_known(#[trigger] manifest.capabilities@[j]@),
{
    let caps = &manifest.capabilities;
    let mut i: usize = 0;
    while i < caps.len()
        invariant
            caps == &manifest.capabilities,
            i <= caps@.len(),
            forall|j: int| 0 <= j < i ==> capability_known(#[trigger] caps@[j]@),
        decreases caps@.len() - i,
    {
        if !is_known_capability(&caps[i]) {
            assert(!capability_known(caps@[i as int]@));
            return Err(SkillError::UnknownCapability(caps[i].clone()));
        }
        i = i + 1;
    }
    Ok(())
}

/// The capability a host call needs, as a string.
pub fn required_capability_exec(call: &HostCall) -> (s: &'static str)
    ensures
        s@ == required_capability(*call),
{
    match call {
        HostCall::FsRead => "fs.read",
        HostCall::FsWrite => "fs.write",
        HostCall::NetOutbound => "net.outbound",
        HostCall::BrowserControl => "browser.control",
    }
}

/// Checks that the manifest declares a capability of the kind the host call needs.
pub fn check_host_call_allowed(manifest: &SkillManifest, host_call: HostCall) -> (r: Result<(), SkillError>)
    ensures
        r is Ok <==> declares_kind(*manifest, required_capability(host_call)),
        r matches Err(e) ==> (e matches SkillError::MissingCapability(m) && m@ == required_capability(host_call)),
{
    let needed = required_capability_exec(&host_call);
    let needed_owned = needed.to_owned();
    let caps = &manifest.capabilities;
    let mut i: usize = 0;
    while i < caps.len()
        invariant
            needed_owned@ == required_capability(host_call),
            caps == &manifest.capabilities,
            i <= caps@.len(),
            forall|j: int| 0 <= j < i ==> capability_kind(#[trigger] caps@[j]@) != needed_owned@,
        decreases caps@.len() - i,
    {
        let kind = prefix_before_exec(caps[i].as_str(), ':');
        if kind == needed_owned {
            assert(capability_kind(caps@[i as int]@) == needed_owned@);
            return Ok(());
        }
        i = i + 1;
    }
    Err(SkillError::MissingCapability(needed_owned))
}

/// The allowed capability kinds are exactly `fs.read`, `fs.write`,
/// `net.outbound` and `browser.control`: a declared capability is accepted
/// exactly when its text before any `:` is one of these four.
pub proof fn law_known_capability_kinds(cap: Seq<char>)
    ensures
        capability_known(cap) <==> (capability_kind(cap) == "fs.read"@ || capability_kind(cap) == "fs.write"@
            || capability_kind(cap) == "net.outbound"@ || capability_kind(cap) == "browser.control"@),
{
    let k = capability_kind(cap);
    let a = allowed_capabilities();
    assert(a[0] == "fs.read"@ && a[1] == "fs.write"@ && a[2] == "net.outbound"@ && a[3] == "browser.control"@);
    if k == "fs.read"@ {
        assert(a[0] == k);
    } else if k == "fs.write"@ {
        assert(a[1] == k);
    } else if k == "net.outbound"@ {
        assert(a[2] == k);
    } else if k == "browser.control"@ {
        assert(a[3] == k);
    }
}

/// Each host call needs the capability of its own kind: file reads need
/// `fs.read`, file writes `fs.write`, outbound network calls `net.outbound`
/// and browser control `browser.control`.
pub proof fn law_host_calls_need_their_own_kind()
    ensures
        required_capability(HostCall::FsRead) == "fs.read"@,
        required_capability(HostCall::FsWrite) == "fs.write"@,
        required_capability(HostCall::NetOutbound) == "net.outbound"@,
        required_capability(HostCall::BrowserControl) == "browser.control"@,
{
}

/// A host call is allowed as soon as any declared capability, at any
/// position of the list, is of the kind the call needs.
pub proof fn law_host_call_allowed_by_any_declaration(manifest: SkillManifest, call: HostCall, i: int)
    requires
        0 <= i < manifest.capabilities@.len(),
        capability_kind(manifest.capabilities@[i]@) == required_capability(call),
    ensures
        declares_kind(manifest, required_capability(call)),
{
    assert(capability_kind(manifest.capabilities@[i]@) == required_capability(call));
}

/// Whether a host call is allowed does not depend on the order or the
/// repetition of the declared capabilities: two manifests that declare the
/// same capabilities give the same answer.
pub proof fn law_host_call_ignores_declaration_order(a: SkillManifest, b: SkillManifest, call: HostCall)
    requires
        forall|i: int| 0 <= i < a.capabilities@.len() ==> exists|j: int|
            0 <= j < b.capabilities@.len() && (#[trigger] b.capabilities@[j])@ == (#[trigger] a.capabilities@[i])@,
        forall|j: int| 0 <= j < b.capabilities@.len() ==> exists|i: int|
            0 <= i < a.capabilities@.len() && (#[trigger] a.capabilities@[i])@ == (#[trigger] b.capabilities@[j])@,
    ensures
        declares_kind(a, required_capability(call)) == declares_kind(b, required_capability(call)),
{
    let kind = required_capability(call);
    if declares_kind(a, kind) {
        let i = choose|i: int| 0 <= i < a.capabilities@.len() && capability_kind(#[trigger] a.capabilities@[i]@) == kind;
        let j = choose|j: int| 0 <= j < b.capabilities@.len() && (#[trigger] b.capabilities@[j])@ == a.capabilities@[i]@;
        assert(capability_kind(b.capabilities@[j]@) == kind);
    }
    if declares_kind(b, kind) {
        let j = choose|j: int| 0 <= j < b.capabilities@.len() && capability_kind(#[trigger] b.capabilities@[j]@) == kind;
        let i = choose|i: int| 0 <= i < a.capabilities@.len() && (#[trigger] a.capabilities@[i])@ == b.capabilities@[j]@;
        assert(capability_kind(a.capabilities@[i]@) == kind);
    }
}

} // verus!
