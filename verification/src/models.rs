//! Request and response bodies of the control-plane API that carry no
//! money amounts, with the answers the API gives for them.
use vstd::prelude::*;

use crate::permissions::{has_sensitive_keyword, requires_human_approval};
use crate::text::lowercased;

verus! {

/// The service's health answer.
#[derive(Debug, Clone)]
pub struct HealthResponse {
    pub status: &'static str,
    pub service: &'static str,
}

/// A question whether an action needs a human's approval.
#[derive(Debug, Clone)]
pub struct PermissionCheckRequest {
    pub action: String,
}

/// The answer to a [`PermissionCheckRequest`].
#[derive(Debug, Clone)]
pub struct PermissionCheckResponse {
    pub requires_human_approval: bool,
}

/// The health answer: the service is up.
pub fn health_response() -> (r: HealthResponse)
    ensures
        r.status@ == "ok"@,
        r.service@ == "ultra-core"@,
{
    HealthResponse { status: "ok", service: "ultra-core" }
}

/// Answers a permission check.
pub fn permission_check(request: &PermissionCheckRequest) -> (r: PermissionCheckResponse)
    ensures
        r.requires_human_approval == has_sensitive_keyword(lowercased(request.action@)),
{
    PermissionCheckResponse { requires_human_approval: requires_human_approval(request.action.as_str()) }
}

} // verus!
