//! The budget guardian's decisions. Amounts of money are floating-point and
//! are compared by the caller; the decisions over those comparisons are here.
use vstd::prelude::*;

use crate::text::concat3;

verus! {

/// The guardian's answer to a preflight request.
#[derive(Debug, Clone)]
pub struct PreflightDecision {
    pub allowed: bool,
    pub requires_authorization: bool,
    pub reason: String,
}

/// The guardian's answer to a preflight request as (allowed, needs
/// authorization, reason). Revoked keys refuse every task; otherwise a task
/// whose projected spend exceeds the daily budget is refused; otherwise it
/// is allowed, and needs authorization when its estimated cost is at or over
/// the authorization threshold.
pub open spec fn preflight_outcome(
    keys_revoked: bool,
    projected_exceeds_budget: bool,
    cost_at_or_over_threshold: bool,
    task_name: Seq<char>,
) -> (bool, bool, Seq<char>) {
    if keys_revoked {
        (false, false, "API keys are revoked due to daily budget limit"@)
    } else if projected_exceeds_budget {
        (false, false, "Projected spend exceeds daily budget limit"@)
    } else if cost_at_or_over_threshold {
        (true, true, "Task '"@ + task_name + "' exceeds authorization threshold"@)
    } else {
        (true, false, "Within allowed budget"@)
    }
}

/// Decides a preflight request, as `preflight_outcome` describes.
pub fn preflight_decision(
    keys_revoked: bool,
    projected_exceeds_budget: bool,
    cost_at_or_over_threshold: bool,
    task_name: &str,
) -> (d: PreflightDecision)
    ensures
        (d.allowed, d.requires_authorization, d.reason@) == preflight_outcome(
            keys_revoked,
            projected_exceeds_budget,
            cost_at_or_over_threshold,
            task_name@,
        ),
{
    if keys_revoked {
        return PreflightDecision {
            allowed: false,
            requires_authorization: false,
            reason: "API keys are revoked due to daily budget limit".to_owned(),
        };
    }
    if projected_exceeds_budget {
        return PreflightDecision {
            allowed: false,
            requires_authorization: false,
            reason: "Projected spend exceeds daily budget limit".to_owned(),
        };
    }
    let reason = if cost_at_or_over_threshold {
        concat3("Task '", task_name, "' exceeds authorization threshold")
    } else {
        "Within allowed budget".to_owned()
    };
    PreflightDecision { allowed: true, requires_authorization: cost_at_or_over_threshold, reason }
}

/// Whether the keys are revoked after a spend is booked: they stay revoked,
/// and become revoked when the day's total exceeds the daily budget.
pub fn keys_revoked_after_spend(was_revoked: bool, total_exceeds_budget: bool) -> (r: bool)
    ensures
        r == (was_revoked || total_exceeds_budget),
{
    if total_exceeds_budget {
        true
    } else {
        was_revoked
    }
}

/// Whether the keys are revoked after spends are booked one by one, starting
/// from `was_revoked`, where `over_budget[i]` tells whether the day's total
/// exceeded the budget after the `i`-th spend.
pub open spec fn revoked_after_spends(was_revoked: bool, over_budget: Seq<bool>) -> bool
    decreases over_budget.len(),
{
    if over_budget.len() == 0 {
        was_revoked
    } else {
        revoked_after_spends(was_revoked, over_budget.drop_last()) || over_budget.last()
    }
}

/// Revocation is sticky: once the keys are revoked, or once any booked spend
/// takes the day's total over the budget, they stay revoked through every
/// later spend, and every preflight request is refused with the revocation
/// reason.
pub proof fn law_revoked_keys_stay_revoked(
    was_revoked: bool,
    over_budget: Seq<bool>,
    projected_exceeds_budget: bool,
    cost_at_or_over_threshold: bool,
    task_name: Seq<char>,
)
    requires
        was_revoked || exists|i: int| 0 <= i < over_budget.len() && #[trigger] over_budget[i],
    ensures
        revoked_after_spends(was_revoked, over_budget),
        preflight_outcome(
            revoked_after_spends(was_revoked, over_budget),
            projected_exceeds_budget,
            cost_at_or_over_threshold,
            task_name,
        ) == (false, false, "API keys are revoked due to daily budget limit"@),
    decreases over_budget.len(),
{
    if over_budget.len() > 0 {
        let init = over_budget.drop_last();
        if !over_budget.last() {
            let i = choose|i: int| 0 <= i < over_budget.len() && #[trigger] over_budget[i];
            if !was_revoked {
                assert(i < init.len() && init[i]);
            }
            law_revoked_keys_stay_revoked(
                was_revoked,
                init,
                projected_exceeds_budget,
                cost_at_or_over_threshold,
                task_name,
            );
        }
    }
}

/// The budget comes first: an allowed request never has revoked keys or a
/// projected spend over the daily budget; with the keys in force, a request
/// whose projected spend is over the budget is refused with the budget
/// reason whatever its cost; any other such request is allowed; and a
/// request needs authorization exactly when it is allowed and its cost is at
/// or over the threshold.
pub proof fn law_preflight_budget_first(
    keys_revoked: bool,
    projected_exceeds_budget: bool,
    cost_at_or_over_threshold: bool,
    task_name: Seq<char>,
)
    ensures
        preflight_outcome(keys_revoked, projected_exceeds_budget, cost_at_or_over_threshold, task_name).0
            ==> !keys_revoked && !projected_exceeds_budget,
        !keys_revoked && projected_exceeds_budget ==> preflight_outcome(
            keys_revoked,
            projected_exceeds_budget,
            cost_at_or_over_threshold,
            task_name,
        ) == (false, false, "Projected spend exceeds daily budget limit"@),
        !keys_revoked && !projected_exceeds_budget ==> preflight_outcome(
            keys_revoked,
            projected_exceeds_budget,
            cost_at_or_over_threshold,
            task_name,
        ).0,
        preflight_outcome(keys_revoked, projected_exceeds_budget, cost_at_or_over_threshold, task_name).1
            <==> (preflight_outcome(keys_revoked, projected_exceeds_budget, cost_at_or_over_threshold, task_name).0
            && cost_at_or_over_threshold),
{
}

} // verus!
