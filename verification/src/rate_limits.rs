//! Rate-limit snapshots reported by the provider, and the sticky merge
//! rule: a fresh snapshot always carries the windows, but never clears
//! the credits or plan fields merely by omitting them.

use vstd::prelude::*;

verus! {

/// One rate-limit window: how much of it is used and when it resets.
#[derive(Clone, Copy, Debug, PartialEq, Eq)]
pub struct RateLimitWindow {
    /// Portion of the window already used, in hundredths of a percent.
    pub used_percent_hundredths: u64,
    pub window_minutes: Option<u64>,
    pub resets_at: Option<u64>,
}

/// The account's plan.
#[derive(Clone, Copy, Debug, PartialEq, Eq)]
pub enum PlanType {
    Free,
    Plus,
    Pro,
    Team,
    Enterprise,
}

/// The account's credit standing.
#[derive(Debug, PartialEq, Eq)]
pub struct CreditsSnapshot {
    pub has_credits: bool,
    pub unlimited: bool,
    pub balance: Option<String>,
}

impl Clone for CreditsSnapshot {
    /// A clone keeps the snapshot unchanged.
    fn clone(&self) -> (r: Self)
        ensures
            r == *self,
    {
        CreditsSnapshot {
            has_credits: self.has_credits,
            unlimited: self.unlimited,
            balance: match &self.balance {
                Some(b) => Some(b.clone()),
                None => None,
            },
        }
    }
}

/// A full rate-limit snapshot: the windows as reported, plus the sticky
/// credits and plan fields.
#[derive(Debug, PartialEq, Eq)]
pub struct RateLimitSnapshot {
    pub primary: Option<RateLimitWindow>,
    pub secondary: Option<RateLimitWindow>,
    pub credits: Option<CreditsSnapshot>,
    pub plan_type: Option<PlanType>,
}

impl Clone for RateLimitSnapshot {
    /// A clone keeps the snapshot unchanged.
    fn clone(&self) -> (r: Self)
        ensures
            r == *self,
    {
        RateLimitSnapshot {
            primary: self.primary,
            secondary: self.secondary,
            credits: match &self.credits {
                Some(c) => Some(c.clone()),
                None => None,
            },
            plan_type: self.plan_type,
        }
    }
}

/// What merging a fresh snapshot over the previous one must produce: the
/// fresh windows verbatim, and the previous credits and plan type wherever
/// the fresh snapshot omits them.
pub open spec fn spec_merge_rate_limits(
    previous: Option<RateLimitSnapshot>,
    update: RateLimitSnapshot,
) -> RateLimitSnapshot {
    RateLimitSnapshot {
        primary: update.primary,
        secondary: update.secondary,
        credits: match update.credits {
            Some(c) => Some(c),
            None => match previous {
                Some(prev) => prev.credits,
                None => None,
            },
        },
        plan_type: match update.plan_type {
            Some(p) => Some(p),
            None => match previous {
                Some(prev) => prev.plan_type,
                None => None,
            },
        },
    }
}

/// Merges a fresh snapshot over the previous one. A missing `credits` or
/// `plan_type` in the update preserves the previous value of that field;
/// the windows always come from the update.
pub fn merge_rate_limits(
    previous: &Option<RateLimitSnapshot>,
    update: RateLimitSnapshot,
) -> (r: RateLimitSnapshot)
    ensures
        r == spec_merge_rate_limits(*previous, update),
{
    let RateLimitSnapshot { primary, secondary, credits, plan_type } = update;
    let merged_credits = match credits {
        Some(c) => Some(c),
        None => match previous {
            Some(prev) => match &prev.credits {
                Some(c) => Some(c.clone()),
                None => None,
            },
            None => None,
        },
    };
    let merged_plan = match plan_type {
        Some(p) => Some(p),
        None => match previous {
            Some(prev) => prev.plan_type,
            None => None,
        },
    };
    RateLimitSnapshot { primary, secondary, credits: merged_credits, plan_type: merged_plan }
}

} // verus!
