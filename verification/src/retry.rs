//! The retry envelope's decisions: which transport failures are retried,
//! and the exponential backoff with jitter that spaces the attempts.
//! The sleeping and the re-sending live with the caller; the crate
//! decides and computes.

use vstd::prelude::*;

use crate::errors::TransportError;
use rand::Rng;

verus! {

/// Which failure classes a policy retries.
#[derive(Clone, Copy, Debug, PartialEq, Eq)]
pub struct RetryOn {
    pub retry_429: bool,
    pub retry_5xx: bool,
    pub retry_transport: bool,
}

/// A bounded retry policy: attempt count, base delay, and the classes
/// retried.
#[derive(Clone, Copy, Debug, PartialEq, Eq)]
pub struct RetryPolicy {
    pub max_attempts: u64,
    pub base_delay_millis: u64,
    pub retry_on: RetryOn,
}

/// Whether a failure is retried at the given attempt: never once the
/// attempts are exhausted; an HTTP status retries when it is 429 and the
/// policy retries 429, or a server error and the policy retries those;
/// timeouts and network faults retry when the policy retries transport
/// failures; nothing else retries.
pub open spec fn spec_should_retry(
    on: RetryOn,
    err: TransportError,
    attempt: u64,
    max_attempts: u64,
) -> bool {
    if attempt >= max_attempts {
        false
    } else {
        match err {
            TransportError::Http { status, .. } => (on.retry_429 && status == 429) || (on.retry_5xx
                && 500 <= status < 600),
            TransportError::Timeout => on.retry_transport,
            TransportError::Network { .. } => on.retry_transport,
            _ => false,
        }
    }
}

impl RetryOn {
    /// Decides whether a failure is retried at the given attempt.
    pub fn should_retry(&self, err: &TransportError, attempt: u64, max_attempts: u64) -> (r: bool)
        ensures
            r == spec_should_retry(*self, *err, attempt, max_attempts),
    {
        if attempt >= max_attempts {
            return false;
        }
        match err {
            TransportError::Http { status, .. } => (self.retry_429 && *status == 429) || (
            self.retry_5xx && 500 <= *status && *status < 600),
            TransportError::Timeout => self.retry_transport,
            TransportError::Network { .. } => self.retry_transport,
            _ => false,
        }
    }
}

/// Two to the `n`.
pub open spec fn pow2(n: nat) -> nat
    decreases n,
{
    if n == 0 {
        1
    } else {
        2 * pow2((n - 1) as nat)
    }
}

/// The backoff before a given attempt, at a given jitter: the first
/// attempt waits the base delay; attempt `k` thereafter waits
/// base × 2^(k−1) scaled by jitter-in-permille, with every step
/// saturating at `u64::MAX` milliseconds.
pub open spec fn spec_backoff_millis(base_millis: u64, attempt: u64, jitter_permille: u64) -> nat {
    if attempt == 0 {
        base_millis as nat
    } else {
        let exp = min_nat(pow2((attempt - 1) as nat), u64::MAX as nat);
        let raw = min_nat((base_millis as nat) * exp, u64::MAX as nat);
        min_nat((raw * (jitter_permille as nat)) / 1000, u64::MAX as nat)
    }
}

/// The smaller of two naturals.
pub open spec fn min_nat(a: nat, b: nat) -> nat {
    if a <= b {
        a
    } else {
        b
    }
}

/// Computes the backoff before an attempt at a given jitter.
#[verifier::loop_isolation(false)]
pub fn backoff_millis(base_millis: u64, attempt: u64, jitter_permille: u64) -> (r: u64)
    requires
        900 <= jitter_permille < 1100,
    ensures
        r as nat == spec_backoff_millis(base_millis, attempt, jitter_permille),
{
    if attempt == 0 {
        return base_millis;
    }
    let mut exp: u64 = 1;
    let mut k: u64 = 0;
    proof {
        assert(pow2(0) == 1);
    }
    while k < attempt - 1
        invariant
            k <= attempt - 1,
            exp as nat == min_nat(pow2(k as nat), u64::MAX as nat),
        decreases attempt - 1 - k,
    {
        proof {
            assert(pow2(k as nat + 1) == 2 * pow2(k as nat));
        }
        if exp > u64::MAX / 2 {
            exp = u64::MAX;
        } else {
            exp = exp * 2;
        }
        k = k + 1;
    }
    let raw: u64;
    if base_millis != 0 && exp > u64::MAX / base_millis {
        raw = u64::MAX;
        proof {
            let b = base_millis as nat;
            let e = exp as nat;
            assert(b * e >= b * (u64::MAX as nat / b) + b) by (nonlinear_arith)
                requires
                    e > u64::MAX as nat / b && b > 0,
            ;
            assert(b * (u64::MAX as nat / b) >= u64::MAX as nat - b + 1) by (nonlinear_arith)
                requires
                    b > 0,
            ;
            assert(b * e > u64::MAX as nat);
            if e <= u64::MAX as nat {
                assert(min_nat(b * e, u64::MAX as nat) == u64::MAX as nat);
            } else {
                assert(b * (u64::MAX as nat) >= u64::MAX as nat) by (nonlinear_arith)
                    requires
                        b >= 1,
                ;
            }
        }
    } else {
        proof {
            let b = base_millis as nat;
            let e = exp as nat;
            if base_millis != 0 {
                assert(b * e <= b * (u64::MAX as nat / b)) by (nonlinear_arith)
                    requires
                        e <= u64::MAX as nat / b && b > 0,
                ;
                assert(b * (u64::MAX as nat / b) <= u64::MAX as nat) by (nonlinear_arith)
                    requires
                        b > 0,
                ;
            }
        }
        raw = base_millis * exp;
    }
    proof {
        assert((raw as u128) * (jitter_permille as u128) <= (u64::MAX as u128) * 1100)
            by (nonlinear_arith)
            requires
                raw <= u64::MAX && jitter_permille < 1100,
        ;
    }
    let scaled: u128 = (raw as u128) * (jitter_permille as u128) / 1000;
    if scaled > u64::MAX as u128 {
        u64::MAX
    } else {
        scaled as u64
    }
}

/// Relies on rand::rng and Rng::random_range: a uniform draw from the
/// half-open range, used as the backoff jitter in permille.
#[verifier::external_body]
pub fn jitter_permille() -> (r: u64)
    ensures
        900 <= r < 1100,
{
    rand::rng().random_range(900u64..1100u64)
}

/// The backoff before an attempt, at a jitter drawn fresh: some value of
/// the jittered family, whatever the draw.
pub fn backoff(base_millis: u64, attempt: u64) -> (r: u64)
    ensures
        exists|j: u64|
            900 <= j < 1100 && r as nat == #[trigger] spec_backoff_millis(
                base_millis,
                attempt,
                j,
            ),
{
    let j = jitter_permille();
    let r = backoff_millis(base_millis, attempt, j);
    proof {
        assert(900 <= j < 1100 && r as nat == spec_backoff_millis(base_millis, attempt, j));
    }
    r
}

/// Whether a failure's class is one the policy retries at all,
/// independently of the attempt budget.
pub open spec fn spec_retry_class(on: RetryOn, err: TransportError) -> bool {
    match err {
        TransportError::Http { status, .. } => (on.retry_429 && status == 429) || (on.retry_5xx
            && 500 <= status < 600),
        TransportError::Timeout => on.retry_transport,
        TransportError::Network { .. } => on.retry_transport,
        _ => false,
    }
}

/// One decision of the retry envelope, after a failed attempt.
#[derive(Clone, Copy, Debug, PartialEq, Eq)]
pub enum RetryStep {
    /// Sleep this many milliseconds, then try again.
    RetryAfter { delay_millis: u64 },
    /// The failure is not of a retried class: hand it back unchanged.
    Propagate,
    /// The failure would be retried, but the attempts are spent: the
    /// envelope reports that its retry limit was reached.
    Exhausted,
}

/// Decides what a failed attempt does: a failure outside the retried
/// classes propagates unchanged; one inside them waits the jittered
/// backoff for the next attempt while the budget lasts, and exhausts the
/// envelope — which then reports its retry limit — once it is spent.
pub fn retry_decision(policy: &RetryPolicy, err: &TransportError, attempt: u64) -> (r: RetryStep)
    ensures
        !spec_retry_class(policy.retry_on, *err) ==> r == RetryStep::Propagate,
        spec_retry_class(policy.retry_on, *err) && attempt >= policy.max_attempts ==> r
            == RetryStep::Exhausted,
        spec_retry_class(policy.retry_on, *err) && attempt < policy.max_attempts ==> (r matches
            RetryStep::RetryAfter { delay_millis } && exists|j: u64|
            900 <= j < 1100 && delay_millis as nat == #[trigger] spec_backoff_millis(
                policy.base_delay_millis,
                (attempt + 1) as u64,
                j,
            )),
{
    let class_retries = match err {
        TransportError::Http { status, .. } => (policy.retry_on.retry_429 && *status == 429) || (
        policy.retry_on.retry_5xx && 500 <= *status && *status < 600),
        TransportError::Timeout => policy.retry_on.retry_transport,
        TransportError::Network { .. } => policy.retry_on.retry_transport,
        _ => false,
    };
    if !class_retries {
        return RetryStep::Propagate;
    }
    if attempt >= policy.max_attempts {
        return RetryStep::Exhausted;
    }
    RetryStep::RetryAfter { delay_millis: backoff(policy.base_delay_millis, attempt + 1) }
}

} // verus!
