//! Reconnection policy of the update listener: exponential backoff after
//! each disconnection.
use vstd::prelude::*;

verus! {

/// The longest wait between two connection attempts, in seconds (5 minutes).
pub const MAX_RETRY_DELAY_SECS: u64 = 300;

/// Two to the power `n`.
pub open spec fn pow2(n: nat) -> nat
    decreases n,
{
    if n == 0 {
        1
    } else {
        2 * pow2((n - 1) as nat)
    }
}

/// The wait before the next attempt once `retries` attempts have failed:
/// 2^min(retries, 8) seconds, capped at the longest wait.
pub open spec fn backoff_delay(retries: nat) -> nat {
    let e = if retries < 8 {
        retries
    } else {
        8
    };
    if pow2(e) < MAX_RETRY_DELAY_SECS {
        pow2(e)
    } else {
        MAX_RETRY_DELAY_SECS as nat
    }
}

/// How long a run of the listener must stay connected, in seconds, for the
/// failures before it to be forgotten (10 minutes).
pub const STABLE_RUN_SECS: u64 = 600;

/// One run of the listener ended after `uptime_secs` seconds: a run that
/// stayed connected for ten minutes forgets the failures before it; then the
/// failure count goes up by one, the wait is computed from it, and beyond
/// five the count is let down by one again so that the wait stops growing.
pub open spec fn after_failure(retry_count: nat, uptime_secs: nat) -> (nat, nat) {
    let base = if uptime_secs >= STABLE_RUN_SECS {
        0
    } else {
        retry_count
    };
    let n = base + 1;
    (if n > 5 {
        (n - 1) as nat
    } else {
        n
    }, backoff_delay(n))
}

/// The count of failures to remember and the seconds to wait, after a run
/// that ended after `uptime_secs` seconds.
pub fn retry_step(retry_count: u32, uptime_secs: u64) -> (r: (u32, u64))
    requires
        retry_count < u32::MAX || uptime_secs >= STABLE_RUN_SECS,
    ensures
        (r.0 as nat, r.1 as nat) == after_failure(retry_count as nat, uptime_secs as nat),
{
    let base: u32 = if uptime_secs >= STABLE_RUN_SECS {
        0
    } else {
        retry_count
    };
    let n = base + 1;
    let e: u32 = if n < 8 {
        n
    } else {
        8
    };
    let mut p: u64 = 1;
    let mut k: u32 = 0;
    while k < e
        invariant
            k <= e <= 8,
            p == pow2(k as nat),
            p <= 256,
        decreases e - k,
    {
        proof {
            lemma_pow2_monotone(k as nat + 1, 8);
            reveal_with_fuel(pow2, 9);
        }
        p = p * 2;
        k = k + 1;
    }
    let delay = if p < MAX_RETRY_DELAY_SECS {
        p
    } else {
        MAX_RETRY_DELAY_SECS
    };
    let next = if n > 5 {
        n - 1
    } else {
        n
    };
    (next, delay)
}

/// Powers of two grow with the exponent.
proof fn lemma_pow2_monotone(a: nat, b: nat)
    requires
        a <= b,
    ensures
        pow2(a) <= pow2(b),
    decreases b,
{
    if a < b {
        lemma_pow2_monotone(a, (b - 1) as nat);
    }
}

} // verus!
