//! When a failed upload is tried again, and after how long.
use vstd::prelude::*;

verus! {

/// `base` doubled `k` times: `base * 2^k`.
pub open spec fn doubled(base: nat, k: nat) -> nat
    decreases k,
{
    if k == 0 {
        base
    } else {
        2 * doubled(base, (k - 1) as nat)
    }
}

/// The delay before attempt `attempt + 1` after attempt `attempt` failed:
/// `base_ms * 2^attempt`, but at most `max_ms`.
pub open spec fn backoff(base_ms: nat, attempt: nat, max_ms: nat) -> nat {
    if doubled(base_ms, attempt) <= max_ms {
        doubled(base_ms, attempt)
    } else {
        max_ms
    }
}

pub proof fn lemma_doubled_grows(base: nat, i: nat, k: nat)
    requires
        i <= k,
    ensures
        doubled(base, i) <= doubled(base, k),
    decreases k - i,
{
    if i < k {
        lemma_doubled_grows(base, i, (k - 1) as nat);
    }
}

/// The delay in milliseconds after failed attempt `attempt`, as `backoff` says.
pub fn backoff_delay_ms(base_ms: u64, attempt: u32, max_ms: u64) -> (r: u64)
    ensures
        r == backoff(base_ms as nat, attempt as nat, max_ms as nat),
{
    let mut d: u64 = base_ms;
    let mut i: u32 = 0;
    while i < attempt
        invariant
            i <= attempt,
            d == doubled(base_ms as nat, i as nat),
        decreases attempt - i,
    {
        if d > max_ms / 2 {
            proof {
                assert(doubled(base_ms as nat, (i + 1) as nat) == 2 * d);
                lemma_doubled_grows(base_ms as nat, (i + 1) as nat, attempt as nat);
            }
            return max_ms;
        }
        d = d * 2;
        i += 1;
    }
    if d <= max_ms {
        d
    } else {
        max_ms
    }
}

/// Whether an upload is tried again after its attempt number `attempt`
/// (counted from 1) failed, when at most `max_attempts` attempts are made.
pub fn should_retry(attempt: usize, max_attempts: usize) -> (r: bool)
    ensures
        r == (attempt < max_attempts),
{
    attempt < max_attempts
}

} // verus!
