use vstd::prelude::*;
use vstd::arithmetic::power2::pow2;

verus! {

/// How many attempts a retried operation gets in all.
pub const MAX_RETRIES: u32 = 15u32;

/// The longest wait between two attempts, before jitter: two hours, in milliseconds.
pub const MAX_BACKOFF_MS: u64 = 7_200_000u64;

/// The wait before the attempt that follows failed attempt number `attempt + 1`, before
/// jitter: one second doubled for each earlier failure, at most two hours.
pub open spec fn backoff_ms(attempt: nat) -> int {
    let d = 1000 * pow2(attempt);
    if d < MAX_BACKOFF_MS {
        d as int
    } else {
        MAX_BACKOFF_MS as int
    }
}

/// What a retry loop does after a failed attempt.
#[derive(Debug, Clone, Copy, PartialEq, Eq, Structural)]
pub enum RetryStep {
    /// Stop and report the failure.
    GiveUp,
    /// Wait this many milliseconds (plus jitter), then try again.
    RetryAfterMs(u64),
}

/// The wait before the next attempt after `attempt + 1` failed attempts, before jitter.
pub fn calc_backoff_delay(attempt: u32) -> (r: u64)
    requires
        attempt <= 54,
    ensures
        r == backoff_ms(attempt as nat),
        r <= MAX_BACKOFF_MS,
{
    proof {
        vstd::arithmetic::power2::lemma2_to64_rest();
        vstd::arithmetic::power2::lemma2_to64();
    }
    let mut p: u64 = 1;
    let mut i: u32 = 0;
    while i < attempt
        invariant
            i <= attempt <= 54,
            p == pow2(i as nat),
            p <= pow2(54),
            pow2(54) == 0x40000000000000,
        decreases attempt - i,
    {
        proof {
            vstd::arithmetic::power2::lemma_pow2_unfold((i + 1) as nat);
            if i + 1 < 54 {
                vstd::arithmetic::power2::lemma_pow2_strictly_increases((i + 1) as nat, 54);
            }
        }
        p = p * 2;
        i = i + 1;
    }
    proof {
        vstd::arithmetic::power2::lemma2_to64_rest();
    }
    let d = 1000 * p;
    if d < MAX_BACKOFF_MS {
        d
    } else {
        MAX_BACKOFF_MS
    }
}

/// What a retry loop does after its `attempts`-th attempt failed with an error that is
/// fatal or not: a fatal error, or the last of `MAX_RETRIES` attempts, ends the loop;
/// otherwise it waits and tries again.
pub open spec fn retry_step(attempts: int, fatal: bool) -> RetryStep {
    if fatal {
        RetryStep::GiveUp
    } else if attempts < MAX_RETRIES {
        RetryStep::RetryAfterMs(backoff_ms((attempts - 1) as nat) as u64)
    } else {
        RetryStep::GiveUp
    }
}

/// What a retry loop does after its `attempts`-th attempt failed.
pub fn next_retry_step(attempts: u32, fatal: bool) -> (r: RetryStep)
    requires
        attempts >= 1,
    ensures
        r == retry_step(attempts as int, fatal),
{
    if fatal {
        RetryStep::GiveUp
    } else if attempts < MAX_RETRIES {
        RetryStep::RetryAfterMs(calc_backoff_delay(attempts - 1))
    } else {
        RetryStep::GiveUp
    }
}

/// Waits between retries never shrink from one failure to the next, and never exceed two
/// hours before jitter.
pub proof fn law_backoff_grows_to_cap(a: nat, b: nat)
    requires
        a <= b,
    ensures
        backoff_ms(a) <= backoff_ms(b),
        backoff_ms(b) <= MAX_BACKOFF_MS,
        backoff_ms(0) == 1000,
{
    if a < b {
        vstd::arithmetic::power2::lemma_pow2_strictly_increases(a, b);
    }
    vstd::arithmetic::power2::lemma2_to64();
}

/// A retry loop makes at most `MAX_RETRIES` attempts: it retries after every earlier
/// non-fatal failure, gives up after the last one, and gives up at once on a fatal error.
pub proof fn law_retry_loop_ends(attempts: int, fatal: bool)
    requires
        attempts >= 1,
    ensures
        retry_step(attempts, fatal) == RetryStep::GiveUp <==> (fatal || attempts >= MAX_RETRIES),
{
}

} // verus!
