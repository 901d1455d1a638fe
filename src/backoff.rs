//! The reconnection schedule of the stream transport.
use vstd::prelude::*;

verus! {

/// Number of leading attempts that wait the base delay.
pub const BASE_ATTEMPTS: u64 = 14;

/// Delay, in seconds, of each of the first `BASE_ATTEMPTS` retries.
pub const BASE_DELAY_SECS: u64 = 5;

/// Delay, in seconds, once the schedule has ramped up; it repeats forever.
pub const MAX_DELAY_SECS: u64 = 60;

/// Delay in seconds before the `n`-th retry (counted from 1) of a connection cycle:
/// five seconds for the first fourteen, then 10, 20, 30, 40, 50 and 60 seconds,
/// then sixty seconds for every retry after that.
pub open spec fn backoff_delay(n: nat) -> nat {
    if n <= 14 {
        5
    } else if n <= 20 {
        (10 * (n - 14)) as nat
    } else {
        60
    }
}

/// Delay in seconds before the `attempt`-th retry (counted from 1; 0 is read as 1).
pub fn retry_delay_secs(attempt: u64) -> (r: u64)
    ensures
        r == backoff_delay(if attempt == 0 { 1 } else { attempt as nat }),
{
    if attempt <= BASE_ATTEMPTS {
        BASE_DELAY_SECS
    } else if attempt <= BASE_ATTEMPTS + 6 {
        10 * (attempt - BASE_ATTEMPTS)
    } else {
        MAX_DELAY_SECS
    }
}

/// The finite head of the schedule: the delays of retries 1 to 20, in order.
/// Every retry after these waits `MAX_DELAY_SECS`.
pub fn schedule_head() -> (r: Vec<u64>)
    ensures
        r@.len() == 20,
        forall|i: int| 0 <= i < 20 ==> r@[i] == backoff_delay((i + 1) as nat),
{
    let mut r: Vec<u64> = Vec::new();
    let mut n: u64 = 1;
    while n <= 20
        invariant
            1 <= n <= 21,
            r@.len() == n - 1,
            forall|i: int| 0 <= i < n - 1 ==> r@[i] == backoff_delay((i + 1) as nat),
        decreases 21 - n,
    {
        let d = retry_delay_secs(n);
        r.push(d);
        n = n + 1;
    }
    r
}

/// The schedule never waits less than the base delay nor more than the ceiling,
/// and never shortens from one retry to the next.
pub proof fn lemma_backoff_bounded_monotone(n: nat, m: nat)
    requires
        1 <= n <= m,
    ensures
        5 <= backoff_delay(n) <= 60,
        backoff_delay(n) <= backoff_delay(m),
{
}

/// After the twentieth retry every delay is the ceiling.
pub proof fn lemma_backoff_tail(n: nat)
    requires
        n > 20,
    ensures
        backoff_delay(n) == 60,
{
}

} // verus!
