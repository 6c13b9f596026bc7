use vstd::prelude::*;

verus! {

/// `base` raised to the power `exp`.
pub open spec fn power(base: nat, exp: nat) -> nat
    decreases exp,
{
    if exp == 0 {
        1
    } else {
        base * power(base, (exp - 1) as nat)
    }
}

proof fn lemma_power_grows(base: nat, e1: nat, e2: nat)
    requires
        base >= 1,
        e1 <= e2,
    ensures
        power(base, e1) <= power(base, e2),
    decreases e2,
{
    if e1 < e2 {
        lemma_power_grows(base, e1, (e2 - 1) as nat);
        assert(power(base, (e2 - 1) as nat) <= base * power(base, (e2 - 1) as nat)) by (nonlinear_arith)
            requires
                base >= 1,
        ;
    }
}

/// What to do after a failed attempt.
#[derive(PartialEq, Eq, Structural, Clone, Copy, Debug)]
pub enum RetryPolicy {
    /// Wait this many milliseconds, then attempt again.
    WaitRetry(u64),
    /// Give up and hand the failure on.
    ForwardError,
}

/// Bounded exponential backoff: at most `max_attempts` attempts, and after the
/// k-th failed attempt a wait of `base_delay` to the power k milliseconds.
#[derive(PartialEq, Eq, Structural, Clone, Copy, Debug)]
pub struct RetryHandler {
    max_attempts: usize,
    base_delay: u64,
}

/// The decision after the `failed_attempt`-th failure: no attempt beyond the
/// `max_attempts`-th.
pub open spec fn retry_decision(max_attempts: nat, base_delay: nat, failed_attempt: nat) -> RetryPolicy {
    if failed_attempt >= max_attempts {
        RetryPolicy::ForwardError
    } else {
        RetryPolicy::WaitRetry(power(base_delay, failed_attempt) as u64)
    }
}

/// Narrows an attempt count to the exponent type of the delay computation.
pub fn from(u: usize) -> (r: u32)
    requires
        u <= u32::MAX,
    ensures
        r == u,
{
    u as u32
}

impl RetryHandler {
    pub closed spec fn spec_max_attempts(self) -> nat {
        self.max_attempts as nat
    }

    pub closed spec fn spec_base_delay(self) -> nat {
        self.base_delay as nat
    }

    pub fn new(max_exponential_backoffs: usize, base_delay: u64) -> (r: Self)
        ensures
            r.spec_max_attempts() == max_exponential_backoffs,
            r.spec_base_delay() == base_delay,
    {
        RetryHandler { max_attempts: max_exponential_backoffs, base_delay }
    }

    /// The decision after the `failed_attempt`-th failed attempt (counted from
    /// one): give up once `max_attempts` attempts were made, else wait
    /// `base_delay` to the power `failed_attempt` milliseconds. When a wait is
    /// due, its exponent must fit in `u32` and the delay in `u64`.
    pub fn handle(&self, failed_attempt: usize) -> (r: RetryPolicy)
        requires
            failed_attempt < self.spec_max_attempts() ==> failed_attempt <= u32::MAX && power(
                self.spec_base_delay(),
                failed_attempt as nat,
            ) <= u64::MAX,
        ensures
            r == retry_decision(self.spec_max_attempts(), self.spec_base_delay(), failed_attempt as nat),
    {
        if failed_attempt >= self.max_attempts {
            return RetryPolicy::ForwardError;
        }
        let exp = from(failed_attempt);
        let base = self.base_delay;
        let mut delay: u64 = 1;
        let mut k: u32 = 0;
        while k < exp
            invariant
                k <= exp,
                delay == power(base as nat, k as nat),
                power(base as nat, exp as nat) <= u64::MAX,
            decreases exp - k,
        {
            proof {
                if base >= 1 {
                    lemma_power_grows(base as nat, (k + 1) as nat, exp as nat);
                }
                assert(power(base as nat, (k + 1) as nat) == base * power(base as nat, k as nat));
            }
            delay = delay * base;
            k = k + 1;
        }
        RetryPolicy::WaitRetry(delay)
    }
}

/// The policy used throughout: three attempts, 100 ms base delay.
pub fn default_retry_handler() -> (r: RetryHandler)
    ensures
        r.spec_max_attempts() == 3,
        r.spec_base_delay() == 100,
{
    RetryHandler::new(3, 100)
}

} // verus!
