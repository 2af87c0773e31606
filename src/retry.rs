use vstd::prelude::*;

verus! {

/// How a failed step is retried. Delays are in milliseconds.
#[derive(Debug, Clone, Copy, PartialEq, Eq, Structural)]
pub enum RetryPolicy {
    /// Fail at once; no retry.
    NoRetry,
    /// Retry up to `max_retries` times, waiting `delay_ms` before each retry.
    Fixed { max_retries: u32, delay_ms: u64 },
    /// Retry up to `max_retries` times; the wait before retry `k` (counted
    /// from 0) is `initial_delay_ms * multiplier^k`, capped at `max_delay_ms`.
    ExponentialBackoff { max_retries: u32, initial_delay_ms: u64, max_delay_ms: u64, multiplier: u32 },
}

/// `base^exp` over the integers.
pub open spec fn pow(base: int, exp: nat) -> int
    decreases exp,
{
    if exp == 0 {
        1
    } else {
        base * pow(base, (exp - 1) as nat)
    }
}

pub open spec fn min(a: int, b: int) -> int {
    if a <= b {
        a
    } else {
        b
    }
}

/// `min(initial * multiplier^i, cap)`: the uncapped backoff delay of retry
/// `i`, saturated at `cap`.
pub open spec fn capped_backoff(initial: int, multiplier: int, cap: int, i: nat) -> int {
    min(initial * pow(multiplier, i), cap)
}

proof fn lemma_pow_nonneg(base: int, exp: nat)
    requires
        base >= 0,
    ensures
        pow(base, exp) >= 0,
    decreases exp,
{
    if exp > 0 {
        lemma_pow_nonneg(base, (exp - 1) as nat);
        assert(base * pow(base, (exp - 1) as nat) >= 0) by (nonlinear_arith)
            requires
                base >= 0,
                pow(base, (exp - 1) as nat) >= 0,
        ;
    }
}

/// One more multiplication, saturated at `cap`, advances the capped backoff by
/// one retry.
proof fn lemma_capped_backoff_step(initial: int, multiplier: int, cap: int, i: nat)
    requires
        initial >= 0,
        multiplier >= 0,
        cap >= 0,
    ensures
        capped_backoff(initial, multiplier, cap, i + 1) == min(
            capped_backoff(initial, multiplier, cap, i) * multiplier,
            cap,
        ),
{
    lemma_pow_nonneg(multiplier, i);
    let p = pow(multiplier, i);
    let x = initial * p;
    assert(pow(multiplier, i + 1) == multiplier * p);
    assert(initial * (multiplier * p) == x * multiplier) by (nonlinear_arith)
        requires
            x == initial * p,
    ;
    assert(x >= 0) by (nonlinear_arith)
        requires
            initial >= 0,
            p >= 0,
            x == initial * p,
    ;
    if multiplier == 0 {
        assert(x * multiplier == 0 && cap * multiplier == 0) by (nonlinear_arith)
            requires
                multiplier == 0,
        ;
    } else if x > cap {
        assert(x * multiplier >= cap) by (nonlinear_arith)
            requires
                x > cap,
                cap >= 0,
                multiplier >= 1,
        ;
        assert(cap * multiplier >= cap) by (nonlinear_arith)
            requires
                cap >= 0,
                multiplier >= 1,
        ;
    }
}

/// Once the saturated product stops changing it never changes again.
proof fn lemma_capped_backoff_settled(initial: int, multiplier: int, cap: int, i: nat, j: nat)
    requires
        initial >= 0,
        multiplier >= 0,
        cap >= 0,
        i <= j,
        capped_backoff(initial, multiplier, cap, i + 1) == capped_backoff(
            initial,
            multiplier,
            cap,
            i,
        ),
    ensures
        capped_backoff(initial, multiplier, cap, j) == capped_backoff(initial, multiplier, cap, i),
    decreases j - i,
{
    if j > i {
        lemma_capped_backoff_settled(initial, multiplier, cap, i, (j - 1) as nat);
        lemma_capped_backoff_step(initial, multiplier, cap, (j - 1) as nat);
        lemma_capped_backoff_step(initial, multiplier, cap, i);
    }
}

proof fn lemma_pow_monotone(base: int, e1: nat, e2: nat)
    requires
        base >= 1,
        e1 <= e2,
    ensures
        1 <= pow(base, e1) <= pow(base, e2),
    decreases e2,
{
    if e2 > e1 {
        lemma_pow_monotone(base, e1, (e2 - 1) as nat);
        let p = pow(base, (e2 - 1) as nat);
        assert(base * p >= p) by (nonlinear_arith)
            requires
                base >= 1,
                p >= 1,
        ;
    } else if e2 > 0 {
        lemma_pow_monotone(base, 0, (e2 - 1) as nat);
        let p = pow(base, (e2 - 1) as nat);
        assert(base * p >= 1) by (nonlinear_arith)
            requires
                base >= 1,
                p >= 1,
        ;
    }
}

/// A fixed policy waits the same delay before every retry and allows exactly
/// the number of retries it was made with.
pub proof fn fixed_delay_is_constant(max_retries: u32, delay_ms: u64, attempt: nat)
    ensures
        RetryPolicy::fixed_spec(max_retries, delay_ms).spec_delay_for_attempt(attempt) == Some(
            delay_ms,
        ),
        RetryPolicy::fixed_spec(max_retries, delay_ms).spec_max_retries() == max_retries,
{
}

/// Under a valid backoff policy a later retry never waits less than an
/// earlier one: delays grow until they reach the cap and then stay there.
pub proof fn backoff_delay_is_monotone(policy: RetryPolicy, k1: nat, k2: nat)
    requires
        policy.is_valid(),
        k1 <= k2,
    ensures
        policy.spec_delay_for_attempt(k1) matches Some(d1) ==> policy.spec_delay_for_attempt(
            k2,
        ) matches Some(d2) && d1 <= d2,
{
    if let RetryPolicy::ExponentialBackoff { initial_delay_ms, max_delay_ms, multiplier, .. } =
        policy {
        let m = multiplier as int;
        lemma_pow_monotone(m, k1, k2);
        let p1 = pow(m, k1);
        let p2 = pow(m, k2);
        assert(initial_delay_ms * p1 <= initial_delay_ms * p2) by (nonlinear_arith)
            requires
                initial_delay_ms >= 0,
                p1 <= p2,
        ;
        assert(initial_delay_ms * p1 >= 0) by (nonlinear_arith)
            requires
                initial_delay_ms >= 0,
                p1 >= 1,
        ;
    }
}

/// Why a set of backoff parameters was refused.
#[derive(Debug, Clone, Copy, PartialEq, Eq)]
pub struct RetryPolicyError(pub &'static str);

impl RetryPolicy {
    pub open spec fn fixed_spec(max_retries: u32, delay_ms: u64) -> Self {
        RetryPolicy::Fixed { max_retries, delay_ms }
    }

    /// Retry up to `max_retries` times, waiting `delay_ms` before each retry.
    pub fn fixed(max_retries: u32, delay_ms: u64) -> (r: Self)
        ensures
            r == Self::fixed_spec(max_retries, delay_ms),
    {
        RetryPolicy::Fixed { max_retries, delay_ms }
    }

    /// Exponential backoff that doubles the delay each retry, capped at one
    /// minute. No check is made: with a first delay above one minute every
    /// retry waits the cap.
    pub fn exponential(max_retries: u32, initial_delay_ms: u64) -> (r: Self)
        ensures
            r == (RetryPolicy::ExponentialBackoff {
                max_retries,
                initial_delay_ms,
                max_delay_ms: 60_000,
                multiplier: 2,
            }),
    {
        RetryPolicy::ExponentialBackoff { max_retries, initial_delay_ms, max_delay_ms: 60_000, multiplier: 2 }
    }

    /// Exponential backoff with every parameter given. The multiplier must lie
    /// in `1..=10` and the cap must be at least the first delay; a violation is
    /// reported, never corrected.
    pub fn exponential_backoff(
        max_retries: u32,
        initial_delay_ms: u64,
        max_delay_ms: u64,
        multiplier: u32,
    ) -> (r: Result<Self, RetryPolicyError>)
        ensures
            multiplier == 0 ==> r == Err::<Self, RetryPolicyError>(
                RetryPolicyError("multiplier must be greater than 0"),
            ),
            multiplier > 10 ==> r == Err::<Self, RetryPolicyError>(
                RetryPolicyError("multiplier must be 10 or less to avoid overflow"),
            ),
            1 <= multiplier <= 10 && max_delay_ms < initial_delay_ms ==> r == Err::<Self, RetryPolicyError>(
                RetryPolicyError("max_delay must be >= initial_delay"),
            ),
            1 <= multiplier <= 10 && initial_delay_ms <= max_delay_ms ==> r == Ok::<Self, RetryPolicyError>(
                RetryPolicy::ExponentialBackoff {
                    max_retries,
                    initial_delay_ms,
                    max_delay_ms,
                    multiplier,
                },
            ),
    {
        if multiplier == 0 {
            return Err(RetryPolicyError("multiplier must be greater than 0"));
        }
        if multiplier > 10 {
            return Err(RetryPolicyError("multiplier must be 10 or less to avoid overflow"));
        }
        if max_delay_ms < initial_delay_ms {
            return Err(RetryPolicyError("max_delay must be >= initial_delay"));
        }
        Ok(RetryPolicy::ExponentialBackoff { max_retries, initial_delay_ms, max_delay_ms, multiplier })
    }

    /// The wait in milliseconds before retry `attempt` (counted from 0), or
    /// `None` for a policy that never retries.
    pub fn delay_for_attempt(&self, attempt: u32) -> (r: Option<u64>)
        ensures
            r == self.spec_delay_for_attempt(attempt as nat),
    {
        match self {
            RetryPolicy::NoRetry => None,
            RetryPolicy::Fixed { delay_ms, .. } => Some(*delay_ms),
            RetryPolicy::ExponentialBackoff { initial_delay_ms, max_delay_ms, multiplier, .. } => {
                let ghost initial = *initial_delay_ms as int;
                let ghost m = *multiplier as int;
                // Work one above the cap so that "reached the cap" is visible.
                let cap: u128 = *max_delay_ms as u128 + 1;
                let mut acc: u128 = if (*initial_delay_ms as u128) < cap {
                    *initial_delay_ms as u128
                } else {
                    cap
                };
                assert(pow(m, 0) == 1);
                let mut i: u32 = 0;
                while i < attempt
                    invariant
                        i <= attempt,
                        cap == *max_delay_ms as int + 1,
                        acc <= cap,
                        acc as int == capped_backoff(initial, m, cap as int, i as nat),
                        initial == *initial_delay_ms as int,
                        m == *multiplier as int,
                    decreases attempt - i,
                {
                    proof {
                        lemma_capped_backoff_step(initial, m, cap as int, i as nat);
                    }
                    assert(acc * (*multiplier as u128) <= 0x1_0000_0000_0000_0000u128 * 0xffff_ffffu128)
                        by (nonlinear_arith)
                        requires
                            acc <= 0x1_0000_0000_0000_0000u128,
                            *multiplier <= 0xffff_ffffu32,
                    ;
                    let product: u128 = acc * (*multiplier as u128);
                    let next: u128 = if product < cap {
                        product
                    } else {
                        cap
                    };
                    if next == acc {
                        proof {
                            lemma_capped_backoff_settled(
                                initial,
                                m,
                                cap as int,
                                i as nat,
                                attempt as nat,
                            );
                        }
                        i = attempt;
                    } else {
                        acc = next;
                        i = i + 1;
                    }
                }
                proof {
                    lemma_pow_nonneg(m, attempt as nat);
                    assert(initial * pow(m, attempt as nat) >= 0) by (nonlinear_arith)
                        requires
                            initial >= 0,
                            pow(m, attempt as nat) >= 0,
                    ;
                }
                let delay: u64 = if acc < cap {
                    acc as u64
                } else {
                    *max_delay_ms
                };
                Some(delay)
            },
        }
    }

    /// The number of retries the policy allows after the first attempt.
    pub open spec fn spec_max_retries(self) -> u32 {
        match self {
            RetryPolicy::NoRetry => 0,
            RetryPolicy::Fixed { max_retries, .. } => max_retries,
            RetryPolicy::ExponentialBackoff { max_retries, .. } => max_retries,
        }
    }

    /// The wait before retry `attempt` (counted from 0), if the policy waits.
    pub open spec fn spec_delay_for_attempt(self, attempt: nat) -> Option<u64> {
        match self {
            RetryPolicy::NoRetry => None,
            RetryPolicy::Fixed { delay_ms, .. } => Some(delay_ms),
            RetryPolicy::ExponentialBackoff { initial_delay_ms, max_delay_ms, multiplier, .. } => Some(
                min(initial_delay_ms * pow(multiplier as int, attempt), max_delay_ms as int) as u64,
            ),
        }
    }

    /// Holds of every policy that the constructors can return: a backoff
    /// multiplier in `1..=10` and a cap no smaller than the first delay.
    pub open spec fn is_valid(self) -> bool {
        match self {
            RetryPolicy::ExponentialBackoff { initial_delay_ms, max_delay_ms, multiplier, .. } => {
                1 <= multiplier <= 10 && initial_delay_ms <= max_delay_ms
            },
            _ => true,
        }
    }

    pub fn max_retries(&self) -> (r: u32)
        ensures
            r == self.spec_max_retries(),
    {
        match self {
            RetryPolicy::NoRetry => 0,
            RetryPolicy::Fixed { max_retries, .. } => *max_retries,
            RetryPolicy::ExponentialBackoff { max_retries, .. } => *max_retries,
        }
    }
}

} // verus!
