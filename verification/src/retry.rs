use vstd::prelude::*;

use vstd::math::min;

use crate::flow::{JobId, Retry, RetryConstant, RetryExponential, MAX_RETRY_ATTEMPTS,
    MAX_RETRY_INTERVAL_SECS};
use crate::status::{retry_status_wf, RetryStatus, RetryStatusV};

verus! {

/// `b` to the power `e`.
pub open spec fn pow_spec(b: int, e: nat) -> int
    decreases e,
{
    if e == 0 {
        1
    } else {
        b * pow_spec(b, (e - 1) as nat)
    }
}

/// A power of a non-negative base is non-negative.
pub proof fn lemma_pow_spec_nonneg(b: int, e: nat)
    requires
        b >= 0,
    ensures
        pow_spec(b, e) >= 0,
    decreases e,
{
    if e > 0 {
        lemma_pow_spec_nonneg(b, (e - 1) as nat);
        assert(b * pow_spec(b, (e - 1) as nat) >= 0) by (nonlinear_arith)
            requires
                b >= 0,
                pow_spec(b, (e - 1) as nat) >= 0,
        ;
    }
}

/// Powers of a base of at least one do not shrink as the exponent grows.
pub proof fn lemma_pow_spec_increases(b: int, e1: nat, e2: nat)
    requires
        b >= 1,
        e1 <= e2,
    ensures
        pow_spec(b, e1) <= pow_spec(b, e2),
    decreases e2,
{
    if e1 < e2 {
        lemma_pow_spec_increases(b, e1, (e2 - 1) as nat);
        lemma_pow_spec_nonneg(b, (e2 - 1) as nat);
        assert(b * pow_spec(b, (e2 - 1) as nat) >= pow_spec(b, (e2 - 1) as nat))
            by (nonlinear_arith)
            requires
                b >= 1,
                pow_spec(b, (e2 - 1) as nat) >= 0,
        ;
    }
}

/// The delay the policy asks for before the attempt after `previous_attempts`
/// failures, in seconds; `None` once the policy is exhausted. The first
/// `constant.attempts` delays are flat; the next `exponential.attempts` grow
/// as `multiplier * seconds^(k + 1)`.
pub open spec fn retry_interval_spec(r: Retry, previous_attempts: u16) -> Option<int> {
    if previous_attempts < r.constant.attempts {
        Some(r.constant.seconds as int)
    } else if previous_attempts - r.constant.attempts < r.exponential.attempts {
        Some(
            r.exponential.multiplier * pow_spec(
                r.exponential.seconds as int,
                (previous_attempts - r.constant.attempts + 1) as nat,
            ),
        )
    } else {
        None
    }
}

/// How many attempts the policy allows in all.
pub open spec fn total_attempts(r: Retry) -> int {
    r.constant.attempts + r.exponential.attempts
}

/// A delay exists exactly while the policy's attempt budget is not spent.
pub proof fn lemma_interval_iff_budget(r: Retry, previous_attempts: u16)
    ensures
        retry_interval_spec(r, previous_attempts) is Some <==> previous_attempts
            < total_attempts(r),
{
}

/// Whether the policy grants any attempt at all.
pub open spec fn has_attempts_spec(r: Retry) -> bool {
    r.constant.attempts != 0 || r.exponential.attempts != 0
}

impl Retry {
    /// Whether the policy grants any attempt at all.
    pub fn has_attempts(&self) -> (res: bool)
        ensures
            res == has_attempts_spec(*self),
    {
        self.constant.attempts != 0 || self.exponential.attempts != 0
    }
}

impl Default for Retry {
    /// The policy of a module without one: no attempts.
    fn default() -> (r: Retry)
        ensures
            r == (Retry {
                constant: RetryConstant { attempts: 0, seconds: 0 },
                exponential: RetryExponential { attempts: 0, multiplier: 0, seconds: 0 },
            }),
    {
        Retry {
            constant: RetryConstant { attempts: 0, seconds: 0 },
            exponential: RetryExponential { attempts: 0, multiplier: 0, seconds: 0 },
        }
    }
}

/// `base^exp`, cut off at `clamp`.
#[verifier::loop_isolation(false)]
fn pow_clamped(base: u64, exp: u16, clamp: u64) -> (r: u64)
    requires
        1 <= clamp <= 1048576,
    ensures
        r as int == min(pow_spec(base as int, exp as nat), clamp as int),
{
    let mut acc: u64 = 1;
    let mut k: u16 = 0;
    while k < exp
        invariant
            k <= exp,
            acc as int == pow_spec(base as int, k as nat),
            acc <= clamp,
        decreases exp - k,
    {
        proof {
            assert((acc as int) * (base as int) <= 1048576int * 18446744073709551615int)
                by (nonlinear_arith)
                requires
                    0 <= acc as int <= 1048576,
                    0 <= base as int <= 18446744073709551615int,
            ;
        }
        let prod: u128 = (acc as u128) * (base as u128);
        proof {
            assert(pow_spec(base as int, (k + 1) as nat) == base * pow_spec(base as int, k as nat));
            assert(prod as int == pow_spec(base as int, (k + 1) as nat)) by (nonlinear_arith)
                requires
                    prod as int == (acc as int) * (base as int),
                    acc as int == pow_spec(base as int, k as nat),
                    pow_spec(base as int, (k + 1) as nat) == base * pow_spec(base as int, k as nat),
            ;
        }
        if prod > clamp as u128 {
            proof {
                assert(base as int >= 1) by (nonlinear_arith)
                    requires
                        (acc as int) * (base as int) > 1,
                        0 <= acc as int,
                        0 <= base as int,
                ;
                lemma_pow_spec_increases(base as int, (k + 1) as nat, exp as nat);
            }
            return clamp;
        }
        acc = prod as u64;
        k = k + 1;
    }
    acc
}

/// The delay, in seconds and cut off at `MAX_RETRY_INTERVAL_SECS`, before the
/// attempt after `previous_attempts` failures; `None` once the policy is
/// exhausted.
pub fn retry_interval(r: &Retry, previous_attempts: u16) -> (res: Option<u64>)
    ensures
        res is Some <==> retry_interval_spec(*r, previous_attempts) is Some,
        res matches Some(d) ==> d as int == min(
            retry_interval_spec(*r, previous_attempts)->Some_0,
            MAX_RETRY_INTERVAL_SECS as int,
        ),
{
    if previous_attempts < r.constant.attempts {
        let s: u64 = r.constant.seconds as u64;
        if s < MAX_RETRY_INTERVAL_SECS {
            Some(s)
        } else {
            Some(MAX_RETRY_INTERVAL_SECS)
        }
    } else if previous_attempts - r.constant.attempts < r.exponential.attempts {
        let e: u16 = previous_attempts - r.constant.attempts + 1;
        let p: u64 = pow_clamped(r.exponential.seconds as u64, e, MAX_RETRY_INTERVAL_SECS);
        proof {
            assert((r.exponential.multiplier as int) * (p as int) <= 65535int * 21600int)
                by (nonlinear_arith)
                requires
                    0 <= r.exponential.multiplier as int <= 65535,
                    0 <= p as int <= 21600,
            ;
        }
        let m: u128 = (r.exponential.multiplier as u128) * (p as u128);
        let ghost pw: int = pow_spec(r.exponential.seconds as int, e as nat);
        let ghost sv: int = r.exponential.multiplier * pw;
        proof {
            lemma_pow_spec_nonneg(r.exponential.seconds as int, e as nat);
            assert(m as int == (r.exponential.multiplier as int) * (p as int));
            if pw > MAX_RETRY_INTERVAL_SECS as int {
                assert(p == MAX_RETRY_INTERVAL_SECS);
                assert(sv >= m as int && sv >= 0) by (nonlinear_arith)
                    requires
                        pw >= p as int,
                        pw >= 0,
                        r.exponential.multiplier >= 0,
                        sv == r.exponential.multiplier * pw,
                        m as int == (r.exponential.multiplier as int) * (p as int),
                ;
                if r.exponential.multiplier >= 1 {
                    assert(sv >= pw && m as int >= p as int) by (nonlinear_arith)
                        requires
                            r.exponential.multiplier >= 1,
                            pw >= 0,
                            p as int >= 0,
                            sv == r.exponential.multiplier * pw,
                            m as int == (r.exponential.multiplier as int) * (p as int),
                    ;
                } else {
                    assert(sv == 0 && m as int == 0) by (nonlinear_arith)
                        requires
                            r.exponential.multiplier as int == 0,
                            sv == r.exponential.multiplier * pw,
                            m as int == (r.exponential.multiplier as int) * (p as int),
                    ;
                }
            } else {
                assert(p as int == pw);
                assert(m as int == sv);
            }
        }
        if m > MAX_RETRY_INTERVAL_SECS as u128 {
            Some(MAX_RETRY_INTERVAL_SECS)
        } else {
            Some(m as u64)
        }
    } else {
        None
    }
}

/// Whether a further attempt is granted after `fail_count` failures: the
/// engine-wide cap is not passed and the policy still yields a delay.
pub open spec fn retry_granted(r: Retry, fail_count: u16) -> bool {
    fail_count <= MAX_RETRY_ATTEMPTS && retry_interval_spec(r, fail_count) is Some
}

/// Decides a retry: after `status.fail_count` failures under policy `retry`,
/// either the next failure count together with the delay, in seconds, to wait
/// before relaunching, or `None` when no further attempt is granted.
pub fn next_retry(retry: &Retry, status: &RetryStatus) -> (r: Option<(u16, u64)>)
    ensures
        r is Some <==> retry_granted(*retry, status.fail_count),
        r matches Some(p) ==> p.0 == status.fail_count + 1 && p.1 as int == min(
            retry_interval_spec(*retry, status.fail_count)->Some_0,
            MAX_RETRY_INTERVAL_SECS as int,
        ),
{
    if status.fail_count <= MAX_RETRY_ATTEMPTS {
        match retry_interval(retry, status.fail_count) {
            Some(d) => Some((status.fail_count + 1, d)),
            None => None,
        }
    } else {
        None
    }
}

/// The persisted effect of a granted retry: the counter advances by one and
/// the failed child is recorded.
pub open spec fn retry_transition(
    cfg: Retry,
    s: RetryStatusV,
    job: JobId,
    s2: RetryStatusV,
) -> bool {
    &&& retry_granted(cfg, s.fail_count)
    &&& s2.fail_count == s.fail_count + 1
    &&& s2.failed_jobs == s.failed_jobs.push(job)
}

/// Retry bound: every granted retry keeps the retry record sound (one
/// recorded job per counted failure) and stays within both the policy's own
/// attempt budget and the engine-wide cap. Since each launch beyond the first
/// takes one granted retry, a module launches at most `total_attempts + 1`
/// child jobs, and so at most `MAX_RETRY_ATTEMPTS + 1` whenever its policy's
/// budget stays within the cap.
pub proof fn lemma_retry_bound(cfg: Retry, s: RetryStatusV, job: JobId, s2: RetryStatusV)
    requires
        retry_status_wf(s),
        retry_transition(cfg, s, job, s2),
    ensures
        retry_status_wf(s2),
        s2.fail_count <= total_attempts(cfg),
        total_attempts(cfg) <= MAX_RETRY_ATTEMPTS ==> s2.fail_count + 1 <= MAX_RETRY_ATTEMPTS + 1,
{
    lemma_interval_iff_budget(cfg, s.fail_count);
}

} // verus!
