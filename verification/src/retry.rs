//! Retry policy for network-facing operations.
//!
//! Every network-facing caller classifies each attempt's outcome as a
//! success, a transient (retryable) failure, or a permanent failure, and
//! retries transient failures with exponential backoff: `2^attempt`
//! seconds after attempt number `attempt`, counted from zero, with no
//! backoff after the final attempt.  The decision logic is verified here;
//! the caller performs the actual request and the sleep between attempts,
//! handing each outcome to [`RetryPolicy::observe`] and acting on the
//! step it returns.

use vstd::prelude::*;
use vstd::string::StringExecFns;
use vstd::arithmetic::power2::{lemma2_to64, lemma_pow2_strictly_increases, pow2};

verus! {

/// The classified outcome of one HTTP attempt: success with a value,
/// a transient failure worth retrying, or a permanent failure with a message.
#[derive(Debug, PartialEq, Eq)]
pub enum HttpResult<T> {
    Success(T),
    Retryable,
    NonRetryable(String),
}

/// True exactly for the HTTP status codes treated as transient:
/// 429 (rate limiting) and the 5xx server errors.
pub fn is_retryable_status(status: u16) -> (r: bool)
    ensures
        r == (status == 429 || (500 <= status && status <= 599)),
{
    status == 429 || (500 <= status && status <= 599)
}

/// What the caller must do after one observed outcome: stop with this
/// result, or sleep this many seconds and try again.
#[derive(Debug, PartialEq, Eq)]
pub enum RetryStep<T> {
    Done(Result<T, String>),
    Backoff(u64),
}

/// The step a retry policy owes for the outcome of attempt number
/// `attempt` (counted from zero): a success or permanent failure ends the
/// run with that result; a transient failure backs off `2^attempt`
/// seconds when attempts remain, and otherwise ends the run with the
/// retries-exceeded message.
pub open spec fn retry_step_spec<T>(
    attempt: int,
    max_attempts: int,
    outcome: HttpResult<T>,
    error_message: Seq<char>,
    r: RetryStep<T>,
) -> bool {
    match outcome {
        HttpResult::Success(v) => r == RetryStep::Done(Ok::<T, String>(v)),
        HttpResult::NonRetryable(m) => r == RetryStep::Done(Err::<T, String>(m)),
        HttpResult::Retryable => if attempt + 1 < max_attempts {
            r matches RetryStep::Backoff(b) && b == pow2(attempt as nat)
        } else {
            r matches RetryStep::Done(res) && res matches Err(m) && m@ == error_message
                + ": retries exceeded"@
        },
    }
}

/// `2^e`, for exponents small enough to fit a `u64`.
pub(crate) fn exp2(e: u32) -> (r: u64)
    requires
        e <= 63,
    ensures
        r == pow2(e as nat),
{
    let mut r: u64 = 1;
    let mut i: u32 = 0;
    proof {
        lemma2_to64();
        assert(pow2(0) == 1);
    }
    while i < e
        invariant
            i <= e <= 63,
            r == pow2(i as nat),
        decreases e - i,
    {
        proof {
            lemma2_to64();
            lemma_pow2_strictly_increases((i + 1) as nat, 64);
            assert(pow2((i + 1) as nat) == 2 * pow2(i as nat)) by {
                vstd::arithmetic::power2::lemma_pow2_unfold((i + 1) as nat);
            }
        }
        r = r * 2;
        i += 1;
    }
    r
}

/// The retry policy: up to `max_attempts` attempts, exponential backoff
/// between transient failures.
pub struct RetryPolicy {
    max_attempts: u32,
    attempts_made: u32,
}

impl RetryPolicy {
    pub closed spec fn spec_max_attempts(&self) -> int {
        self.max_attempts as int
    }

    /// How many attempts' outcomes have been observed.
    pub closed spec fn spec_attempts_made(&self) -> int {
        self.attempts_made as int
    }

    pub open spec fn wf(&self) -> bool {
        &&& 1 <= self.spec_max_attempts() <= 64
        &&& 0 <= self.spec_attempts_made() <= self.spec_max_attempts()
    }

    /// Whether another attempt may still be observed.
    pub open spec fn spec_can_attempt(&self) -> bool {
        self.spec_attempts_made() < self.spec_max_attempts()
    }

    /// A fresh policy.  The limit is capped at 64 so the backoff in
    /// seconds always fits a `u64`.
    pub fn new(max_attempts: u32) -> (r: Self)
        requires
            1 <= max_attempts <= 64,
        ensures
            r.wf(),
            r.spec_max_attempts() == max_attempts,
            r.spec_attempts_made() == 0,
    {
        RetryPolicy { max_attempts, attempts_made: 0 }
    }

    pub fn can_attempt(&self) -> (r: bool)
        ensures
            r == self.spec_can_attempt(),
    {
        self.attempts_made < self.max_attempts
    }

    /// Observe the outcome of the next attempt and decide the caller's
    /// step, exactly as [`retry_step_spec`] describes.
    pub fn observe<T>(&mut self, outcome: HttpResult<T>, error_message: &str) -> (r: RetryStep<T>)
        requires
            old(self).wf(),
            old(self).spec_can_attempt(),
        ensures
            final(self).wf(),
            final(self).spec_max_attempts() == old(self).spec_max_attempts(),
            final(self).spec_attempts_made() == old(self).spec_attempts_made() + 1,
            retry_step_spec(
                old(self).spec_attempts_made(),
                old(self).spec_max_attempts(),
                outcome,
                error_message@,
                r,
            ),
    {
        let attempt = self.attempts_made;
        self.attempts_made = self.attempts_made + 1;
        match outcome {
            HttpResult::Success(v) => RetryStep::Done(Ok(v)),
            HttpResult::NonRetryable(m) => RetryStep::Done(Err(m)),
            HttpResult::Retryable => {
                if attempt + 1 < self.max_attempts {
                    RetryStep::Backoff(exp2(attempt))
                } else {
                    let mut m = error_message.to_owned();
                    m.append(": retries exceeded");
                    RetryStep::Done(Err(m))
                }
            }
        }
    }
}

/// Retry law, transient failures then success: when the first `k`
/// outcomes are transient and outcome `k` is `Success(v)`, with `k` below
/// the attempt limit, every step before the last backs off — so the
/// operation is invoked exactly `k + 1` times — and the last step returns
/// `Ok(v)`.
pub proof fn lemma_retry_transients_then_success<T>(
    max_attempts: int,
    error_message: Seq<char>,
    outcomes: Seq<HttpResult<T>>,
    steps: Seq<RetryStep<T>>,
    k: int,
    v: T,
)
    requires
        0 <= k < max_attempts,
        outcomes.len() == k + 1,
        steps.len() == k + 1,
        forall|i: int| 0 <= i < k ==> outcomes[i] is Retryable,
        outcomes[k] == HttpResult::Success(v),
        forall|i: int|
            0 <= i <= k ==> retry_step_spec(i, max_attempts, outcomes[i], error_message, #[trigger] steps[i]),
    ensures
        forall|i: int| 0 <= i < k ==> steps[i] is Backoff,
        steps[k] == RetryStep::Done(Ok::<T, String>(v)),
{
}

/// Retry law, retries exhausted: when every outcome up to the attempt
/// limit is transient, the policy backs off after each attempt but the
/// last — the operation is invoked exactly `max_attempts` times — and the
/// final step reports that the retries were exceeded.
pub proof fn lemma_retry_exhausted<T>(
    max_attempts: int,
    error_message: Seq<char>,
    outcomes: Seq<HttpResult<T>>,
    steps: Seq<RetryStep<T>>,
)
    requires
        1 <= max_attempts,
        outcomes.len() == max_attempts,
        steps.len() == max_attempts,
        forall|i: int| 0 <= i < max_attempts ==> outcomes[i] is Retryable,
        forall|i: int|
            0 <= i < max_attempts ==> retry_step_spec(
                i,
                max_attempts,
                outcomes[i],
                error_message,
                #[trigger] steps[i],
            ),
    ensures
        forall|i: int| 0 <= i < max_attempts - 1 ==> steps[i] is Backoff,
        steps[max_attempts - 1] matches RetryStep::Done(res) && res matches Err(m) && m@
            == error_message + ": retries exceeded"@,
{
    assert(retry_step_spec(
        max_attempts - 1,
        max_attempts,
        outcomes[max_attempts - 1],
        error_message,
        steps[max_attempts - 1],
    ));
}

/// Retry law, permanent failure: a non-retryable outcome on the first
/// attempt ends the run at once — the operation is invoked exactly once —
/// and the error carries that outcome's message.
pub proof fn lemma_retry_non_retryable_immediate<T>(
    max_attempts: int,
    error_message: Seq<char>,
    m: String,
    step: RetryStep<T>,
)
    requires
        1 <= max_attempts,
        retry_step_spec(0, max_attempts, HttpResult::NonRetryable(m), error_message, step),
    ensures
        step == RetryStep::Done(Err::<T, String>(m)),
{
}

} // verus!
