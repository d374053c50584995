//! The retry controller.
//!
//! One logical call makes up to `max_retries + 1` attempts. After a failed
//! attempt, [`retry_step`] decides whether the call may be attempted again —
//! only for failures classified retryable, and only while the budget lasts —
//! and how long to wait first: the delay before attempt `k` (1-indexed) is
//! `base_delay * 2^(k-1)`, saturating at the type's maximum. [`run_retry`]
//! drives the whole policy over a pre-computed sequence of attempt outcomes;
//! the embedding application runs the same policy attempt by attempt, asking
//! [`retry_step`] after each failure.

use vstd::prelude::*;

use crate::error::Error;

verus! {

/// Two to the given power.
pub open spec fn spec_pow2(e: nat) -> nat
    decreases e,
{
    if e == 0 {
        1
    } else {
        2 * spec_pow2((e - 1) as nat)
    }
}

/// Doubles, saturating at the type's maximum.
pub open spec fn spec_sat_double(d: u64) -> u64 {
    if d <= u64::MAX / 2 {
        (2 * d) as u64
    } else {
        u64::MAX
    }
}

/// The backoff delay before attempt `k` (1-indexed): the base delay doubled
/// `k - 1` times, saturating at the type's maximum.
pub open spec fn spec_retry_delay(base_ms: u64, attempt: u32) -> u64
    decreases attempt,
{
    if attempt <= 1 {
        base_ms
    } else {
        spec_sat_double(spec_retry_delay(base_ms, (attempt - 1) as u32))
    }
}

/// Wherever it does not saturate, the backoff delay is exactly
/// `base * 2^(attempt-1)`.
pub proof fn lemma_retry_delay_exact(base_ms: u64, attempt: u32)
    requires
        1 <= attempt,
        base_ms * spec_pow2((attempt - 1) as nat) <= u64::MAX,
    ensures
        spec_retry_delay(base_ms, attempt) == base_ms * spec_pow2((attempt - 1) as nat),
    decreases attempt,
{
    if attempt == 1 {
        assert(spec_pow2(0) == 1);
        assert(spec_retry_delay(base_ms, attempt) == base_ms);
        assert(base_ms * spec_pow2((attempt - 1) as nat) == base_ms) by (nonlinear_arith)
            requires
                attempt == 1,
                spec_pow2(0) == 1,
        ;
    } else {
        assert(spec_pow2((attempt - 1) as nat) == 2 * spec_pow2((attempt - 2) as nat));
        assert(base_ms * spec_pow2((attempt - 2) as nat) <= u64::MAX) by (nonlinear_arith)
            requires
                base_ms * spec_pow2((attempt - 1) as nat) <= u64::MAX,
                spec_pow2((attempt - 1) as nat) == 2 * spec_pow2((attempt - 2) as nat),
                spec_pow2((attempt - 2) as nat) >= 0,
                base_ms >= 0,
        ;
        lemma_retry_delay_exact(base_ms, (attempt - 1) as u32);
        let prev: u64 = spec_retry_delay(base_ms, (attempt - 1) as u32);
        assert(prev == base_ms * spec_pow2((attempt - 2) as nat));
        assert(2 * prev == base_ms * spec_pow2((attempt - 1) as nat)) by (nonlinear_arith)
            requires
                spec_pow2((attempt - 1) as nat) == 2 * spec_pow2((attempt - 2) as nat),
                prev == base_ms * spec_pow2((attempt - 2) as nat),
        ;
        assert(prev <= u64::MAX / 2);
        assert(spec_retry_delay(base_ms, attempt) == spec_sat_double(
            spec_retry_delay(base_ms, (attempt - 1) as u32),
        ));
        assert(spec_sat_double(prev) == 2 * prev);
        assert(spec_retry_delay(base_ms, attempt) == base_ms * spec_pow2((attempt - 1) as nat));
    }
}

/// Computes the backoff delay before the given 1-indexed attempt.
pub fn retry_delay_ms(base_ms: u64, attempt: u32) -> (r: u64)
    ensures
        r == spec_retry_delay(base_ms, attempt),
{
    let mut d: u64 = base_ms;
    let mut i: u32 = 1;
    while i < attempt
        invariant
            1 <= i,
            attempt <= 1 ==> i == 1,
            attempt > 1 ==> i <= attempt,
            d == spec_retry_delay(base_ms, i),
        decreases attempt - i,
    {
        d = if d <= u64::MAX / 2 {
            2 * d
        } else {
            u64::MAX
        };
        i = i + 1;
    }
    d
}

/// What the retry controller does after a failed attempt.
#[derive(Debug, Clone, Copy, PartialEq, Eq, Structural)]
pub enum RetryDecision {
    /// Wait this many milliseconds, then attempt again.
    RetryAfter(u64),
    /// Surface the failure to the caller.
    Stop,
}

/// Decides whether a failed attempt may be retried: only when the failure is
/// retryable and fewer than `max_retries` retries have been spent. The delay
/// before the next attempt follows the exponential backoff schedule.
pub fn retry_step(max_retries: u32, base_delay_ms: u64, attempts_made: u32, error: &Error) -> (d:
    RetryDecision)
    ensures
        error.spec_retryable() && attempts_made < max_retries ==> d == RetryDecision::RetryAfter(
            spec_retry_delay(base_delay_ms, (attempts_made + 1) as u32),
        ),
        !(error.spec_retryable() && attempts_made < max_retries) ==> d == RetryDecision::Stop,
{
    if error.is_retryable() && attempts_made < max_retries {
        RetryDecision::RetryAfter(retry_delay_ms(base_delay_ms, attempts_made + 1))
    } else {
        RetryDecision::Stop
    }
}

/// How many attempts the policy makes when the attempts would produce these
/// outcomes in order, with this many retries left: it stops at the first
/// success or terminal failure, or when the budget runs out.
pub open spec fn spec_attempts_used<T>(
    outcomes: Seq<Result<T, Error>>,
    retries_left: nat,
) -> nat
    decreases outcomes.len(),
{
    if outcomes.len() == 0 {
        0
    } else {
        match outcomes[0] {
            Ok(_) => 1,
            Err(e) => if e.spec_retryable() && retries_left > 0 {
                1 + spec_attempts_used(outcomes.drop_first(), (retries_left - 1) as nat)
            } else {
                1
            },
        }
    }
}

/// What one run of the retry policy produced: the surfaced outcome, how many
/// attempts were made, and the delays slept between them.
pub struct RetryRun<T> {
    pub result: Result<T, Error>,
    pub attempts: usize,
    pub delays: Vec<u64>,
}

/// Runs the whole retry policy over a sequence of attempt outcomes: the
/// outcome of attempt `k` is `outcomes[k-1]`. The surfaced result is the
/// outcome of the last attempt made; the number of attempts is as the policy
/// demands; the `k`-th delay slept follows the backoff schedule.
pub fn run_retry<T>(max_retries: u32, base_delay_ms: u64, outcomes: Vec<Result<T, Error>>) -> (r:
    RetryRun<T>)
    requires
        outcomes@.len() > max_retries,
    ensures
        r.attempts == spec_attempts_used(outcomes@, max_retries as nat),
        1 <= r.attempts <= max_retries + 1,
        r.result == outcomes@[r.attempts - 1],
        r.delays@.len() == r.attempts - 1,
        forall|k: int|
            0 <= k < r.delays@.len() ==> r.delays@[k] == spec_retry_delay(
                base_delay_ms,
                (k + 1) as u32,
            ),
{
    let ghost all = outcomes@;
    let total = outcomes.len();
    let mut rest = outcomes;
    let mut attempts_made: u32 = 0;
    let mut delays: Vec<u64> = Vec::new();
    loop
        invariant
            attempts_made <= max_retries,
            all == outcomes@,
            all.len() > max_retries,
            all.len() == total,
            rest@ == all.subrange(attempts_made as int, all.len() as int),
            spec_attempts_used(all, max_retries as nat) == attempts_made + spec_attempts_used(
                rest@,
                (max_retries - attempts_made) as nat,
            ),
            delays@.len() == attempts_made,
            forall|k: int|
                0 <= k < delays@.len() ==> delays@[k] == spec_retry_delay(
                    base_delay_ms,
                    (k + 1) as u32,
                ),
        decreases max_retries - attempts_made,
    {
        assert(rest@.len() > 0);
        let remaining = rest.len();
        assert(attempts_made < usize::MAX);
        let ghost rest_before = rest@;
        let ghost left: nat = (max_retries - attempts_made) as nat;
        let outcome = rest.remove(0);
        assert(rest@ =~= all.subrange(attempts_made as int + 1, all.len() as int));
        proof {
            assert(outcome == rest_before[0]);
            assert(rest_before[0] == all[attempts_made as int]);
        }
        match outcome {
            Ok(v) => {
                proof {
                    assert(spec_attempts_used(rest_before, left) == 1);
                }
                return RetryRun {
                    result: Ok(v),
                    attempts: attempts_made as usize + 1,
                    delays,
                };
            },
            Err(e) => {
                match retry_step(max_retries, base_delay_ms, attempts_made, &e) {
                    RetryDecision::RetryAfter(d) => {
                        proof {
                            assert(e.spec_retryable() && left > 0);
                            assert(spec_attempts_used(rest_before, left) == 1
                                + spec_attempts_used(rest_before.drop_first(), (left - 1) as nat));
                            assert(rest_before.drop_first() =~= rest@);
                        }
                        delays.push(d);
                        attempts_made = attempts_made + 1;
                    },
                    RetryDecision::Stop => {
                        proof {
                            assert(!(e.spec_retryable() && left > 0));
                            assert(spec_attempts_used(rest_before, left) == 1);
                        }
                        return RetryRun {
                            result: Err(e),
                            attempts: attempts_made as usize + 1,
                            delays,
                        };
                    },
                }
            },
        }
    }
}

/// Retryable failures on every attempt before the `n`-th and a success on the
/// `n`-th (within the budget) yield success with exactly `n` attempts made.
pub proof fn lemma_success_on_nth_attempt<T>(
    outcomes: Seq<Result<T, Error>>,
    retries_left: nat,
    n: int,
)
    requires
        1 <= n <= retries_left + 1,
        n <= outcomes.len(),
        forall|j: int| 0 <= j < n - 1 ==> (#[trigger] outcomes[j] matches Err(e) && e.spec_retryable()),
        outcomes[n - 1] is Ok,
    ensures
        spec_attempts_used(outcomes, retries_left) == n,
    decreases n,
{
    if n == 1 {
    } else {
        assert(outcomes[0] matches Err(e) && e.spec_retryable());
        lemma_success_on_nth_attempt(outcomes.drop_first(), (retries_left - 1) as nat, n - 1);
    }
}

/// A non-retryable failure on the first attempt is surfaced at once: exactly
/// one attempt is made, whatever the budget.
pub proof fn lemma_terminal_failure_not_retried<T>(
    outcomes: Seq<Result<T, Error>>,
    retries_left: nat,
)
    requires
        outcomes.len() > 0,
        outcomes[0] matches Err(e) && !e.spec_retryable(),
    ensures
        spec_attempts_used(outcomes, retries_left) == 1,
{
}

/// When every attempt within the budget fails retryably, the budget is
/// exhausted: `retries_left + 1` attempts are made, so the surfaced result is
/// the final attempt's own error, not anything invented by the controller.
pub proof fn lemma_retries_exhausted<T>(outcomes: Seq<Result<T, Error>>, retries_left: nat)
    requires
        outcomes.len() > retries_left,
        forall|j: int|
            0 <= j <= retries_left ==> (#[trigger] outcomes[j] matches Err(e) && e.spec_retryable()),
    ensures
        spec_attempts_used(outcomes, retries_left) == retries_left + 1,
    decreases retries_left,
{
    if retries_left > 0 {
        assert(forall|j: int|
            0 <= j <= retries_left - 1 ==> outcomes.drop_first()[j] == outcomes[j + 1]);
        lemma_retries_exhausted(outcomes.drop_first(), (retries_left - 1) as nat);
    }
}

} // verus!
