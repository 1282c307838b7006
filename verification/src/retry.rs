//! The retry executor's decisions: bounded, jittered exponential backoff,
//! retrying transport failures only.
//!
//! The async loop that performs the attempts lives with the transport; each
//! attempt's outcome is brought here, and [`retry_step`] decides whether to
//! return it or to sleep and try again.

use vstd::prelude::*;
use rand::Rng;
use crate::error::TushareError;
use crate::types::TushareResponse;

verus! {

/// Retry policy: `max_retries` bounds the number of extra attempts beyond
/// the first; delays are in milliseconds.
#[derive(Debug, Clone, PartialEq, Eq, Structural)]
pub struct RetryConfig {
    pub max_retries: usize,
    /// Base backoff delay, in milliseconds.
    pub base_delay: u64,
    /// Cap on the backoff delay, in milliseconds.
    pub max_delay: u64,
}

impl Default for RetryConfig {
    /// Three retries, 200 ms base delay, 5 s cap.
    fn default() -> (r: Self)
        ensures
            r.max_retries == 3,
            r.base_delay == 200,
            r.max_delay == 5000,
    {
        RetryConfig { max_retries: 3, base_delay: 200, max_delay: 5000 }
    }
}

/// Retryable failures: transport errors and timeouts. Business errors,
/// undecodable bodies and credential errors are terminal.
pub open spec fn retryable_spec(e: TushareError) -> bool {
    e is HttpError || e is TimeoutError
}

pub fn is_retryable_error(err: &TushareError) -> (r: bool)
    ensures
        r == retryable_spec(*err),
{
    matches!(err, TushareError::HttpError(_) | TushareError::TimeoutError)
}

pub open spec fn pow2(n: nat) -> int
    decreases n,
{
    if n == 0 {
        1
    } else {
        2 * pow2((n - 1) as nat)
    }
}

proof fn lemma_pow2_shift(n: u64)
    requires
        n <= 31,
    ensures
        (1u64 << n) as int == pow2(n as nat),
    decreases n,
{
    if n == 0 {
        assert((1u64 << 0u64) == 1) by (bit_vector);
    } else {
        lemma_pow2_shift((n - 1) as u64);
        assert((1u64 << n) == 2 * (1u64 << ((n - 1) as u64))) by (bit_vector)
            requires 1 <= n <= 31;
    }
}

/// The deterministic backoff cap before jitter: the base delay doubled per
/// completed attempt (the exponent saturates at 31), capped at `max_delay`.
pub open spec fn backoff_cap_spec(cfg: RetryConfig, attempt: nat) -> int {
    let shift = if attempt <= 31 { attempt } else { 31nat };
    let raw = cfg.base_delay * pow2(shift);
    if raw > cfg.max_delay {
        cfg.max_delay as int
    } else {
        raw
    }
}

/// Relies on rand::Rng::gen_range over `0..=bound` on the thread-local
/// generator: the range is never empty and the sample lies within it.
#[verifier::external_body]
fn rand_range_inclusive(bound: u64) -> (r: u64)
    ensures
        r <= bound,
{
    rand::thread_rng().gen_range(0..=bound)
}

/// Computes one backoff delay with equal jitter: half the deterministic
/// cap, plus a random share of the other half. The result always lies in
/// `[cap / 2, cap]`.
pub fn compute_backoff_delay(cfg: &RetryConfig, attempt: usize) -> (delay: u64)
    ensures
        backoff_cap_spec(*cfg, attempt as nat) / 2 <= delay <= backoff_cap_spec(
            *cfg,
            attempt as nat,
        ),
{
    let shift: u32 = if attempt < 31 {
        attempt as u32
    } else {
        31
    };
    proof {
        lemma_pow2_shift(shift as u64);
    }
    let factor: u64 = 1u64 << shift;
    let raw = match cfg.base_delay.checked_mul(factor) {
        Some(x) => x,
        None => u64::MAX,
    };
    let capped = if raw > cfg.max_delay {
        cfg.max_delay
    } else {
        raw
    };
    proof {
        assert(capped == backoff_cap_spec(*cfg, attempt as nat));
    }
    if capped == 0 {
        return 0;
    }
    let half = capped / 2;
    let jitter = rand_range_inclusive(half);
    half + jitter
}

/// Whether one more attempt follows a failure: retry must be enabled,
/// attempts must remain, and the failure must be retryable.
pub open spec fn should_retry_spec(cfg: Option<RetryConfig>, attempt: nat, e: TushareError) -> bool {
    match cfg {
        Some(c) => attempt < c.max_retries && retryable_spec(e),
        None => false,
    }
}

/// What the retry executor does after one attempt.
#[derive(Debug)]
pub enum RetryStep {
    /// Return this result to the caller.
    Done(Result<TushareResponse, TushareError>),
    /// Sleep this long, then make the next attempt.
    Retry { delay_ms: u64 },
}

/// Decides what follows one attempt's outcome: a success or a terminal
/// failure is returned as is; a retryable failure with attempts remaining
/// schedules a jittered backoff sleep.
pub fn retry_step(
    cfg: &Option<RetryConfig>,
    attempt: usize,
    outcome: Result<TushareResponse, TushareError>,
) -> (r: RetryStep)
    ensures
        outcome matches Ok(resp) ==> r == RetryStep::Done(Result::<
            TushareResponse,
            TushareError,
        >::Ok(resp)),
        outcome matches Err(e) ==> (if should_retry_spec(*cfg, attempt as nat, e) {
            r matches RetryStep::Retry { delay_ms } && (*cfg) matches Some(c)
                && backoff_cap_spec(c, attempt as nat) / 2 <= delay_ms <= backoff_cap_spec(
                c,
                attempt as nat,
            )
        } else {
            r == RetryStep::Done(Result::<TushareResponse, TushareError>::Err(e))
        }),
{
    match outcome {
        Ok(resp) => RetryStep::Done(Ok(resp)),
        Err(e) => {
            match cfg {
                Some(c) => {
                    if attempt < c.max_retries && is_retryable_error(&e) {
                        RetryStep::Retry { delay_ms: compute_backoff_delay(c, attempt) }
                    } else {
                        RetryStep::Done(Err(e))
                    }
                },
                None => RetryStep::Done(Err(e)),
            }
        },
    }
}

// ---------------------------------------------------------------------------
// Laws.
// ---------------------------------------------------------------------------

/// Law: a business error is never retried, whatever the retry policy says.
pub proof fn lemma_business_error_never_retried(
    cfg: Option<RetryConfig>,
    attempt: nat,
    code: i32,
    message: String,
)
    ensures
        !should_retry_spec(cfg, attempt, TushareError::ApiError { code, message }),
        !retryable_spec(TushareError::ApiError { code, message }),
{
}

/// How many attempts a run makes, starting at `attempt`, when every
/// outcome is the failure `e`.
pub open spec fn attempts_when_failing(c: RetryConfig, attempt: nat, e: TushareError) -> nat
    decreases c.max_retries - attempt,
        when attempt <= c.max_retries
{
    if attempt < c.max_retries && retryable_spec(e) {
        1 + attempts_when_failing(c, attempt + 1, e)
    } else {
        1
    }
}

proof fn lemma_retry_attempt_count_from(c: RetryConfig, attempt: nat, e: TushareError)
    requires
        retryable_spec(e),
        attempt <= c.max_retries,
    ensures
        attempts_when_failing(c, attempt, e) == c.max_retries - attempt + 1,
    decreases c.max_retries - attempt,
{
    if attempt < c.max_retries {
        lemma_retry_attempt_count_from(c, attempt + 1, e);
    }
}

/// Law: with retry enabled, a call that always fails with a retryable
/// error is attempted exactly `max_retries + 1` times in total.
pub proof fn lemma_retry_attempt_count(c: RetryConfig, e: TushareError)
    requires
        retryable_spec(e),
    ensures
        attempts_when_failing(c, 0, e) == c.max_retries + 1,
{
    lemma_retry_attempt_count_from(c, 0, e);
}

} // verus!
