//! The retry/backoff state machine that governs one item's transfer: a
//! bounded number of attempts, exponential backoff between them, immediate
//! termination on an authorization failure or fatal I/O, and hand-off of
//! the post-download validation outcome.

use vstd::prelude::*;
use vstd::arithmetic::power2::{pow2, lemma_pow2_unfold, lemma_pow2_strictly_increases};
use vstd::arithmetic::mul::lemma_mul_inequality;
use crate::outcome::Outcome;

verus! {

/// Default bound on transfer attempts per item.
pub const MAX_RETRIES: u32 = 3;

/// Default base delay, in milliseconds, for exponential backoff.
pub const RETRY_BASE_DELAY_MS: u64 = 500;

/// The retry policy one transfer runs under.
#[derive(Debug, Clone, Copy, PartialEq, Eq, Structural)]
pub struct RetryPolicy {
    /// Hard bound on the number of attempts.
    pub max_attempts: u32,
    /// Base delay: the wait before attempt `k` is `base * 2^(k - 2)`.
    pub base_delay_ms: u64,
}

impl RetryPolicy {
    /// A policy is well formed when it allows at least one attempt and no
    /// backoff delay it can ever ask for overflows.
    pub open spec fn wf(self) -> bool {
        1 <= self.max_attempts <= 32 && (self.max_attempts >= 2 ==> self.base_delay_ms * pow2(
            (self.max_attempts - 2) as nat,
        ) <= u64::MAX)
    }

    /// The default policy.
    pub fn standard() -> (p: RetryPolicy)
        ensures
            p.wf(),
            p.max_attempts == MAX_RETRIES,
            p.base_delay_ms == RETRY_BASE_DELAY_MS,
    {
        proof {
            vstd::arithmetic::power2::lemma2_to64();
            assert(pow2((MAX_RETRIES - 2) as nat) == 2);
        }
        RetryPolicy { max_attempts: MAX_RETRIES, base_delay_ms: RETRY_BASE_DELAY_MS }
    }
}

/// How one transfer attempt ended.
#[derive(Debug, Clone, Copy, PartialEq, Eq, Structural)]
pub enum AttemptEvent {
    /// The response body was fully written; validation of the written file
    /// produced this outcome, which becomes the task's terminal outcome.
    Completed(Outcome),
    /// The server rejected the credential: terminal at once, no retry.
    AuthRejected,
    /// A fatal I/O error while writing the destination: terminal at once.
    FatalIo,
    /// Any other transport or HTTP-status error: retryable.
    Transient,
}

/// What the driver must do next.
#[derive(Debug, Clone, Copy, PartialEq, Eq, Structural)]
pub enum RetryStep {
    /// Start another attempt after waiting the given delay.
    Attempt { delay_ms: u64 },
    /// The transfer is over with this terminal outcome.
    Done(Outcome),
}

/// The state of one transfer's retry loop.
#[derive(Debug, Clone, Copy)]
pub struct RetryState {
    /// Number of attempts started so far.
    pub attempts_started: u32,
    /// The terminal outcome, once one is known.
    pub finished: Option<Outcome>,
}

impl RetryState {
    /// The state before any attempt.
    pub open spec fn initial() -> RetryState {
        RetryState { attempts_started: 0, finished: None }
    }

    /// The state never starts more attempts than the policy allows.
    pub open spec fn wf(self, p: RetryPolicy) -> bool {
        self.attempts_started <= p.max_attempts
    }

    /// How recording one attempt's event transforms the state.
    pub open spec fn step_spec(self, ev: AttemptEvent) -> RetryState {
        RetryState {
            attempts_started: (self.attempts_started + 1) as u32,
            finished: match ev {
                AttemptEvent::Completed(o) => Some(o),
                AttemptEvent::AuthRejected => Some(Outcome::AuthError),
                AttemptEvent::FatalIo => Some(Outcome::NetworkFailure),
                AttemptEvent::Transient => None,
            },
        }
    }

    /// What the driver must do next: report the terminal outcome once one
    /// is known; start the first attempt without delay; retry after
    /// exponential backoff while attempts remain; and report exhaustion as
    /// a network failure.
    pub open spec fn next_step_spec(self, p: RetryPolicy) -> RetryStep {
        match self.finished {
            Some(o) => RetryStep::Done(o),
            None => if self.attempts_started == 0 {
                RetryStep::Attempt { delay_ms: 0 }
            } else if self.attempts_started < p.max_attempts {
                RetryStep::Attempt {
                    delay_ms: (p.base_delay_ms * pow2((self.attempts_started - 1) as nat)) as u64,
                }
            } else {
                RetryStep::Done(Outcome::NetworkFailure)
            },
        }
    }

    /// The state before any attempt.
    pub fn new() -> (s: RetryState)
        ensures
            s == RetryState::initial(),
    {
        RetryState { attempts_started: 0, finished: None }
    }

    /// Records that an attempt was started and how it ended. Only legal
    /// while the machine asks for another attempt, so the attempt bound
    /// can never be exceeded.
    pub fn record_attempt(&mut self, p: &RetryPolicy, ev: AttemptEvent)
        requires
            p.wf(),
            old(self).wf(*p),
            old(self).next_step_spec(*p) is Attempt,
        ensures
            *final(self) == old(self).step_spec(ev),
            final(self).wf(*p),
    {
        self.attempts_started = self.attempts_started + 1;
        self.finished = match ev {
            AttemptEvent::Completed(o) => Some(o),
            AttemptEvent::AuthRejected => Some(Outcome::AuthError),
            AttemptEvent::FatalIo => Some(Outcome::NetworkFailure),
            AttemptEvent::Transient => None,
        };
    }

    /// Computes what the driver must do next, exactly as `next_step_spec`
    /// states.
    pub fn next_step(&self, p: &RetryPolicy) -> (r: RetryStep)
        requires
            p.wf(),
            self.wf(*p),
        ensures
            r == self.next_step_spec(*p),
    {
        match self.finished {
            Some(o) => RetryStep::Done(o),
            None => {
                if self.attempts_started == 0 {
                    RetryStep::Attempt { delay_ms: 0 }
                } else if self.attempts_started < p.max_attempts {
                    let delay = backoff_delay_ms(p, self.attempts_started);
                    RetryStep::Attempt { delay_ms: delay }
                } else {
                    RetryStep::Done(Outcome::NetworkFailure)
                }
            },
        }
    }
}

/// The exponential backoff delay before the attempt that follows
/// `attempts_started` earlier attempts: `base * 2^(attempts_started - 1)`.
pub fn backoff_delay_ms(p: &RetryPolicy, attempts_started: u32) -> (d: u64)
    requires
        p.wf(),
        1 <= attempts_started < p.max_attempts,
    ensures
        d == p.base_delay_ms * pow2((attempts_started - 1) as nat),
{
    let mut d: u64 = p.base_delay_ms;
    let mut i: u32 = 1;
    proof {
        vstd::arithmetic::power2::lemma2_to64();
        assert(pow2(0) == 1);
        assert(pow2((i - 1) as nat) == 1);
        assert(d == p.base_delay_ms * pow2((i - 1) as nat));
    }
    while i < attempts_started
        invariant
            p.wf(),
            1 <= i <= attempts_started < p.max_attempts,
            d == p.base_delay_ms * pow2((i - 1) as nat),
        decreases attempts_started - i,
    {
        proof {
            lemma_pow2_unfold(i as nat);
            if (i as nat) < (p.max_attempts - 2) as nat {
                lemma_pow2_strictly_increases(i as nat, (p.max_attempts - 2) as nat);
            }
            assert(pow2(i as nat) <= pow2((p.max_attempts - 2) as nat));
            lemma_mul_inequality(
                pow2(i as nat) as int,
                pow2((p.max_attempts - 2) as nat) as int,
                p.base_delay_ms as int,
            );
            assert(p.base_delay_ms * pow2(i as nat) <= p.base_delay_ms * pow2(
                (p.max_attempts - 2) as nat,
            ));
            assert(d * 2 == p.base_delay_ms * pow2(i as nat)) by (nonlinear_arith)
                requires
                    d == p.base_delay_ms * pow2((i - 1) as nat),
                    pow2(i as nat) == 2 * pow2((i - 1) as nat),
            ;
        }
        d = d * 2;
        i = i + 1;
    }
    d
}

/// Law: the machine never starts more attempts than the policy's maximum,
/// in any state it can be in.
pub proof fn lemma_attempts_bounded(s: RetryState, p: RetryPolicy)
    requires
        s.wf(p),
    ensures
        s.attempts_started <= p.max_attempts,
{
}

/// Law: whenever another attempt is permitted, recording it preserves the
/// attempt bound, whatever its event is.
pub proof fn lemma_step_preserves_bound(s: RetryState, p: RetryPolicy, ev: AttemptEvent)
    requires
        p.wf(),
        s.wf(p),
        s.next_step_spec(p) is Attempt,
    ensures
        s.step_spec(ev).wf(p),
{
}

/// Law: the first attempt is immediate, and the delay before attempt `k`,
/// for `k >= 2`, is `base_delay * 2^(k - 2)`.
pub proof fn lemma_backoff_delay(s: RetryState, p: RetryPolicy, k: u32)
    requires
        p.wf(),
        s.finished is None,
        s.attempts_started == k - 1,
        1 <= k <= p.max_attempts,
    ensures
        k == 1 ==> s.next_step_spec(p) == (RetryStep::Attempt { delay_ms: 0 as u64 }),
        k >= 2 ==> s.next_step_spec(p) == (RetryStep::Attempt {
            delay_ms: (p.base_delay_ms * pow2((k - 2) as nat)) as u64,
        }),
{
}

/// Law: an authorization failure on the first attempt short-circuits the
/// loop — exactly one attempt was started, and the machine reports the
/// terminal auth outcome instead of asking for a retry.
pub proof fn lemma_auth_short_circuit(p: RetryPolicy)
    requires
        p.wf(),
    ensures
        ({
            let s = RetryState::initial().step_spec(AttemptEvent::AuthRejected);
            s.attempts_started == 1 && s.next_step_spec(p) == RetryStep::Done(Outcome::AuthError)
        }),
{
}

} // verus!
