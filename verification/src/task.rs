//! The per-item pipeline, as a state machine over plain data: credential
//! check, metadata resolution, skip-if-existing check, then the transfer
//! under the retry machine, ending in exactly one terminal outcome.

use vstd::prelude::*;
use crate::outcome::Outcome;
use crate::metadata::{ResolvedMetadata, ResolveError};
use crate::retry::{RetryPolicy, RetryState, RetryStep, AttemptEvent};

verus! {

/// What checking the destination path found.
pub enum LocalCheck {
    /// No file exists at the destination path.
    Absent,
    /// A file exists; validating it produced this outcome.
    Present(Outcome),
}

/// Where one download item stands in its pipeline.
pub enum TaskPhase {
    /// Waiting for the metadata request's result.
    ResolvingMetadata,
    /// Metadata resolved; waiting for the local-file check.
    CheckingLocal(ResolvedMetadata),
    /// Transferring under the retry machine.
    Transferring(ResolvedMetadata, RetryState),
    /// The item reached its terminal outcome.
    Complete(Outcome),
}

impl TaskPhase {
    /// Starts one item's pipeline: without a credential the item is
    /// terminal at once, as no request could succeed.
    pub fn start(has_credential: bool) -> (p: TaskPhase)
        ensures
            has_credential ==> p == TaskPhase::ResolvingMetadata,
            !has_credential ==> p == TaskPhase::Complete(Outcome::AuthError),
    {
        if has_credential {
            TaskPhase::ResolvingMetadata
        } else {
            TaskPhase::Complete(Outcome::AuthError)
        }
    }

    /// Feeds the metadata request's result in: failure is terminal and
    /// never retried; success moves on to the local-file check.
    pub fn on_metadata(self, result: Result<ResolvedMetadata, ResolveError>) -> (p: TaskPhase)
        requires
            self is ResolvingMetadata,
        ensures
            match result {
                Ok(m) => p == TaskPhase::CheckingLocal(m),
                Err(_) => p == TaskPhase::Complete(Outcome::MetadataFetchFailed),
            },
    {
        match result {
            Ok(m) => TaskPhase::CheckingLocal(m),
            Err(_) => TaskPhase::Complete(Outcome::MetadataFetchFailed),
        }
    }

    /// Feeds the local-file check in: a file that already validates makes
    /// the item a skip, and the transfer is never started; anything else
    /// starts the transfer with a fresh retry state.
    pub fn on_local_check(self, check: LocalCheck) -> (p: TaskPhase)
        requires
            self is CheckingLocal,
        ensures
            (check matches LocalCheck::Present(o) && o.is_success()) ==> p == TaskPhase::Complete(
                Outcome::SkippedExisting,
            ),
            !(check matches LocalCheck::Present(o) && o.is_success()) ==> p
                == TaskPhase::Transferring(self->CheckingLocal_0, RetryState::initial()),
    {
        match self {
            TaskPhase::CheckingLocal(m) => {
                let skip = match check {
                    LocalCheck::Present(o) => matches!(o, Outcome::Verified)
                        || matches!(o, Outcome::VerifiedNoChecksum),
                    LocalCheck::Absent => false,
                };
                if skip {
                    TaskPhase::Complete(Outcome::SkippedExisting)
                } else {
                    TaskPhase::Transferring(m, RetryState::new())
                }
            },
            _ => TaskPhase::Complete(Outcome::UnexpectedFailure),
        }
    }

    /// Feeds one transfer attempt's event in: the retry machine records
    /// it, and the item completes as soon as the machine reports a
    /// terminal outcome.
    pub fn on_attempt(self, policy: &RetryPolicy, ev: AttemptEvent) -> (p: TaskPhase)
        requires
            policy.wf(),
            self is Transferring,
            self->Transferring_1.wf(*policy),
            self->Transferring_1.next_step_spec(*policy) is Attempt,
        ensures
            ({
                let stepped = self->Transferring_1.step_spec(ev);
                match stepped.next_step_spec(*policy) {
                    RetryStep::Done(o) => p == TaskPhase::Complete(o),
                    RetryStep::Attempt { .. } => p == TaskPhase::Transferring(
                        self->Transferring_0,
                        stepped,
                    ),
                }
            }),
    {
        match self {
            TaskPhase::Transferring(m, retry) => {
                let mut retry = retry;
                retry.record_attempt(policy, ev);
                match retry.next_step(policy) {
                    RetryStep::Done(o) => TaskPhase::Complete(o),
                    RetryStep::Attempt { .. } => TaskPhase::Transferring(m, retry),
                }
            },
            _ => TaskPhase::Complete(Outcome::UnexpectedFailure),
        }
    }
}

} // verus!
