//! Aggregation of per-item terminal outcomes into the run summary:
//! category counts plus ordered detail lists, accounting for every
//! submitted item exactly once.

use vstd::prelude::*;
use crate::outcome::Outcome;

verus! {

/// How one submitted task ended: with a terminal outcome, or with a
/// task-execution failure the runtime surfaced instead of a result.
pub enum TaskCompletion {
    /// The task ran to a terminal outcome.
    Finished {
        /// The raw input the item came from, for reporting.
        original_input: String,
        /// The target filename the item resolved to (empty when it never
        /// got that far).
        filename: String,
        /// The terminal outcome.
        outcome: Outcome,
    },
    /// The task itself failed to run to completion.
    Crashed {
        /// The runtime's description of the failure.
        message: String,
    },
}

impl TaskCompletion {
    /// The outcome a completion counts as: execution failures are folded
    /// into the unexpected-failure outcome.
    pub open spec fn outcome_of(self) -> Outcome {
        match self {
            TaskCompletion::Finished { outcome, .. } => outcome,
            TaskCompletion::Crashed { .. } => Outcome::UnexpectedFailure,
        }
    }

    /// The filename to report for a skipped item.
    pub open spec fn filename_of(self) -> Seq<char> {
        match self {
            TaskCompletion::Finished { filename, .. } => filename@,
            TaskCompletion::Crashed { message, .. } => message@,
        }
    }

    /// The text identifying a failed item: its raw input, or the
    /// runtime's failure description.
    pub open spec fn detail_of(self) -> Seq<char> {
        match self {
            TaskCompletion::Finished { original_input, .. } => original_input@,
            TaskCompletion::Crashed { message, .. } => message@,
        }
    }
}

/// The mathematical shape of a run summary.
#[verifier::ext_equal]
pub ghost struct SummaryModel {
    pub successful: int,
    pub failed: int,
    pub skipped: int,
    pub skipped_files: Seq<Seq<char>>,
    pub failure_details: Seq<(Seq<char>, Outcome)>,
}

/// What aggregating the completions in order comes to.
pub open spec fn summary_spec(results: Seq<TaskCompletion>) -> SummaryModel
    decreases results.len(),
{
    if results.len() == 0 {
        SummaryModel {
            successful: 0,
            failed: 0,
            skipped: 0,
            skipped_files: Seq::empty(),
            failure_details: Seq::empty(),
        }
    } else {
        let prev = summary_spec(results.drop_last());
        let t = results.last();
        let o = t.outcome_of();
        if o.is_success() {
            SummaryModel { successful: prev.successful + 1, ..prev }
        } else if o.is_skipped() {
            SummaryModel {
                skipped: prev.skipped + 1,
                skipped_files: prev.skipped_files.push(t.filename_of()),
                ..prev
            }
        } else {
            SummaryModel {
                failed: prev.failed + 1,
                failure_details: prev.failure_details.push((t.detail_of(), o)),
                ..prev
            }
        }
    }
}

/// Aggregate counts and ordered detail lists for one whole run.
pub struct RunSummary {
    /// Number of submitted items.
    pub total: usize,
    /// Items that ended verified (with or without metadata).
    pub successful: usize,
    /// Items that ended in any failure outcome.
    pub failed: usize,
    /// Items skipped because an existing file already validated.
    pub skipped: usize,
    /// Filenames of skipped items, in completion order.
    pub skipped_files: Vec<String>,
    /// For each failed item, its reported text and its outcome.
    pub failure_details: Vec<(String, Outcome)>,
}

/// The view of the failure-detail list.
pub open spec fn details_view(details: Seq<(String, Outcome)>) -> Seq<(Seq<char>, Outcome)> {
    Seq::new(details.len(), |i: int| (details[i].0@, details[i].1))
}

/// Builds the run summary from the full set of per-item completions:
/// counts successes, failures and skips, and keeps the ordered skip and
/// failure detail lists. Every submitted item is accounted exactly once.
pub fn process_download_results(results: &Vec<TaskCompletion>) -> (s: RunSummary)
    ensures
        s.total == results@.len(),
        s.successful == summary_spec(results@).successful,
        s.failed == summary_spec(results@).failed,
        s.skipped == summary_spec(results@).skipped,
        s.skipped_files.deep_view() == summary_spec(results@).skipped_files,
        details_view(s.failure_details@) == summary_spec(results@).failure_details,
        s.successful + s.failed + s.skipped == s.total,
{
    let ghost all = results@;
    let mut successful: usize = 0;
    let mut failed: usize = 0;
    let mut skipped: usize = 0;
    let mut skipped_files: Vec<String> = Vec::new();
    let mut failure_details: Vec<(String, Outcome)> = Vec::new();
    proof {
        assert(all.take(0) =~= Seq::<TaskCompletion>::empty());
        assert(summary_spec(all.take(0)) =~= SummaryModel {
            successful: 0,
            failed: 0,
            skipped: 0,
            skipped_files: skipped_files.deep_view(),
            failure_details: details_view(failure_details@),
        });
    }
    let n = results.len();
    let mut i: usize = 0;
    while i < n
        invariant
            all == results@,
            n == all.len(),
            i <= n,
            successful + failed + skipped == i,
            summary_spec(all.take(i as int)) == (SummaryModel {
                successful: successful as int,
                failed: failed as int,
                skipped: skipped as int,
                skipped_files: skipped_files.deep_view(),
                failure_details: details_view(failure_details@),
            }),
        decreases n - i,
    {
        proof {
            assert(all.take(i + 1).drop_last() =~= all.take(i as int));
            assert(all.take(i + 1).last() == all[i as int]);
        }
        match &results[i] {
            TaskCompletion::Finished { original_input, filename, outcome } => {
                match outcome {
                    Outcome::Verified | Outcome::VerifiedNoChecksum => {
                        successful += 1;
                    },
                    Outcome::SkippedExisting => {
                        skipped += 1;
                        skipped_files.push(filename.clone());
                    },
                    _ => {
                        failed += 1;
                        failure_details.push((original_input.clone(), *outcome));
                    },
                }
            },
            TaskCompletion::Crashed { message } => {
                failed += 1;
                failure_details.push((message.clone(), Outcome::UnexpectedFailure));
            },
        }
        proof {
            assert(summary_spec(all.take(i + 1)) =~= SummaryModel {
                successful: successful as int,
                failed: failed as int,
                skipped: skipped as int,
                skipped_files: skipped_files.deep_view(),
                failure_details: details_view(failure_details@),
            });
        }
        i += 1;
    }
    proof {
        assert(all.take(n as int) =~= all);
    }
    RunSummary { total: n, successful, failed, skipped, skipped_files, failure_details }
}

/// Law: the three category counts always sum to the number of submitted
/// items, for any mixture of outcomes — every item is accounted exactly
/// once — and the failure list holds only failure outcomes.
pub proof fn lemma_summary_accounts_all(results: Seq<TaskCompletion>)
    ensures
        summary_spec(results).successful + summary_spec(results).failed + summary_spec(
            results,
        ).skipped == results.len(),
        summary_spec(results).skipped == summary_spec(results).skipped_files.len(),
        summary_spec(results).failed == summary_spec(results).failure_details.len(),
        forall|j: int|
            0 <= j < summary_spec(results).failure_details.len() ==> (
            #[trigger] summary_spec(results).failure_details[j]).1.is_failure(),
    decreases results.len(),
{
    if results.len() > 0 {
        lemma_summary_accounts_all(results.drop_last());
    }
}

} // verus!
