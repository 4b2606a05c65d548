//! Tests of validation, the retry machine, the task pipeline, the
//! concurrency controller, collection, and aggregation.

use smartedu_downloader::aggregate::{process_download_results, TaskCompletion};
use smartedu_downloader::collector::{collect_download_items, filter_input_lines, CollectError};
use smartedu_downloader::concurrency::ConcurrencyController;
use smartedu_downloader::metadata::ResolvedMetadata;
use smartedu_downloader::outcome::Outcome;
use smartedu_downloader::retry::{AttemptEvent, RetryPolicy, RetryState, RetryStep};
use smartedu_downloader::task::{LocalCheck, TaskPhase};
use smartedu_downloader::validator::{classify_local_file, validate_local_file};

const ID: &str = "01234567-89ab-cdef-0123-456789abcdef";

fn meta(checksum: Option<&str>, size: Option<u64>) -> ResolvedMetadata {
    ResolvedMetadata {
        download_url: "https://host.example/f.pdf?accessToken=TOK".to_string(),
        filename: "f.pdf".to_string(),
        expected_checksum: checksum.map(|c| c.to_string()),
        expected_size: size,
    }
}

// MD5 of the bytes "abc", in lowercase hex.
const MD5_ABC: &str = "900150983cd24fb0d6963f7d28e17f72";

#[test]
fn missing_file_fails_validation() {
    let r = classify_local_file(false, &None, None, &Some(MD5_ABC.to_string()), Some(3));
    assert_eq!(r, Outcome::SizeMismatch);
}

#[test]
fn matching_checksum_verifies() {
    let content = b"abc".to_vec();
    let r = validate_local_file(&content, &meta(Some(MD5_ABC), None));
    assert_eq!(r, Outcome::Verified);
}

#[test]
fn matching_checksum_verifies_regardless_of_size() {
    // Expected size disagrees with the actual size; the checksum decides.
    let content = b"abc".to_vec();
    let r = validate_local_file(&content, &meta(Some(MD5_ABC), Some(999)));
    assert_eq!(r, Outcome::Verified);
}

#[test]
fn checksum_mismatch_with_matching_size_verifies() {
    let content = b"abc".to_vec();
    let r = validate_local_file(&content, &meta(Some("0000"), Some(3)));
    assert_eq!(r, Outcome::Verified);
}

#[test]
fn checksum_mismatch_without_size_fails() {
    let content = b"abc".to_vec();
    let r = validate_local_file(&content, &meta(Some("0000"), None));
    assert_eq!(r, Outcome::ChecksumMismatch);
}

#[test]
fn size_mismatch_without_checksum_fails() {
    let content = b"abc".to_vec();
    let r = validate_local_file(&content, &meta(None, Some(999)));
    assert_eq!(r, Outcome::SizeMismatch);
}

#[test]
fn no_metadata_accepts_existing_file() {
    let content = b"abc".to_vec();
    let r = validate_local_file(&content, &meta(None, None));
    assert_eq!(r, Outcome::VerifiedNoChecksum);
}

#[test]
fn validation_is_idempotent() {
    let content = b"abc".to_vec();
    let m = meta(Some(MD5_ABC), Some(3));
    let first = validate_local_file(&content, &m);
    let second = validate_local_file(&content, &m);
    assert_eq!(first, second);
}

#[test]
fn retry_backoff_delays_are_exponential() {
    let p = RetryPolicy::standard();
    let mut s = RetryState::new();
    assert_eq!(s.next_step(&p), RetryStep::Attempt { delay_ms: 0 });
    s.record_attempt(&p, AttemptEvent::Transient);
    assert_eq!(s.next_step(&p), RetryStep::Attempt { delay_ms: 500 });
    s.record_attempt(&p, AttemptEvent::Transient);
    assert_eq!(s.next_step(&p), RetryStep::Attempt { delay_ms: 1000 });
    s.record_attempt(&p, AttemptEvent::Transient);
    // Three attempts exhaust the policy's maximum; no fourth is offered.
    assert_eq!(s.attempts_started, 3);
    assert_eq!(s.next_step(&p), RetryStep::Done(Outcome::NetworkFailure));
}

#[test]
fn auth_failure_short_circuits_after_one_attempt() {
    let p = RetryPolicy::standard();
    let mut s = RetryState::new();
    assert_eq!(s.next_step(&p), RetryStep::Attempt { delay_ms: 0 });
    s.record_attempt(&p, AttemptEvent::AuthRejected);
    assert_eq!(s.attempts_started, 1);
    assert_eq!(s.next_step(&p), RetryStep::Done(Outcome::AuthError));
}

#[test]
fn completed_attempt_hands_validation_outcome_through() {
    let p = RetryPolicy::standard();
    let mut s = RetryState::new();
    s.record_attempt(&p, AttemptEvent::Completed(Outcome::ChecksumMismatch));
    assert_eq!(s.next_step(&p), RetryStep::Done(Outcome::ChecksumMismatch));
}

#[test]
fn fatal_io_is_terminal_at_once() {
    let p = RetryPolicy::standard();
    let mut s = RetryState::new();
    s.record_attempt(&p, AttemptEvent::FatalIo);
    assert_eq!(s.attempts_started, 1);
    assert_eq!(s.next_step(&p), RetryStep::Done(Outcome::NetworkFailure));
}

#[test]
fn controller_never_exceeds_limit() {
    let mut c = ConcurrencyController::new(2);
    assert!(c.try_acquire());
    assert!(c.try_acquire());
    assert!(c.active_count() <= c.limit_value());
    assert!(!c.try_acquire());
    assert_eq!(c.active_count(), 2);
    c.release();
    assert!(c.try_acquire());
    assert!(c.active_count() <= c.limit_value());
    c.release();
    c.release();
    assert_eq!(c.active_count(), 0);
}

#[test]
fn duplicate_identifiers_collapse_to_one_item() {
    let url = format!("https://x.example/detail?contentId={}", ID);
    let inputs = vec![ID.to_string(), url.clone()];
    let report = collect_download_items(&inputs).unwrap();
    assert_eq!(report.items.len(), 1);
    assert_eq!(report.items[0].identifier, ID);
    assert_eq!(report.items[0].original_input, ID);
    assert_eq!(report.duplicates, vec![url]);
    assert!(report.invalid.is_empty());
}

#[test]
fn invalid_inputs_are_excluded_but_run_succeeds() {
    let inputs = vec!["garbage".to_string(), ID.to_string()];
    let report = collect_download_items(&inputs).unwrap();
    assert_eq!(report.items.len(), 1);
    assert_eq!(report.invalid, vec!["garbage".to_string()]);
}

#[test]
fn collection_preserves_first_seen_order() {
    let id2 = "fedcba98-7654-3210-fedc-ba9876543210";
    let inputs = vec![id2.to_string(), ID.to_string(), id2.to_string()];
    let report = collect_download_items(&inputs).unwrap();
    let ids: Vec<&str> = report.items.iter().map(|i| i.identifier.as_str()).collect();
    assert_eq!(ids, vec![id2, ID]);
}

#[test]
fn collection_with_no_valid_item_fails() {
    let inputs = vec!["nope".to_string(), "https://x.example/?a=1".to_string()];
    assert_eq!(collect_download_items(&inputs).unwrap_err(), CollectError::NoValidItems);
    let empty: Vec<String> = vec![];
    assert_eq!(collect_download_items(&empty).unwrap_err(), CollectError::NoValidItems);
}

#[test]
fn input_lines_are_trimmed_and_filtered() {
    let lines = vec![
        "  abc  ".to_string(),
        "".to_string(),
        "   ".to_string(),
        "# comment".to_string(),
        "  # indented comment".to_string(),
        "\tline2\t\r".to_string(),
    ];
    let kept = filter_input_lines(&lines);
    assert_eq!(kept, vec!["abc".to_string(), "line2".to_string()]);
}

fn finished(original: &str, filename: &str, outcome: Outcome) -> TaskCompletion {
    TaskCompletion::Finished {
        original_input: original.to_string(),
        filename: filename.to_string(),
        outcome,
    }
}

#[test]
fn summary_accounts_every_item_once() {
    let results = vec![
        finished("a", "a.pdf", Outcome::Verified),
        finished("b", "b.pdf", Outcome::VerifiedNoChecksum),
        finished("c", "c.pdf", Outcome::SkippedExisting),
        finished("d", "d.pdf", Outcome::NetworkFailure),
        finished("e", "e.pdf", Outcome::AuthError),
        TaskCompletion::Crashed { message: "task aborted".to_string() },
    ];
    let s = process_download_results(&results);
    assert_eq!(s.total, 6);
    assert_eq!(s.successful, 2);
    assert_eq!(s.skipped, 1);
    assert_eq!(s.failed, 3);
    assert_eq!(s.successful + s.failed + s.skipped, s.total);
    assert_eq!(s.skipped_files, vec!["c.pdf".to_string()]);
    assert_eq!(
        s.failure_details,
        vec![
            ("d".to_string(), Outcome::NetworkFailure),
            ("e".to_string(), Outcome::AuthError),
            ("task aborted".to_string(), Outcome::UnexpectedFailure),
        ]
    );
}

#[test]
fn summary_of_empty_run_is_empty() {
    let results: Vec<TaskCompletion> = vec![];
    let s = process_download_results(&results);
    assert_eq!(s.total, 0);
    assert_eq!(s.successful + s.failed + s.skipped, 0);
}

#[test]
fn task_without_credential_is_terminal_at_once() {
    let phase = TaskPhase::start(false);
    assert!(matches!(phase, TaskPhase::Complete(Outcome::AuthError)));
}

#[test]
fn task_metadata_failure_is_terminal() {
    let phase = TaskPhase::start(true);
    let phase = phase.on_metadata(Err(
        smartedu_downloader::metadata::ResolveError::NoSourceVariant,
    ));
    assert!(matches!(phase, TaskPhase::Complete(Outcome::MetadataFetchFailed)));
}

#[test]
fn existing_valid_file_skips_transfer() {
    // A destination file that already validates ends the task as a skip;
    // the transfer machinery is never entered.
    let phase = TaskPhase::start(true);
    let phase = phase.on_metadata(Ok(meta(Some(MD5_ABC), Some(3))));
    assert!(matches!(phase, TaskPhase::CheckingLocal(_)));
    let phase = phase.on_local_check(LocalCheck::Present(Outcome::Verified));
    assert!(matches!(phase, TaskPhase::Complete(Outcome::SkippedExisting)));
}

#[test]
fn auth_error_during_transfer_ends_task_after_one_attempt() {
    let p = RetryPolicy::standard();
    let phase = TaskPhase::start(true);
    let phase = phase.on_metadata(Ok(meta(None, None)));
    let phase = phase.on_local_check(LocalCheck::Absent);
    match &phase {
        TaskPhase::Transferring(_, retry) => {
            // The first attempt carries no delay.
            assert_eq!(retry.next_step(&p), RetryStep::Attempt { delay_ms: 0 });
            assert_eq!(retry.attempts_started, 0);
        }
        _ => panic!("expected a transferring phase"),
    }
    let phase = phase.on_attempt(&p, AttemptEvent::AuthRejected);
    assert!(matches!(phase, TaskPhase::Complete(Outcome::AuthError)));
}

#[test]
fn transfer_retries_then_exhausts() {
    let p = RetryPolicy::standard();
    let mut phase = TaskPhase::start(true)
        .on_metadata(Ok(meta(None, None)))
        .on_local_check(LocalCheck::Absent);
    for _ in 0..2 {
        phase = phase.on_attempt(&p, AttemptEvent::Transient);
        assert!(matches!(phase, TaskPhase::Transferring(..)));
    }
    phase = phase.on_attempt(&p, AttemptEvent::Transient);
    assert!(matches!(phase, TaskPhase::Complete(Outcome::NetworkFailure)));
}

#[test]
fn two_inputs_one_identifier_one_download() {
    // End to end over the plain-data pipeline: two raw inputs that resolve
    // to the same identifier yield one item, one duplicate notice, and a
    // summary of one total item.
    let url = format!("https://x.example/detail?contentId={}", ID);
    let inputs = vec![url, ID.to_string()];
    let report = collect_download_items(&inputs).unwrap();
    assert_eq!(report.items.len(), 1);
    assert_eq!(report.duplicates.len(), 1);

    let p = RetryPolicy::standard();
    let mut completions: Vec<TaskCompletion> = Vec::new();
    let mut attempts_made = 0;
    for item in &report.items {
        let phase = TaskPhase::start(true)
            .on_metadata(Ok(meta(None, None)))
            .on_local_check(LocalCheck::Absent);
        attempts_made += 1;
        let phase = phase.on_attempt(&p, AttemptEvent::Completed(Outcome::VerifiedNoChecksum));
        match phase {
            TaskPhase::Complete(outcome) => completions.push(TaskCompletion::Finished {
                original_input: item.original_input.clone(),
                filename: "f.pdf".to_string(),
                outcome,
            }),
            _ => panic!("expected a terminal phase"),
        }
    }
    assert_eq!(attempts_made, 1);
    let s = process_download_results(&completions);
    assert_eq!(s.total, 1);
    assert_eq!(s.successful, 1);
}
