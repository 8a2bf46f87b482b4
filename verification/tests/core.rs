use allscreenshots_cli::batch::{
    classify_item, is_terminal_aggregate, item_failure_message, reconcile_items, validate_batch,
    BatchOrchestrator, BulkItem, ItemPlan,
};
use allscreenshots_cli::error::CliError;
use allscreenshots_cli::job::{result_available, JobSnapshot, JobStatus};
use allscreenshots_cli::materialize::{capture_note, materialize_verdict, write_error};
use allscreenshots_cli::poller::{drive_poller, JobStatusPoller, PollAction};
use allscreenshots_cli::watch::{parse_duration, run_watch, WatchSession};

fn snapshot(status: JobStatus) -> JobSnapshot {
    JobSnapshot {
        id: "job-1".to_string(),
        status,
        url: None,
        result_url: None,
        error_code: None,
        error_message: None,
        created_at: None,
        started_at: None,
        completed_at: None,
        expires_at: None,
    }
}

#[test]
fn poller_stops_at_first_terminal() {
    let snapshots = vec![
        snapshot(JobStatus::Queued),
        snapshot(JobStatus::Processing),
        snapshot(JobStatus::Completed),
        snapshot(JobStatus::Queued),
    ];
    let run = drive_poller(&snapshots).unwrap();
    assert_eq!(run.polls, 3);
    assert!(matches!(run.outcome, PollAction::Download));
}

#[test]
fn poller_emits_failure_with_remote_message() {
    let mut failed = snapshot(JobStatus::Failed);
    failed.error_message = Some("render crashed".to_string());
    let run = drive_poller(&vec![failed]).unwrap();
    assert_eq!(run.polls, 1);
    match run.outcome {
        PollAction::ReportFailure(CliError::Other(m)) => {
            assert_eq!(m, "Screenshot job failed: render crashed");
        }
        other => panic!("unexpected outcome: {:?}", other),
    }
}

#[test]
fn poller_emits_failure_placeholder_without_message() {
    let run = drive_poller(&vec![snapshot(JobStatus::Failed)]).unwrap();
    match run.outcome {
        PollAction::ReportFailure(CliError::Other(m)) => {
            assert_eq!(m, "Screenshot job failed: Unknown error");
        }
        other => panic!("unexpected outcome: {:?}", other),
    }
}

#[test]
fn poller_reports_cancellation() {
    let run = drive_poller(&vec![snapshot(JobStatus::Queued), snapshot(JobStatus::Cancelled)])
        .unwrap();
    assert_eq!(run.polls, 2);
    match run.outcome {
        PollAction::ReportCancelled(CliError::Other(m)) => {
            assert_eq!(m, "Screenshot job was cancelled");
        }
        other => panic!("unexpected outcome: {:?}", other),
    }
}

#[test]
fn poller_without_terminal_state_never_finishes() {
    let snapshots = vec![snapshot(JobStatus::Queued), snapshot(JobStatus::Processing)];
    assert!(drive_poller(&snapshots).is_none());
}

#[test]
fn poller_observe_counts_polls() {
    let mut poller = JobStatusPoller::new();
    assert!(matches!(poller.observe(&snapshot(JobStatus::Queued)), PollAction::Wait));
    assert!(!poller.finished);
    assert!(matches!(poller.observe(&snapshot(JobStatus::Completed)), PollAction::Download));
    assert!(poller.finished);
    assert_eq!(poller.polls, 2);
}

#[test]
fn batch_rejects_empty_input() {
    let urls: Vec<String> = vec![];
    match validate_batch(&urls) {
        Err(CliError::Other(m)) => {
            assert_eq!(m, "No URLs provided. Use positional arguments or --file");
        }
        other => panic!("unexpected: {:?}", other),
    }
}

#[test]
fn batch_rejects_more_than_hundred_before_any_remote_call() {
    let urls: Vec<String> = (0..101).map(|i| format!("https://site{}.com", i)).collect();
    match validate_batch(&urls) {
        Err(CliError::Other(m)) => {
            assert_eq!(m, "Too many URLs (101). Maximum is 100 per batch.");
        }
        other => panic!("unexpected: {:?}", other),
    }
}

#[test]
fn batch_accepts_exactly_hundred() {
    let urls: Vec<String> = (0..100).map(|i| format!("https://site{}.com", i)).collect();
    assert!(validate_batch(&urls).is_ok());
}

fn bulk_item(status: &str, with_result: bool, error: Option<&str>) -> BulkItem {
    BulkItem {
        id: "sub".to_string(),
        url: "https://example.com".to_string(),
        status: status.to_string(),
        result_url: if with_result {
            Some("https://api.example/result".to_string())
        } else {
            None
        },
        error_message: error.map(|e| e.to_string()),
    }
}

#[test]
fn partial_batch_counts_two_of_five() {
    let items = vec![
        bulk_item("COMPLETED", true, None),
        bulk_item("FAILED", false, Some("timeout")),
        bulk_item("COMPLETED", true, None),
        bulk_item("FAILED", false, None),
        bulk_item("COMPLETED", false, None),
    ];
    let ok = vec![true; 5];
    let report = reconcile_items(&items, &ok);
    assert_eq!(report.succeeded, 2);
    assert_eq!(report.failed, 3);
    assert_eq!(report.written, vec![0, 2]);
    assert_eq!(report.succeeded + report.failed, items.len());
}

#[test]
fn batch_counts_always_cover_every_item() {
    let items = vec![
        bulk_item("COMPLETED", true, None),
        bulk_item("COMPLETED", true, None),
        bulk_item("COMPLETED", true, None),
    ];
    let ok = vec![true, false, true];
    let report = reconcile_items(&items, &ok);
    assert_eq!(report.succeeded, 2);
    assert_eq!(report.failed, 1);
    assert_eq!(report.written, vec![0, 2]);
}

#[test]
fn batch_with_no_success_is_overall_failure() {
    let mut orch = BatchOrchestrator::new(3);
    orch.record_failure();
    orch.record_failure();
    orch.record_failure();
    match orch.verdict() {
        Err(CliError::Other(m)) => assert_eq!(m, "All screenshots failed"),
        other => panic!("unexpected: {:?}", other),
    }
}

#[test]
fn batch_with_one_success_is_overall_success() {
    let mut orch = BatchOrchestrator::new(3);
    orch.record_success();
    orch.record_failure();
    orch.record_failure();
    assert!(orch.verdict().is_ok());
}

#[test]
fn aggregate_status_matching_is_exact_and_case_sensitive() {
    assert!(is_terminal_aggregate("COMPLETED"));
    assert!(is_terminal_aggregate("FAILED"));
    assert!(is_terminal_aggregate("PARTIAL"));
    assert!(!is_terminal_aggregate("completed"));
    assert!(!is_terminal_aggregate("RUNNING"));
    assert!(!is_terminal_aggregate(""));
}

#[test]
fn item_classification_follows_status_and_result() {
    assert_eq!(classify_item(&bulk_item("COMPLETED", true, None)), ItemPlan::Download);
    assert_eq!(classify_item(&bulk_item("COMPLETED", false, None)), ItemPlan::FailureNoResult);
    assert_eq!(classify_item(&bulk_item("FAILED", true, None)), ItemPlan::FailureRemote);
}

#[test]
fn item_failure_wording() {
    let msg = item_failure_message(&bulk_item("COMPLETED", false, None));
    assert_eq!(msg, "No result URL for https://example.com");
    let msg = item_failure_message(&bulk_item("FAILED", false, Some("boom")));
    assert_eq!(msg, "https://example.com - boom");
    let msg = item_failure_message(&bulk_item("FAILED", false, None));
    assert_eq!(msg, "https://example.com - Unknown error");
}

fn fresh_session(max_captures: u32) -> WatchSession {
    WatchSession::new(
        "https://example.com".to_string(),
        None,
        "png".to_string(),
        false,
        5000,
        max_captures,
    )
}

#[test]
fn watch_stops_after_three_attempts_even_when_all_fail() {
    let mut session = fresh_session(3);
    let outcomes = vec![false, false, false, false, false];
    assert_eq!(run_watch(&mut session, &outcomes), 3);
    assert_eq!(session.count, 3);
}

#[test]
fn watch_unbounded_runs_until_interrupted() {
    let mut session = fresh_session(0);
    let outcomes = vec![true; 7];
    assert_eq!(run_watch(&mut session, &outcomes), 7);
    let mut longer = fresh_session(0);
    let more = vec![false; 23];
    assert_eq!(run_watch(&mut longer, &more), 23);
}

#[test]
fn watch_limit_beyond_supply_consumes_all() {
    let mut session = fresh_session(10);
    let outcomes = vec![true, false];
    assert_eq!(run_watch(&mut session, &outcomes), 2);
}

#[test]
fn watch_interval_parses_common_forms() {
    assert_eq!(parse_duration("5s").unwrap(), 5000);
    assert_eq!(parse_duration("30s").unwrap(), 30000);
    assert_eq!(parse_duration("1m").unwrap(), 60000);
    match parse_duration("soon") {
        Err(CliError::Other(m)) => {
            assert_eq!(m, "Invalid duration 'soon'. Examples: 5s, 30s, 1m, 5m");
        }
        other => panic!("unexpected: {:?}", other),
    }
}

#[test]
fn display_failure_after_save_keeps_success() {
    let failure = Some(CliError::DisplayError("no terminal graphics".to_string()));
    assert!(materialize_verdict(Ok(()), &failure).is_ok());
    assert!(materialize_verdict(Ok(()), &None).is_ok());
}

#[test]
fn save_failure_decides_the_outcome() {
    let save: Result<(), CliError> = Err(write_error("shots/a.png", "disk full"));
    match materialize_verdict(save, &None) {
        Err(CliError::FileWriteError(m)) => assert_eq!(m, "shots/a.png: disk full"),
        other => panic!("unexpected: {:?}", other),
    }
}

#[test]
fn capture_note_wording() {
    assert_eq!(capture_note(Some((800, 600)), 1024), "(800x600, 1.00 KB)");
    assert_eq!(capture_note(None, 500), "(500 bytes)");
}

#[test]
fn result_download_needs_completion() {
    assert!(result_available(JobStatus::Completed).is_ok());
    match result_available(JobStatus::Processing) {
        Err(CliError::Other(m)) => {
            assert_eq!(m, "Job is not completed. Current status: Processing");
        }
        other => panic!("unexpected: {:?}", other),
    }
}

fn bulk_snapshot(status: &str) -> allscreenshots_cli::batch::BulkJobSnapshot {
    allscreenshots_cli::batch::BulkJobSnapshot {
        id: "bulk-1".to_string(),
        status: status.to_string(),
        total_jobs: 5,
        completed_jobs: 0,
        failed_jobs: 0,
        jobs: None,
    }
}

#[test]
fn bulk_poll_stops_at_first_terminal_aggregate() {
    let snapshots = vec![
        bulk_snapshot("PENDING"),
        bulk_snapshot("IN_PROGRESS"),
        bulk_snapshot("PARTIAL"),
        bulk_snapshot("COMPLETED"),
    ];
    assert_eq!(allscreenshots_cli::batch::drive_bulk_poll(&snapshots), Some(2));
}

#[test]
fn bulk_poll_treats_unknown_statuses_as_still_running() {
    let snapshots = vec![bulk_snapshot("PENDING"), bulk_snapshot("ALMOST_DONE")];
    assert_eq!(allscreenshots_cli::batch::drive_bulk_poll(&snapshots), None);
}

#[test]
fn digit_heavy_intervals_are_rejected_without_parsing() {
    // A span total that would carry past the parser's second range must
    // come back as an invalid duration, not abort.
    match parse_duration("18446744073709551615s1000ms") {
        Err(CliError::Other(m)) => {
            assert_eq!(
                m,
                "Invalid duration '18446744073709551615s1000ms'. Examples: 5s, 30s, 1m, 5m"
            );
        }
        other => panic!("unexpected: {:?}", other),
    }
    assert!(parse_duration("999999999999s").is_err());
}

#[test]
fn long_intervals_with_few_digits_still_parse() {
    assert_eq!(parse_duration("10 minutes 30 seconds").unwrap(), 630_000);
    assert_eq!(parse_duration("1h 30m 45s 500ms").unwrap(), 5_445_500);
    assert_eq!(parse_duration("300s").unwrap(), 300_000);
    assert_eq!(parse_duration("99999999999s").unwrap(), 99_999_999_999_000);
}
