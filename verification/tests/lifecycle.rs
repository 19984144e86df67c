use download_manager::record::DownloadKind;
use download_manager::registry::{ExitOutcome, JobRegistry, StartAction, SubmissionError};
use download_manager::state::DownloadState;

fn submit(reg: &mut JobRegistry, url: &str) -> u64 {
    reg.download_url(url, DownloadKind::Video, 100).expect("submission accepted")
}

#[test]
fn submission_starts_queued() {
    let mut reg = JobRegistry::new();
    let id = submit(&mut reg, "https://example.com/v/1");
    assert_eq!(reg.len(), 1);
    let rec = reg.get(0);
    assert_eq!(rec.id, id);
    assert_eq!(rec.source_url, "https://example.com/v/1");
    assert_eq!(rec.submitted_at, 100);
    assert!(matches!(rec.state, DownloadState::Queued));
    assert!(rec.logs.is_empty());
    assert!(!rec.cancel_requested);
}

#[test]
fn empty_url_rejected_without_record() {
    let mut reg = JobRegistry::new();
    let r = reg.download_url("", DownloadKind::Video, 100);
    assert_eq!(r, Err(SubmissionError::EmptyUrl));
    assert_eq!(reg.len(), 0);
}

#[test]
fn distinct_urls_get_distinct_independent_jobs() {
    let mut reg = JobRegistry::new();
    let a = submit(&mut reg, "https://example.com/a");
    let b = submit(&mut reg, "https://example.com/b");
    assert_ne!(a, b);
    assert_eq!(reg.len(), 2);

    assert_eq!(reg.try_start(a, None, 10), StartAction::Spawn);
    assert_eq!(reg.try_start(b, None, 11), StartAction::Spawn);
    reg.finish(a, ExitOutcome::Success { path: "/out/a.mp4".to_string() });
    reg.finish(b, ExitOutcome::Failure);

    let rec_a = reg.get(0);
    let rec_b = reg.get(1);
    assert!(matches!(rec_a.state, DownloadState::Completed { ref path } if path == "/out/a.mp4"));
    assert!(matches!(rec_b.state, DownloadState::Failed { .. }));
}

#[test]
fn spawn_path_and_success() {
    let mut reg = JobRegistry::new();
    let id = submit(&mut reg, "https://example.com/v");
    let action = reg.try_start(id, None, 42);
    assert_eq!(action, StartAction::Spawn);
    assert!(matches!(reg.get(0).state, DownloadState::Downloading { started_at: 42 }));
    reg.append_log(id, "connecting...".to_string());
    reg.finish(id, ExitOutcome::Success { path: "/out/v.mp4".to_string() });
    let rec = reg.get(0);
    assert!(matches!(rec.state, DownloadState::Completed { ref path } if path == "/out/v.mp4"));
    assert_eq!(rec.logs, vec!["connecting...".to_string()]);
}

#[test]
fn nonzero_exit_keeps_full_logs() {
    let mut reg = JobRegistry::new();
    let id = submit(&mut reg, "https://example.com/v");
    assert_eq!(reg.try_start(id, None, 42), StartAction::Spawn);
    reg.append_log(id, "line one".to_string());
    reg.append_log(id, "line two".to_string());
    reg.finish(id, ExitOutcome::Failure);
    let rec = reg.get(0);
    match &rec.state {
        DownloadState::Failed { logs } => {
            assert_eq!(logs, &vec!["line one".to_string(), "line two".to_string()]);
        }
        other => panic!("expected Failed, got {:?}", other),
    }
    assert_eq!(rec.logs, vec!["line one".to_string(), "line two".to_string()]);
}

#[test]
fn dedup_hit_no_spawn_no_logs() {
    let mut reg = JobRegistry::new();
    let id = submit(&mut reg, "https://example.com/v");
    let action = reg.try_start(id, Some("/music/v.mp3".to_string()), 42);
    assert_eq!(action, StartAction::NoSpawn);
    let rec = reg.get(0);
    assert!(
        matches!(rec.state, DownloadState::AlreadyDownloaded { ref path } if path == "/music/v.mp3")
    );
    assert!(rec.logs.is_empty());
}

#[test]
fn inconclusive_dedup_probe_downloads_again() {
    // An ambiguous probe is handed over as "not found": the job must
    // re-download rather than silently skip the work.
    let mut reg = JobRegistry::new();
    let id = submit(&mut reg, "https://example.com/v");
    assert_eq!(reg.try_start(id, None, 5), StartAction::Spawn);
    assert!(matches!(reg.get(0).state, DownloadState::Downloading { .. }));
}

#[test]
fn cancel_before_spawn_yields_canceled() {
    let mut reg = JobRegistry::new();
    let id = submit(&mut reg, "https://example.com/v");
    reg.cancel(id);
    assert!(matches!(reg.get(0).state, DownloadState::Queued));
    let action = reg.try_start(id, None, 42);
    assert_eq!(action, StartAction::NoSpawn);
    assert!(matches!(reg.get(0).state, DownloadState::Canceled));
    assert!(reg.get(0).logs.is_empty());
}

#[test]
fn cancel_wins_race_against_success() {
    let mut reg = JobRegistry::new();
    let id = submit(&mut reg, "https://example.com/v");
    assert_eq!(reg.try_start(id, None, 42), StartAction::Spawn);
    reg.cancel(id);
    reg.finish(id, ExitOutcome::Success { path: "/out/v.mp4".to_string() });
    assert!(matches!(reg.get(0).state, DownloadState::Canceled));
}

#[test]
fn cancel_is_idempotent() {
    let mut reg = JobRegistry::new();
    let id = submit(&mut reg, "https://example.com/v");
    reg.cancel(id);
    reg.cancel(id);
    assert!(reg.get(0).cancel_requested);
    let action = reg.try_start(id, None, 42);
    assert_eq!(action, StartAction::NoSpawn);
    assert!(matches!(reg.get(0).state, DownloadState::Canceled));
}

#[test]
fn cancel_of_terminal_job_is_noop() {
    let mut reg = JobRegistry::new();
    let id = submit(&mut reg, "https://example.com/v");
    assert_eq!(reg.try_start(id, None, 42), StartAction::Spawn);
    reg.finish(id, ExitOutcome::Success { path: "/out/v.mp4".to_string() });
    reg.cancel(id);
    assert!(!reg.get(0).cancel_requested);
    reg.finish(id, ExitOutcome::Failure);
    assert!(matches!(reg.get(0).state, DownloadState::Completed { .. }));
}

#[test]
fn late_signals_after_terminal_are_ignored() {
    let mut reg = JobRegistry::new();
    let id = submit(&mut reg, "https://example.com/v");
    assert_eq!(reg.try_start(id, None, 42), StartAction::Spawn);
    reg.finish(id, ExitOutcome::Failure);
    assert!(matches!(reg.get(0).state, DownloadState::Failed { .. }));
    // Spurious completion, restart and log signals arrive late.
    reg.finish(id, ExitOutcome::Success { path: "/out/v.mp4".to_string() });
    assert!(matches!(reg.get(0).state, DownloadState::Failed { .. }));
    assert_eq!(reg.try_start(id, None, 50), StartAction::NoSpawn);
    assert!(matches!(reg.get(0).state, DownloadState::Failed { .. }));
    reg.append_log(id, "late line".to_string());
    assert_eq!(reg.get(0).logs, vec![] as Vec<String>);
}

#[test]
fn spawn_failure_reported_as_failed_with_synthetic_line() {
    let mut reg = JobRegistry::new();
    let id = submit(&mut reg, "https://example.com/v");
    assert_eq!(reg.try_start(id, None, 42), StartAction::Spawn);
    // The worker could not start the executable: one synthetic line,
    // then the failure report.
    reg.append_log(id, "failed to spawn downloader: not found".to_string());
    reg.finish(id, ExitOutcome::Failure);
    match &reg.get(0).state {
        DownloadState::Failed { logs } => {
            assert_eq!(logs, &vec!["failed to spawn downloader: not found".to_string()]);
        }
        other => panic!("expected Failed, got {:?}", other),
    }
}

#[test]
fn operations_on_unknown_ids_change_nothing() {
    let mut reg = JobRegistry::new();
    let id = submit(&mut reg, "https://example.com/v");
    reg.cancel(id + 1);
    assert_eq!(reg.try_start(id + 1, None, 42), StartAction::NoSpawn);
    reg.append_log(id + 1, "x".to_string());
    reg.finish(id + 1, ExitOutcome::Failure);
    assert!(!reg.is_cancel_requested(id + 1));
    let rec = reg.get(0);
    assert!(matches!(rec.state, DownloadState::Queued));
    assert!(rec.logs.is_empty());
    assert!(!rec.cancel_requested);
}

#[test]
fn snapshot_keeps_submission_order() {
    let mut reg = JobRegistry::new();
    let mut ids = Vec::new();
    for k in 0..5u32 {
        ids.push(submit(&mut reg, &format!("https://example.com/{}", k)));
    }
    assert_eq!(reg.len(), 5);
    for (i, id) in ids.iter().enumerate() {
        assert_eq!(reg.get(i).id, *id);
    }
}
