use oj_api::job::{CrawlerJob, EmbeddingJob, SupervisedJob, MAX_OUTPUT_BYTES};
use oj_api::slot::{CancelOutcome, JobSlot, HISTORY_CAPACITY};
use oj_api::status::{CrawlerStatus, CrawlerTrigger, WaitOutcome};

fn crawler_job(id: &str) -> CrawlerJob {
    CrawlerJob::start(
        id.to_string(),
        "leetcode".to_string(),
        vec!["--daily".to_string()],
        CrawlerTrigger::Admin,
        "2024-01-15T10:00:00+00:00".to_string(),
    )
}

fn exited(success: bool, stdout: &[u8], stderr: &[u8]) -> WaitOutcome {
    WaitOutcome::Exited { success, stdout: stdout.to_vec(), stderr: stderr.to_vec() }
}

#[test]
fn new_slot_is_empty() {
    let slot: JobSlot<CrawlerJob> = JobSlot::new();
    assert!(!slot.is_running());
    assert!(slot.current().is_none());
    assert_eq!(slot.active_pid(), None);
    assert_eq!(slot.history_len(), 0);
    let report = slot.status_report();
    assert!(!report.running);
    assert!(report.job.is_none());
    assert!(report.history.is_empty());
}

#[test]
fn second_claim_is_refused_while_first_runs() {
    let mut slot = JobSlot::new();
    assert!(slot.claim(crawler_job("u1")));
    assert!(slot.is_running());
    assert!(!slot.claim(crawler_job("u2")));
    let current = slot.current().unwrap();
    assert_eq!(current.job_id, "u1");
    assert_eq!(current.status, CrawlerStatus::Running);
    assert_eq!(current.finished_at, None);
}

#[test]
fn completed_job_is_last_job_and_first_in_history() {
    let mut slot = JobSlot::new();
    assert!(slot.claim(crawler_job("u1")));
    slot.record_pid(4321);
    assert_eq!(slot.active_pid(), Some(4321));
    let effect = slot.finish(&exited(true, b"done\n", b""), "2024-01-15T10:00:05+00:00".to_string());
    assert!(effect.applied);
    assert!(effect.write_logs);
    assert!(!effect.kill_group);
    assert_eq!(slot.active_pid(), None);
    let report = slot.status_report();
    assert!(!report.running);
    let last = report.job.unwrap();
    assert_eq!(last.job_id, "u1");
    assert_eq!(last.status, CrawlerStatus::Completed);
    assert_eq!(last.finished_at.as_deref(), Some("2024-01-15T10:00:05+00:00"));
    assert_eq!(last.stdout, None);
    assert_eq!(report.history.len(), 1);
    assert_eq!(report.history[0].job_id, "u1");
    assert_eq!(report.history[0].stdout, None);
    let kept = slot.current().unwrap();
    assert_eq!(kept.stdout.as_deref(), Some("done\n"));
    assert_eq!(kept.stderr, None);
}

#[test]
fn exit_with_error_is_failed() {
    let mut slot = JobSlot::new();
    slot.claim(crawler_job("u1"));
    let effect = slot.finish(&exited(false, b"", b"boom"), "t1".to_string());
    assert!(effect.applied && effect.write_logs && !effect.kill_group);
    let job = slot.current().unwrap();
    assert_eq!(job.status, CrawlerStatus::Failed);
    assert_eq!(job.stdout, None);
    assert_eq!(job.stderr.as_deref(), Some("boom"));
}

#[test]
fn failed_wait_is_failed_without_output() {
    let mut slot = JobSlot::new();
    slot.claim(crawler_job("u1"));
    let effect = slot.finish(&WaitOutcome::WaitFailed, "t1".to_string());
    assert!(effect.applied && !effect.write_logs && !effect.kill_group);
    let job = slot.current().unwrap();
    assert_eq!(job.status, CrawlerStatus::Failed);
    assert_eq!(job.finished_at.as_deref(), Some("t1"));
    assert_eq!(job.stdout, None);
}

#[test]
fn timeout_asks_for_group_kill() {
    let mut slot = JobSlot::new();
    slot.claim(crawler_job("u1"));
    slot.record_pid(77);
    let effect = slot.finish(&WaitOutcome::TimedOut, "t1".to_string());
    assert!(effect.applied);
    assert!(effect.kill_group);
    assert!(!effect.write_logs);
    assert_eq!(slot.current().unwrap().status, CrawlerStatus::TimedOut);
    assert_eq!(slot.history_len(), 1);
}

#[test]
fn cancel_takes_pid_and_marks_cancelled() {
    let mut slot = JobSlot::new();
    slot.claim(crawler_job("u1"));
    slot.record_pid(900);
    let outcome = slot.cancel("cancel-time".to_string());
    assert_eq!(outcome, CancelOutcome::Cancelled { kill: Some(900) });
    assert_eq!(slot.active_pid(), None);
    assert!(!slot.is_running());
    let job = slot.current().unwrap();
    assert_eq!(job.status, CrawlerStatus::Cancelled);
    assert_eq!(job.finished_at.as_deref(), Some("cancel-time"));
    assert_eq!(slot.history_len(), 0);
}

#[test]
fn cancel_before_spawn_has_no_pid() {
    let mut slot = JobSlot::new();
    slot.claim(crawler_job("u1"));
    assert_eq!(slot.cancel("t".to_string()), CancelOutcome::Cancelled { kill: None });
}

#[test]
fn cancel_without_running_job_changes_nothing() {
    let mut slot: JobSlot<CrawlerJob> = JobSlot::new();
    assert_eq!(slot.cancel("t".to_string()), CancelOutcome::NothingRunning);
    slot.claim(crawler_job("u1"));
    slot.finish(&exited(true, b"", b""), "end".to_string());
    assert_eq!(slot.cancel("later".to_string()), CancelOutcome::NothingRunning);
    let job = slot.current().unwrap();
    assert_eq!(job.status, CrawlerStatus::Completed);
    assert_eq!(job.finished_at.as_deref(), Some("end"));
}

#[test]
fn waiter_does_not_overwrite_cancelled_job() {
    let mut slot = JobSlot::new();
    slot.claim(crawler_job("u1"));
    slot.record_pid(900);
    slot.cancel("cancel-time".to_string());
    let effect = slot.finish(&exited(false, b"partial", b"killed"), "wait-end".to_string());
    assert!(!effect.applied);
    assert!(!effect.kill_group);
    assert!(!effect.write_logs);
    let job = slot.current().unwrap();
    assert_eq!(job.status, CrawlerStatus::Cancelled);
    assert_eq!(job.finished_at.as_deref(), Some("cancel-time"));
    assert_eq!(job.stdout, None);
    let report = slot.status_report();
    assert_eq!(report.history.len(), 1);
    assert_eq!(report.history[0].status, CrawlerStatus::Cancelled);
    assert_eq!(report.history[0].finished_at.as_deref(), Some("cancel-time"));
}

#[test]
fn timeout_after_cancel_kills_nothing() {
    let mut slot = JobSlot::new();
    slot.claim(crawler_job("u1"));
    slot.cancel("c".to_string());
    let effect = slot.finish(&WaitOutcome::TimedOut, "w".to_string());
    assert!(!effect.applied && !effect.kill_group);
    assert_eq!(slot.current().unwrap().status, CrawlerStatus::Cancelled);
}

#[test]
fn spawn_failure_fails_and_archives() {
    let mut slot = JobSlot::new();
    slot.claim(crawler_job("u1"));
    slot.spawn_failed("t-fail".to_string());
    assert!(!slot.is_running());
    let job = slot.current().unwrap();
    assert_eq!(job.status, CrawlerStatus::Failed);
    assert_eq!(job.finished_at.as_deref(), Some("t-fail"));
    assert_eq!(slot.history_len(), 1);
    assert!(slot.claim(crawler_job("u2")));
}

#[test]
fn spawn_failure_on_empty_slot_changes_nothing() {
    let mut slot: JobSlot<CrawlerJob> = JobSlot::new();
    slot.spawn_failed("t".to_string());
    assert!(slot.current().is_none());
    assert_eq!(slot.history_len(), 0);
}

#[test]
fn finish_on_empty_slot_only_clears_pid() {
    let mut slot: JobSlot<CrawlerJob> = JobSlot::new();
    slot.record_pid(5);
    let effect = slot.finish(&WaitOutcome::TimedOut, "t".to_string());
    assert!(!effect.applied);
    assert_eq!(slot.active_pid(), None);
    assert_eq!(slot.history_len(), 0);
}

#[test]
fn history_keeps_the_last_fifty_newest_first() {
    let mut slot = JobSlot::new();
    for i in 0..60 {
        assert!(slot.claim(crawler_job(&format!("job-{}", i))));
        slot.finish(&exited(true, b"", b""), format!("end-{}", i));
        assert!(slot.history_len() <= HISTORY_CAPACITY);
    }
    assert_eq!(HISTORY_CAPACITY, 50);
    assert_eq!(slot.history_len(), 50);
    let report = slot.status_report();
    assert_eq!(report.history.len(), 50);
    assert_eq!(report.history[0].job_id, "job-59");
    assert_eq!(report.history[49].job_id, "job-10");
    for k in 0..50 {
        assert_eq!(report.history[k].job_id, format!("job-{}", 59 - k));
    }
    assert!(slot.find_output("job-9").is_none());
    assert!(slot.find_output("job-10").is_some());
}

#[test]
fn never_more_than_one_running_job() {
    let mut slot = JobSlot::new();
    for i in 0..5 {
        slot.claim(crawler_job(&format!("a-{}", i)));
        slot.claim(crawler_job(&format!("b-{}", i)));
        let report = slot.status_report();
        let running_now = if report.running { 1 } else { 0 };
        let running_before =
            report.history.iter().filter(|j| j.status == CrawlerStatus::Running).count();
        assert_eq!(running_now + running_before, 1);
        if i % 2 == 0 {
            slot.cancel(format!("c-{}", i));
        }
        slot.finish(&WaitOutcome::WaitFailed, format!("e-{}", i));
        let report = slot.status_report();
        assert!(!report.running);
        assert_eq!(report.history.iter().filter(|j| j.status == CrawlerStatus::Running).count(), 0);
    }
}

#[test]
fn output_is_found_by_job_id() {
    let mut slot = JobSlot::new();
    slot.claim(crawler_job("u1"));
    slot.finish(&exited(true, b"out-1", b"err-1"), "e1".to_string());
    slot.claim(crawler_job("u2"));
    slot.finish(&exited(true, b"out-2", b""), "e2".to_string());
    let (stdout, stderr) = slot.find_output("u1").unwrap();
    assert_eq!(stdout.as_deref(), Some("out-1"));
    assert_eq!(stderr.as_deref(), Some("err-1"));
    let (stdout, stderr) = slot.find_output("u2").unwrap();
    assert_eq!(stdout.as_deref(), Some("out-2"));
    assert_eq!(stderr, None);
    assert!(slot.find_output("u3").is_none());
}

#[test]
fn output_keeps_the_last_bytes_only() {
    let mut long = vec![b'a'; 10];
    long.extend(std::iter::repeat(b'b').take(MAX_OUTPUT_BYTES));
    let mut job = crawler_job("u1");
    job.set_output(long, vec![b'x'; MAX_OUTPUT_BYTES]);
    let stdout = job.stdout.unwrap();
    assert_eq!(MAX_OUTPUT_BYTES, 65536);
    assert_eq!(stdout.len(), 65536);
    assert!(stdout.bytes().all(|b| b == b'b'));
    assert_eq!(job.stderr.unwrap().len(), 65536);
}

#[test]
fn output_of_empty_streams_is_absent() {
    let mut job = crawler_job("u1");
    job.set_output(vec![b'x'], Vec::new());
    assert_eq!(job.stdout.as_deref(), Some("x"));
    assert_eq!(job.stderr, None);
    job.set_output(Vec::new(), vec![b'y']);
    assert_eq!(job.stdout, None);
    assert_eq!(job.stderr.as_deref(), Some("y"));
}

#[test]
fn output_replaces_malformed_bytes() {
    let mut job = crawler_job("u1");
    job.set_output(vec![b'o', b'k', 0xFF, b'!'], "h\u{e9}".as_bytes().to_vec());
    assert_eq!(job.stdout.as_deref(), Some("ok\u{FFFD}!"));
    assert_eq!(job.stderr.as_deref(), Some("h\u{e9}"));
}

#[test]
fn embedding_job_behaves_like_crawler_job() {
    let mut slot: JobSlot<EmbeddingJob> = JobSlot::new();
    let job = EmbeddingJob::start(
        "e1".to_string(),
        "all".to_string(),
        vec!["--source".to_string(), "all".to_string()],
        "t0".to_string(),
    );
    assert_eq!(job.status(), CrawlerStatus::Running);
    assert!(job.has_id("e1"));
    assert!(!job.has_id("e2"));
    assert!(slot.claim(job));
    slot.record_pid(10);
    assert_eq!(slot.cancel("tc".to_string()), CancelOutcome::Cancelled { kill: Some(10) });
    slot.finish(&WaitOutcome::TimedOut, "tw".to_string());
    let report = slot.status_report();
    assert_eq!(report.history.len(), 1);
    assert_eq!(report.history[0].status, CrawlerStatus::Cancelled);
    assert_eq!(report.history[0].args, vec!["--source".to_string(), "all".to_string()]);
}

#[test]
fn status_names_are_the_reported_tags() {
    assert_eq!(CrawlerStatus::Running.as_str(), "running");
    assert_eq!(CrawlerStatus::Completed.as_str(), "completed");
    assert_eq!(CrawlerStatus::Failed.as_str(), "failed");
    assert_eq!(CrawlerStatus::TimedOut.as_str(), "timed_out");
    assert_eq!(CrawlerStatus::Cancelled.to_text(), "cancelled");
    assert_eq!(CrawlerTrigger::Admin.as_str(), "admin");
    assert_eq!(CrawlerTrigger::DailyFallback.to_text(), "daily_fallback");
    assert!(CrawlerStatus::Running.is_running());
    assert!(!CrawlerStatus::Cancelled.is_running());
}

#[test]
fn final_phase_follows_the_terminal_state() {
    assert_eq!(CrawlerStatus::Completed.final_phase(), "completed");
    assert_eq!(CrawlerStatus::Cancelled.final_phase(), "cancelled");
    assert_eq!(CrawlerStatus::TimedOut.final_phase(), "timed_out");
    assert_eq!(CrawlerStatus::Failed.final_phase(), "failed");
    assert_eq!(CrawlerStatus::Running.final_phase(), "failed");
}

#[test]
fn wait_outcome_maps_to_terminal_state() {
    assert_eq!(exited(true, b"", b"").terminal_status(), CrawlerStatus::Completed);
    assert_eq!(exited(false, b"", b"").terminal_status(), CrawlerStatus::Failed);
    assert_eq!(WaitOutcome::WaitFailed.terminal_status(), CrawlerStatus::Failed);
    assert_eq!(WaitOutcome::TimedOut.terminal_status(), CrawlerStatus::TimedOut);
}

#[test]
fn report_names_the_job_by_its_state() {
    let mut slot = JobSlot::new();
    assert_eq!(slot.status_report().job_key(), "last_job");
    slot.claim(crawler_job("u1"));
    assert_eq!(slot.status_report().job_key(), "current_job");
    slot.finish(&WaitOutcome::WaitFailed, "t".to_string());
    assert_eq!(slot.status_report().job_key(), "last_job");
}
