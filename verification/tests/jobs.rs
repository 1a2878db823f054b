use alms_runs::ids::job_context_id;
use alms_runs::job_episode::{JobEpisodeTracker, RunCompletion};
use alms_runs::jobs::{
    abandon_episode_continuation, arm_retry, close_episode, dispatch_job_run,
    dispatch_retry_delay_secs, finish_episode_run, fire_job_run, is_live, retry_dispatch,
    DispatchEffect, DispatchFailureOutcome, DispatchPhase, Firing, JobState,
};
use alms_runs::rearm::{
    begin_close, record_and_rearm, JobStatus, RearmEffect, RecordOutcome, Schedule, TerminalReason,
};
use alms_runs::tool_calls::{ToolCallRecord, ToolCallRole};
use uuid::Uuid;

const LIVE: Option<JobState> = Some(JobState {
    terminal: false,
    retry_count: 0,
});

#[test]
fn a_failed_dispatch_waits_longer_each_time() {
    assert_eq!(dispatch_retry_delay_secs(0), 5);
    assert_eq!(dispatch_retry_delay_secs(1), 10);
    assert_eq!(dispatch_retry_delay_secs(6), 320);
    assert_eq!(dispatch_retry_delay_secs(u32::MAX), 320);
    assert_eq!(
        retry_dispatch(Some(JobState {
            terminal: false,
            retry_count: 2
        })),
        Some(20)
    );
    assert_eq!(
        retry_dispatch(Some(JobState {
            terminal: true,
            retry_count: 2
        })),
        None
    );
    assert_eq!(retry_dispatch(None), None);
    assert!(is_live(LIVE));
    assert!(!is_live(None));
}

#[test]
fn a_retry_is_armed_only_when_it_was_recorded() {
    assert_eq!(
        arm_retry(Some(DispatchFailureOutcome::RetryScheduled), 10),
        Some(10)
    );
    for other in [
        Some(DispatchFailureOutcome::Exhausted),
        Some(DispatchFailureOutcome::RefusedTerminal),
        Some(DispatchFailureOutcome::NotFound),
        None,
    ] {
        assert_eq!(arm_retry(other, 10), None);
    }
}

#[test]
fn a_firing_never_overlaps_with_its_own_episode() {
    let mut t = JobEpisodeTracker::new(1_000);
    assert_eq!(fire_job_run(&mut t, 1, None), Firing::Skipped);
    assert_eq!(
        fire_job_run(&mut t, 1, LIVE),
        Firing::Start(job_context_id(1))
    );
    t.open(1, 2, 3, 4, 0, 0);
    assert_eq!(fire_job_run(&mut t, 1, LIVE), Firing::Absorbed);
    assert!(t.snapshot(1, 0).unwrap().catch_up_queued);
}

#[test]
fn the_episode_opens_before_the_first_turn() {
    let (phase, effects) = dispatch_job_run(DispatchPhase::Rechecking, Ok(()));
    assert_eq!(phase, DispatchPhase::Inserting);
    assert!(effects.is_empty());
    let (phase, effects) = dispatch_job_run(phase, Ok(()));
    assert_eq!(phase, DispatchPhase::Dispatched);
    assert_eq!(
        effects,
        vec![
            DispatchEffect::ReleaseGate,
            DispatchEffect::PublishCreated { queued_behind: 0 },
            DispatchEffect::OpenEpisode,
            DispatchEffect::RegisterToken,
            DispatchEffect::Execute,
        ]
    );
    let (phase, effects) = dispatch_job_run(DispatchPhase::Inserting, Err("disk".to_string()));
    assert_eq!(phase, DispatchPhase::Failed("disk".to_string()));
    assert_eq!(effects, vec![DispatchEffect::ReleaseGate]);
}

#[test]
fn the_end_of_a_run_is_reported_with_what_it_started() {
    let mut t = JobEpisodeTracker::new(1_000);
    t.open(1, 2, 3, 4, 0, 0);
    let dm = Uuid::new_v4();
    let records = vec![ToolCallRecord {
        seq: 0,
        role: ToolCallRole::Tool,
        tool_name: Some("send_message".to_string()),
        tool_id: Some("call_1".to_string()),
        tool_invocation_id: None,
        params: None,
        result: Some(format!(
            r#"{{"delivered": true, "dm_session_id": "{dm}"}}"#
        )),
        timestamp: 1_700_000_000_000_000_000,
        from_agent: None,
    }];
    assert!(matches!(
        finish_episode_run(&mut t, None, 4, &records),
        RunCompletion::Untracked
    ));
    assert!(matches!(
        finish_episode_run(&mut t, Some(1), 4, &records),
        RunCompletion::Open
    ));
    assert_eq!(t.snapshot(1, 0).unwrap().pending_dms, 1);
    assert_eq!(t.resolve_dm(dm.as_u128(), 3).len(), 1);
    assert!(matches!(
        abandon_episode_continuation(&mut t, None),
        RunCompletion::Untracked
    ));
    match abandon_episode_continuation(&mut t, Some(1)) {
        RunCompletion::Closed(episode) => {
            let report = close_episode(LIVE, &episode, false, 99).expect("a report");
            assert_eq!(report.last_run, 4);
            assert_eq!(report.stats.turns, 1);
            assert_eq!(report.stats.dm_count, 1);
            assert_eq!(report.stats.detached, 0);
            assert!(close_episode(None, &episode, false, 99).is_none());
        }
        other => panic!("expected Closed, got {other:?}"),
    }
}

#[test]
fn a_deadline_detaches_what_is_pending() {
    let mut t = JobEpisodeTracker::new(0);
    t.open(1, 2, 3, 4, 0, 0);
    assert!(matches!(
        t.on_run_complete(1, 4, vec![10, 11], vec![(12, 13)]),
        RunCompletion::Open
    ));
    let expired = t.take_expired(0);
    let report = close_episode(LIVE, &expired[0], true, 99).expect("a report");
    assert!(report.stats.timed_out);
    assert_eq!(report.stats.detached, 3);
    assert_eq!(report.stats.subagent_count, 1);
}

fn recurring(after_start: Option<i128>, next: Option<i128>) -> Schedule {
    Schedule::Recurring { after_start, next }
}

#[test]
fn a_one_off_job_is_over_when_its_episode_closes() {
    let (state, write) = begin_close(Schedule::Once, false, false, 100);
    assert_eq!(write.status, JobStatus::Completed);
    assert_eq!(write.next_run_at, None);
    assert_eq!(write.terminal_reason, Some(TerminalReason::Completed));
    let (state, effects) = record_and_rearm(state, Some(RecordOutcome::Recorded));
    assert_eq!(state.attempt, 0);
    assert!(effects.is_empty());
    let (_, write) = begin_close(Schedule::Once, true, true, 100);
    assert_eq!(write.terminal_reason, Some(TerminalReason::DeadlineReached));
}

#[test]
fn a_recurring_job_is_armed_for_its_next_occurrence() {
    let (state, write) = begin_close(recurring(Some(150), Some(150)), false, false, 100);
    assert_eq!(write.status, JobStatus::Active);
    assert_eq!(write.next_run_at, Some(150));
    let (_, effects) = record_and_rearm(state, Some(RecordOutcome::Recorded));
    assert_eq!(effects, vec![RearmEffect::ArmAfter(50)]);
}

#[test]
fn missed_occurrences_are_caught_up_by_one_firing() {
    let (state, write) = begin_close(recurring(Some(90), Some(150)), false, false, 100);
    assert_eq!(write.next_run_at, Some(100));
    let (_, effects) = record_and_rearm(state, Some(RecordOutcome::Recorded));
    assert_eq!(effects, vec![RearmEffect::FireNow]);
    let (state, _) = begin_close(recurring(None, Some(150)), true, false, 100);
    let (_, effects) = record_and_rearm(state, Some(RecordOutcome::Recorded));
    assert_eq!(effects, vec![RearmEffect::FireNow]);
}

#[test]
fn a_close_that_cannot_be_stored_is_tried_three_times() {
    let (state, _) = begin_close(recurring(Some(90), Some(150)), false, false, 100);
    let (state, effects) = record_and_rearm(state, None);
    assert_eq!(effects, vec![RearmEffect::RetryAfter(100)]);
    let (state, effects) = record_and_rearm(state, None);
    assert_eq!(effects, vec![RearmEffect::RetryAfter(200)]);
    let (state, effects) = record_and_rearm(state, None);
    assert_eq!(
        effects,
        vec![RearmEffect::CountFailure, RearmEffect::ArmAfter(50)]
    );
    let (_, effects) = record_and_rearm(state, None);
    assert!(effects.is_empty());
}

#[test]
fn a_cancelled_job_is_not_armed_again() {
    for refused in [RecordOutcome::RefusedTerminal, RecordOutcome::NotFound] {
        let (state, _) = begin_close(recurring(Some(90), Some(150)), true, false, 100);
        let (state, effects) = record_and_rearm(state, Some(refused));
        assert_eq!(state.attempt, 0);
        assert!(effects.is_empty());
    }
}
