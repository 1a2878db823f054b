use alms_runs::clock::to_rfc3339;
use alms_runs::ids::{AgentId, JobId, RunId, SessionId};
use alms_runs::job_episode::{
    ContinuationRoute, JobEpisodeTracker, RunCompletion, EPISODE_DEADLINE_SECS, NANOS_PER_SEC,
};
use alms_runs::tool_calls::{
    dm_of_result, dms_opened, subagent_of_result, subagents_spawned, ToolCallRecord, ToolCallRole,
};
use uuid::Uuid;

const NOW: u64 = 1_000;

fn fresh() -> u128 {
    Uuid::new_v4().as_u128()
}

fn tracker() -> JobEpisodeTracker {
    JobEpisodeTracker::new(EPISODE_DEADLINE_SECS * NANOS_PER_SEC)
}

fn open_episode(t: &mut JobEpisodeTracker) -> (JobId, SessionId, AgentId, RunId) {
    let job_id = fresh();
    let session_id = fresh();
    let agent_id = fresh();
    let run_id = fresh();
    t.open(job_id, session_id, agent_id, run_id, 0, NOW);
    (job_id, session_id, agent_id, run_id)
}

fn tool_result(name: &str, result: &str) -> ToolCallRecord {
    ToolCallRecord {
        seq: 0,
        role: ToolCallRole::Tool,
        tool_name: Some(name.to_string()),
        tool_id: Some("call_1".to_string()),
        tool_invocation_id: None,
        params: None,
        result: Some(result.to_string()),
        timestamp: 1_700_000_000_000_000_000,
        from_agent: None,
    }
}

#[test]
fn no_async_work_closes_at_turn_end() {
    let mut t = tracker();
    let (job_id, _, _, run_id) = open_episode(&mut t);
    match t.on_run_complete(job_id, run_id, vec![], vec![]) {
        RunCompletion::Closed(ep) => {
            assert_eq!(ep.runs, vec![run_id]);
            assert_eq!(ep.dm_total, 0);
            assert_eq!(ep.subagent_total, 0);
        }
        other => panic!("expected Closed, got {other:?}"),
    }
    assert!(t.snapshot(job_id, NOW).is_none(), "episode must be removed");
}

#[test]
fn single_dm_arc_closes_after_quiescent_continuation() {
    let mut t = tracker();
    let (job_id, job_session, agent_id, run1) = open_episode(&mut t);
    let dm = fresh();

    match t.on_run_complete(job_id, run1, vec![dm], vec![]) {
        RunCompletion::Open => {}
        other => panic!("pending DM must keep the episode open, got {other:?}"),
    }

    let routes = t.resolve_dm(dm, agent_id);
    assert_eq!(
        routes.len(),
        1,
        "pending DM must resolve for the episode agent"
    );
    assert_eq!(routes[0].job_id, job_id);
    assert_eq!(routes[0].job_session_id, job_session);
    assert_eq!(
        routes[0].context_id,
        format!("job_{}", Uuid::from_u128(job_id))
    );

    let run2 = fresh();
    t.note_run(job_id, run2);

    match t.on_run_complete(job_id, run2, vec![], vec![]) {
        RunCompletion::Closed(ep) => {
            assert_eq!(ep.runs, vec![run1, run2]);
            assert_eq!(ep.dm_total, 1);
        }
        other => panic!("expected Closed, got {other:?}"),
    }
}

#[test]
fn parallel_pending_items_wait_on_all() {
    let mut t = tracker();
    let (job_id, _, agent_id, run1) = open_episode(&mut t);
    let dm_a = fresh();
    let dm_b = fresh();
    let task = fresh();

    assert!(matches!(
        t.on_run_complete(job_id, run1, vec![dm_a, dm_b], vec![(task, fresh())]),
        RunCompletion::Open
    ));

    assert_eq!(t.resolve_dm(dm_a, agent_id).len(), 1, "dm_a resolves");
    let c1 = fresh();
    t.note_run(job_id, c1);
    assert!(matches!(
        t.on_run_complete(job_id, c1, vec![], vec![]),
        RunCompletion::Open
    ));

    t.resolve_subagent(task).expect("task resolves");
    let c2 = fresh();
    t.note_run(job_id, c2);
    assert!(matches!(
        t.on_run_complete(job_id, c2, vec![], vec![]),
        RunCompletion::Open
    ));

    assert_eq!(t.resolve_dm(dm_b, agent_id).len(), 1, "dm_b resolves");
    let c3 = fresh();
    t.note_run(job_id, c3);
    match t.on_run_complete(job_id, c3, vec![], vec![]) {
        RunCompletion::Closed(ep) => {
            assert_eq!(ep.dm_total, 2);
            assert_eq!(ep.subagent_total, 1);
            assert_eq!(ep.runs.len(), 4);
        }
        other => panic!("expected Closed, got {other:?}"),
    }
}

#[test]
fn continuation_turn_can_regrow_pending_set() {
    let mut t = tracker();
    let (job_id, _, agent_id, run1) = open_episode(&mut t);
    let dm_a = fresh();
    assert!(matches!(
        t.on_run_complete(job_id, run1, vec![dm_a], vec![]),
        RunCompletion::Open
    ));

    assert_eq!(t.resolve_dm(dm_a, agent_id).len(), 1);
    let c1 = fresh();
    t.note_run(job_id, c1);
    let dm_b = fresh();
    assert!(matches!(
        t.on_run_complete(job_id, c1, vec![dm_b], vec![]),
        RunCompletion::Open
    ));

    assert_eq!(t.resolve_dm(dm_b, agent_id).len(), 1);
    let c2 = fresh();
    t.note_run(job_id, c2);
    assert!(matches!(
        t.on_run_complete(job_id, c2, vec![], vec![]),
        RunCompletion::Closed(_)
    ));
}

#[test]
fn duplicate_completion_does_not_consume_continuation_reservation() {
    let mut t = tracker();
    let (job_id, _, agent_id, run1) = open_episode(&mut t);
    let dm = fresh();

    assert!(matches!(
        t.on_run_complete(job_id, run1, vec![dm], vec![]),
        RunCompletion::Open
    ));
    assert_eq!(t.resolve_dm(dm, agent_id).len(), 1);

    let continuation = fresh();
    t.note_run(job_id, continuation);
    assert!(matches!(
        t.on_run_complete(job_id, run1, vec![], vec![]),
        RunCompletion::Open
    ));
    assert_eq!(
        t.snapshot(job_id, NOW).unwrap().in_flight_runs,
        1,
        "duplicate completion must leave the continuation reservation intact"
    );

    assert!(matches!(
        t.on_run_complete(job_id, continuation, vec![], vec![]),
        RunCompletion::Closed(_)
    ));
}

#[test]
fn resolve_dm_requires_matching_agent() {
    let mut t = tracker();
    let (job_id, _, agent_id, run1) = open_episode(&mut t);
    let dm = fresh();
    assert!(matches!(
        t.on_run_complete(job_id, run1, vec![dm], vec![]),
        RunCompletion::Open
    ));

    assert!(
        t.resolve_dm(dm, fresh()).is_empty(),
        "peer's trigger must not consume the episode's pending DM"
    );
    assert_eq!(t.resolve_dm(dm, agent_id).len(), 1);
    assert!(t.resolve_dm(dm, agent_id).is_empty());
}

#[test]
fn repeat_sends_to_same_pair_collapse_to_one_pending() {
    let mut t = tracker();
    let (job_id, _, agent_id, run1) = open_episode(&mut t);
    let dm = fresh();
    assert!(matches!(
        t.on_run_complete(job_id, run1, vec![dm, dm], vec![]),
        RunCompletion::Open
    ));
    assert_eq!(t.resolve_dm(dm, agent_id).len(), 1, "one entry to resolve");
    let c1 = fresh();
    t.note_run(job_id, c1);
    match t.on_run_complete(job_id, c1, vec![], vec![]) {
        RunCompletion::Closed(ep) => assert_eq!(ep.dm_total, 1),
        other => panic!("expected Closed, got {other:?}"),
    }
}

#[test]
fn resolve_dm_resolves_all_episodes_pending_on_same_session() {
    let mut t = tracker();
    let agent_id = fresh();
    let dm = fresh();

    let mut jobs = Vec::new();
    for _ in 0..2 {
        let job_id = fresh();
        let session_id = fresh();
        let run1 = fresh();
        t.open(job_id, session_id, agent_id, run1, 0, NOW);
        assert!(matches!(
            t.on_run_complete(job_id, run1, vec![dm], vec![]),
            RunCompletion::Open
        ));
        jobs.push((job_id, session_id));
    }

    let mut routes = t.resolve_dm(dm, agent_id);
    assert_eq!(
        routes.len(),
        2,
        "both episodes pending on the DM session must resolve"
    );
    routes.sort_by_key(|r| r.job_id);
    let mut expected: Vec<ContinuationRoute> = jobs
        .iter()
        .map(|(job_id, session_id)| ContinuationRoute {
            job_id: *job_id,
            job_session_id: *session_id,
            context_id: format!("job_{}", Uuid::from_u128(*job_id)),
        })
        .collect();
    expected.sort_by_key(|r| r.job_id);
    assert_eq!(routes, expected);

    assert!(t.resolve_dm(dm, agent_id).is_empty());

    for (job_id, _) in jobs {
        let cont = fresh();
        t.note_run(job_id, cont);
        match t.on_run_complete(job_id, cont, vec![], vec![]) {
            RunCompletion::Closed(ep) => {
                assert_eq!(ep.job_id, job_id);
                assert!(
                    ep.runs.contains(&cont),
                    "continuation run must be recorded on its episode"
                );
            }
            other => panic!("episode for {job_id:?} must close, got {other:?}"),
        }
    }
}

#[test]
fn resolve_after_close_misses() {
    let mut t = tracker();
    let (job_id, _, agent_id, run1) = open_episode(&mut t);
    let dm = fresh();
    t.on_run_complete(job_id, run1, vec![dm], vec![]);
    t.remove(job_id).expect("episode removed (cancel path)");
    assert!(t.resolve_dm(dm, agent_id).is_empty());
    assert!(t.resolve_subagent(fresh()).is_none());
}

#[test]
fn abandoned_continuation_reservation_allows_episode_to_close() {
    let mut t = tracker();
    let (job_id, _, _, run1) = open_episode(&mut t);
    let task_id = fresh();
    assert!(matches!(
        t.on_run_complete(job_id, run1, vec![], vec![(task_id, fresh())]),
        RunCompletion::Open
    ));
    assert!(t.resolve_subagent(task_id).is_some());

    match t.abandon_reserved_continuation(job_id) {
        RunCompletion::Closed(episode) => {
            assert_eq!(episode.job_id, job_id);
            assert_eq!(episode.runs, vec![run1]);
        }
        other => panic!("abandoned final reservation must close episode, got {other:?}"),
    }
    assert!(t.snapshot(job_id, NOW).is_none());
}

#[test]
fn run_complete_on_untracked_job_is_untracked() {
    let mut t = tracker();
    assert!(matches!(
        t.on_run_complete(fresh(), fresh(), vec![], vec![]),
        RunCompletion::Untracked
    ));
}

#[test]
fn take_expired_drains_past_deadline_episodes_with_pending_work() {
    let mut t = JobEpisodeTracker::new(0);
    let (job_id, _, _, run1) = open_episode(&mut t);
    let dm = fresh();
    assert!(matches!(
        t.on_run_complete(job_id, run1, vec![dm], vec![]),
        RunCompletion::Open
    ));

    let expired = t.take_expired(NOW);
    assert_eq!(expired.len(), 1);
    assert_eq!(expired[0].job_id, job_id);
    assert_eq!(
        expired[0].pending_count(),
        1,
        "pending work is detached, not cancelled"
    );
    assert!(
        t.snapshot(job_id, NOW).is_none(),
        "episode removed by sweep"
    );
}

#[test]
fn take_expired_leaves_live_episodes() {
    let mut t = tracker();
    let (job_id, _, _, run1) = open_episode(&mut t);
    let dm = fresh();
    t.on_run_complete(job_id, run1, vec![dm], vec![]);
    assert!(t.take_expired(NOW).is_empty());
    assert!(t.snapshot(job_id, NOW).is_some());
}

#[test]
fn an_episode_expires_exactly_at_its_deadline() {
    let mut t = tracker();
    let (job_id, _, _, _) = open_episode(&mut t);
    let deadline = NOW + EPISODE_DEADLINE_SECS * NANOS_PER_SEC;
    assert!(t.take_expired(deadline - 1).is_empty());
    assert_eq!(t.take_expired(deadline).len(), 1);
    assert!(t.snapshot(job_id, NOW).is_none());
}

#[test]
fn a_snapshot_counts_down_to_the_deadline() {
    let mut t = tracker();
    let (job_id, _, _, _) = open_episode(&mut t);
    let seen = t.snapshot(job_id, NOW + 1_500_000_000).unwrap();
    assert_eq!(seen.in_flight_runs, 1);
    assert_eq!(seen.runs, 1);
    assert_eq!(seen.deadline_remaining_secs, 14_398);
    let late = t
        .snapshot(job_id, NOW + 20_000 * NANOS_PER_SEC)
        .expect("still tracked");
    assert_eq!(late.deadline_remaining_secs, 0);
}

#[test]
fn a_snapshot_shows_when_the_episode_was_opened() {
    let mut t = tracker();
    t.open(1, 2, 3, 4, 1_700_000_000_250_000_000, NOW);
    let seen = t.snapshot(1, NOW).unwrap();
    assert_eq!(seen.started_at, "2023-11-14T22:13:20.250+00:00");
}

#[test]
fn instants_before_1970_are_written_too() {
    assert_eq!(to_rfc3339(0), "1970-01-01T00:00:00+00:00");
    assert_eq!(to_rfc3339(-1), "1969-12-31T23:59:59.999999999+00:00");
}

#[test]
fn instants_are_written_by_the_gregorian_calendar() {
    let at = |secs: i128, nanos: i128| to_rfc3339(secs * 1_000_000_000 + nanos);
    assert_eq!(at(1_709_208_000, 0), "2024-02-29T12:00:00+00:00");
    assert_eq!(at(4_107_542_399, 0), "2100-02-28T23:59:59+00:00");
    assert_eq!(at(4_107_542_400, 0), "2100-03-01T00:00:00+00:00");
    assert_eq!(at(0, 1_000_000), "1970-01-01T00:00:00.001+00:00");
    assert_eq!(at(0, 1_000), "1970-01-01T00:00:00.000001+00:00");
    assert_eq!(at(0, 1), "1970-01-01T00:00:00.000000001+00:00");
    assert_eq!(at(253_402_300_800, 0), "+10000-01-01T00:00:00+00:00");
    assert_eq!(at(-62_167_219_200, 0), "0000-01-01T00:00:00+00:00");
    assert_eq!(at(-62_167_305_600, 0), "-0001-12-31T00:00:00+00:00");
}

#[test]
fn absorb_fire_if_open_sets_catch_up_bit() {
    let mut t = tracker();
    let (job_id, _, _, run1) = open_episode(&mut t);
    let dm = fresh();
    t.on_run_complete(job_id, run1, vec![dm], vec![]);

    assert!(t.absorb_fire_if_open(job_id), "open episode absorbs");
    let snap = t.snapshot(job_id, NOW).unwrap();
    assert!(snap.catch_up_queued);

    assert!(
        !t.absorb_fire_if_open(fresh()),
        "no episode → fire proceeds"
    );
}

#[test]
fn dms_opened_accepts_only_delivered_sends() {
    let dm_id = Uuid::new_v4();
    let records = vec![
        tool_result(
            "send_message",
            &format!(r#"{{"delivered": true, "dm_session_id": "{dm_id}", "note": "ok"}}"#),
        ),
        tool_result(
            "send_message",
            r#"{"delivered": false, "folded": true, "note": "already in DM"}"#,
        ),
        tool_result("send_message", r#"{"error": "Agent 'zed' not found."}"#),
        tool_result("send_message", "Error: delivery failed"),
        tool_result("echo", r#"{"delivered": true}"#),
    ];
    assert_eq!(dms_opened(&records), vec![dm_id.as_u128()]);
}

#[test]
fn subagents_spawned_accepts_only_background_dispatches() {
    let task = Uuid::new_v4();
    let session = Uuid::new_v4();
    let records = vec![
        tool_result(
            "invoke_agent",
            &format!(r#"{{"task_id": "{task}", "session_id": "{session}"}}"#),
        ),
        tool_result(
            "invoke_agent",
            &format!(r#"{{"response": "here is the answer", "session_id": "{session}"}}"#),
        ),
        tool_result(
            "invoke_agent",
            &format!(
                r#"{{"error": "no such agent", "task_id": "{task}", "session_id": "{session}"}}"#
            ),
        ),
    ];
    assert_eq!(
        subagents_spawned(&records),
        vec![(task.as_u128(), session.as_u128())]
    );
}

#[test]
fn call_side_records_are_ignored() {
    let record = ToolCallRecord {
        role: ToolCallRole::Assistant,
        result: Some(format!(
            r#"{{"delivered": true, "dm_session_id": "{}"}}"#,
            Uuid::new_v4()
        )),
        ..tool_result("send_message", "{}")
    };
    assert!(dms_opened(&vec![record]).is_empty());
}

#[test]
fn result_entries_decide_what_was_started() {
    let id = Uuid::new_v4();
    let text = id.to_string();
    assert_eq!(
        dm_of_result(Some(true), Some(text.clone())),
        Some(id.as_u128())
    );
    assert_eq!(dm_of_result(Some(false), Some(text.clone())), None);
    assert_eq!(dm_of_result(None, Some(text.clone())), None);
    assert_eq!(dm_of_result(Some(true), None), None);
    assert_eq!(dm_of_result(Some(true), Some("nonsense".to_string())), None);
    assert_eq!(
        subagent_of_result(false, Some(text.clone()), Some(text.clone())),
        Some((id.as_u128(), id.as_u128()))
    );
    assert_eq!(
        subagent_of_result(true, Some(text.clone()), Some(text.clone())),
        None
    );
    assert_eq!(subagent_of_result(false, None, Some(text)), None);
}
