use alms_runs::job_card::RunStatus;
use alms_runs::metadata::{MetaValue, Scalar};
use alms_runs::queue::{broadcast_queue_advance, queue_position, QueuePosition, QueuedRun};
use alms_runs::read_api::{
    derive_trigger, enrich_run, get_run_reasoning, get_run_status, get_run_text,
    get_run_tool_calls, list_entries, list_reply, list_runs, run_duration_ms, ListRunsQuery,
    Listing, LoggedEvent, Reasoning, Run, RunList, SourceAgent, StatusDetails, TextBuffer,
};
use alms_runs::replies::ApiError;
use alms_runs::streaming::{
    attach_session_stream, confirm_subscription, parse_last_event_id, replay_with_stream_state,
    stream_agent_events, stream_run_events, stream_session_events, ActivitySnapshot, ReplayEvent,
    ReplayWindow, RunStream, SessionEventsQuery, SseEventData, StreamState,
};
use uuid::Uuid;

fn fresh() -> u128 {
    Uuid::new_v4().as_u128()
}

fn test_run() -> Run {
    Run {
        run_id: fresh(),
        session_id: fresh(),
        agent_id: fresh(),
        status: RunStatus::Queued,
        output: None,
        error: None,
        created_at: 0,
        started_at: None,
        ended_at: None,
        usage: None,
        job_id: None,
        parent_run_id: None,
    }
}

fn error(refused: &ApiError) -> (u16, String, String) {
    let entries = match refused.body.get("error") {
        Some(MetaValue::Group(entries)) => entries,
        other => panic!("error: {other:?}"),
    };
    let field = |key: &str| match entries.iter().find(|(k, _)| k == key) {
        Some((_, Scalar::Text(t))) => t.clone(),
        other => panic!("{key}: {other:?}"),
    };
    (refused.status, field("code"), field("message"))
}

fn not_found(what: &str) -> (u16, String, String) {
    (404, "NOT_FOUND".to_string(), what.to_string())
}

#[test]
fn a_listing_keeps_its_runs_and_their_order() {
    let found = || {
        let mut first = test_run();
        first.run_id = 1;
        first.started_at = Some(1_000_000_000);
        first.ended_at = Some(3_500_000_000);
        let mut second = test_run();
        second.run_id = 2;
        vec![
            (first, Some("web".to_string()), Some(4)),
            (second, None, None),
        ]
    };
    let entries = list_entries(found());
    assert_eq!(entries.len(), 2);
    assert_eq!((entries[0].run_id, entries[1].run_id), (1, 2));
    assert_eq!(entries[0].duration_ms, Some(2_500));
    assert_eq!(entries[0].tool_call_count, Some(4));
    assert_eq!(entries[1].tool_call_count, None);

    let by_agent = Listing::ByAgent {
        agent_id: 9,
        limit: 50,
    };
    match list_reply(by_agent, found()) {
        RunList::Enriched(entries) => {
            let ids: Vec<u128> = entries.iter().map(|e| e.run_id).collect();
            assert_eq!(ids, vec![1, 2]);
        }
        other => panic!("expected details, got {other:?}"),
    }
    let by_session = Listing::BySession {
        session_id: 9,
        limit: 50,
    };
    match list_reply(by_session, found()) {
        RunList::Plain(runs) => {
            let ids: Vec<u128> = runs.iter().map(|r| r.run_id).collect();
            assert_eq!(ids, vec![1, 2]);
        }
        other => panic!("expected bare runs, got {other:?}"),
    }
    assert!(list_entries(Vec::new()).is_empty());
}

#[test]
fn duration_is_never_negative_when_wall_clock_moves_backwards() {
    let start = chrono::Utc::now().timestamp_micros() as i128 * 1000;
    let earlier_end = start - 25 * 1_000_000;
    assert_eq!(run_duration_ms(Some(start), Some(earlier_end)), Some(0));
    assert_eq!(run_duration_ms(Some(start), Some(start)), Some(0));
    assert_eq!(run_duration_ms(Some(start), None), None);
}

#[test]
fn durations_are_whole_milliseconds() {
    assert_eq!(run_duration_ms(Some(0), Some(1_999_999)), Some(1));
    assert_eq!(run_duration_ms(Some(-500_000), Some(500_000)), Some(1));
    assert_eq!(run_duration_ms(Some(5), Some(4)), Some(0));
    assert_eq!(run_duration_ms(None, Some(4)), None);
    let start = chrono::Utc::now();
    let end = start + chrono::Duration::microseconds(1_234_567);
    assert_eq!(
        run_duration_ms(
            Some(start.timestamp_micros() as i128 * 1000),
            Some(end.timestamp_micros() as i128 * 1000)
        ),
        Some(1_234)
    );
}

#[test]
fn test_derive_trigger_user() {
    let run = test_run();
    assert_eq!(derive_trigger(&run, "web"), "user");
    assert_eq!(derive_trigger(&run, "default"), "user");
    assert_eq!(derive_trigger(&run, "my-context"), "user");
}

#[test]
fn test_derive_trigger_scheduled() {
    let mut run = test_run();
    run.job_id = Some(fresh());
    assert_eq!(derive_trigger(&run, "job_abc"), "scheduled");
    assert_eq!(derive_trigger(&run, "dm:alice:bob"), "scheduled");
}

#[test]
fn test_derive_trigger_subagent() {
    let mut run = test_run();
    run.parent_run_id = Some(fresh());
    assert_eq!(derive_trigger(&run, "subagent_task_1"), "subagent");
    assert_eq!(derive_trigger(&run, "web"), "subagent");
}

#[test]
fn test_derive_trigger_dm() {
    let run = test_run();
    assert_eq!(derive_trigger(&run, "dm:alice:bob"), "dm");
}

#[test]
fn test_derive_trigger_notification() {
    let run = test_run();
    assert_eq!(derive_trigger(&run, "notifications:alice"), "notification");
}

#[test]
fn test_derive_trigger_telegram() {
    let run = test_run();
    assert_eq!(derive_trigger(&run, "telegram_123"), "telegram");
}

#[test]
fn test_derive_trigger_priority_job_over_context() {
    let mut run = test_run();
    run.job_id = Some(fresh());
    run.parent_run_id = Some(fresh());
    assert_eq!(derive_trigger(&run, "dm:a:b"), "scheduled");
}

#[test]
fn test_derive_trigger_priority_subagent_over_context() {
    let mut run = test_run();
    run.parent_run_id = Some(fresh());
    assert_eq!(derive_trigger(&run, "dm:a:b"), "subagent");
}

#[test]
fn exactly_one_filter_is_needed() {
    let query = |session_id, agent_id, limit| {
        list_runs(&ListRunsQuery {
            session_id,
            agent_id,
            limit,
        })
    };
    assert_eq!(
        query(None, Some(7), None).unwrap(),
        Listing::ByAgent {
            agent_id: 7,
            limit: 50
        }
    );
    assert_eq!(
        query(Some(8), None, Some(3)).unwrap(),
        Listing::BySession {
            session_id: 8,
            limit: 3
        }
    );
    assert_eq!(
        error(&query(Some(8), Some(7), None).unwrap_err()),
        (
            400,
            "AMBIGUOUS_FILTER".to_string(),
            "Provide either `session_id` or `agent_id`, not both".to_string()
        )
    );
    assert_eq!(
        error(&query(None, None, None).unwrap_err()),
        (
            400,
            "MISSING_FILTER".to_string(),
            "At least one of `session_id` or `agent_id` must be provided".to_string()
        )
    );
}

#[test]
fn a_listed_run_shows_the_beginning_of_its_output() {
    let mut run = test_run();
    run.output = Some("é".repeat(201));
    run.started_at = Some(1_000_000_000);
    run.ended_at = Some(3_500_000_000);
    let entry = enrich_run(run, Some("dm:alice:bob".to_string()), Some(2));
    assert_eq!(entry.response, Some(format!("{}...", "é".repeat(200))));
    assert_eq!(entry.ts, 3_500_000_000);
    assert_eq!(entry.duration_ms, Some(2_500));
    assert_eq!(entry.session_type, "dm");
    assert_eq!(entry.trigger, "dm");
    assert_eq!(entry.context_id, "dm:alice:bob");
    assert_eq!(entry.tool_call_count, Some(2));
}

#[test]
fn a_run_without_a_session_is_listed_as_chat() {
    let mut run = test_run();
    run.created_at = 5;
    run.output = Some("a".repeat(200));
    let entry = enrich_run(run, None, None);
    assert_eq!(entry.response, Some("a".repeat(200)));
    assert_eq!(entry.context_id, "unknown");
    assert_eq!(entry.session_type, "chat");
    assert_eq!(entry.trigger, "user");
    assert_eq!(entry.ts, 5);
    assert_eq!(entry.duration_ms, None);
}

#[test]
fn tool_calls_come_from_the_store() {
    assert_eq!(
        error(&get_run_tool_calls::<u8>(false, None).unwrap_err()),
        not_found("Run not found")
    );
    assert_eq!(
        get_run_tool_calls::<u8>(true, None).unwrap(),
        Vec::<u8>::new()
    );
    assert_eq!(
        get_run_tool_calls(true, Some(Ok(vec![1, 2]))).unwrap(),
        vec![1, 2]
    );
    assert_eq!(
        error(&get_run_tool_calls::<u8>(true, Some(Err("disk".to_string()))).unwrap_err()),
        (
            500,
            "INTERNAL_ERROR".to_string(),
            "Failed to load tool calls: disk".to_string()
        )
    );
}

fn event(event_id: u64, run_id: u128, kind: &str, sub: bool, text: Option<&str>) -> LoggedEvent {
    LoggedEvent {
        event_id,
        run_id,
        event_type: kind.to_string(),
        source_agent: if sub {
            SourceAgent::Given
        } else {
            SourceAgent::Absent
        },
        text: text.map(str::to_string),
    }
}

fn log() -> Vec<LoggedEvent> {
    vec![
        event(1, 1, "reasoning_delta", false, Some("old ")),
        event(2, 1, "tool_start", false, None),
        event(3, 2, "reasoning_delta", false, Some("other run ")),
        event(4, 1, "reasoning_delta", true, Some("subagent ")),
        event(5, 1, "reasoning_delta", false, Some("new ")),
        event(6, 1, "tool_end", true, None),
        event(7, 1, "reasoning_delta", false, None),
        event(8, 1, "reasoning_delta", false, Some("text")),
        event(9, 2, "run_finished", false, None),
    ]
}

fn live(text: &str, last_event_id: Option<u64>) -> Reasoning<String> {
    Reasoning {
        text: text.to_string(),
        last_event_id,
        terminal: false,
        seal_event_id: None,
    }
}

#[test]
fn reasoning_is_that_of_the_turn_under_way() {
    let running = Some(RunStatus::Running);
    assert_eq!(
        get_run_reasoning(1, running, &log(), running).unwrap(),
        live("new text", Some(8))
    );
    let mut reset = log();
    reset.push(event(10, 1, "stream_reset", false, None));
    assert_eq!(
        get_run_reasoning(1, running, &reset, running).unwrap(),
        live("", None)
    );
    assert_eq!(
        get_run_reasoning(1, running, &vec![], None).unwrap(),
        live("", None)
    );
    assert_eq!(
        error(&get_run_reasoning(1, None, &log(), running).unwrap_err()),
        not_found("Run not found")
    );
}

#[test]
fn a_null_source_names_no_subagent() {
    let running = Some(RunStatus::Running);
    let mut events = log();
    for entry in &mut events {
        if entry.source_agent == SourceAgent::Absent {
            entry.source_agent = SourceAgent::Null;
        }
    }
    assert_eq!(
        get_run_reasoning(1, running, &events, running).unwrap(),
        live("new text", Some(8))
    );
    events[7].source_agent = SourceAgent::Given;
    assert_eq!(
        get_run_reasoning(1, running, &events, running).unwrap().text,
        "new "
    );
}

#[test]
fn a_finished_run_returns_its_seal() {
    let mut events = log();
    events.push(event(12, 1, "run_error", false, None));
    events.push(event(11, 1, "run_cancelled", false, None));
    let sealed = Reasoning {
        text: String::new(),
        last_event_id: None,
        terminal: true,
        seal_event_id: Some(11),
    };
    assert_eq!(
        get_run_reasoning(
            1,
            Some(RunStatus::Running),
            &events,
            Some(RunStatus::Cancelled)
        )
        .unwrap(),
        sealed
    );
    assert_eq!(
        get_run_reasoning(1, Some(RunStatus::Failed), &events, None).unwrap(),
        sealed
    );
}

#[test]
fn visible_text_is_empty_until_there_is_some() {
    assert_eq!(
        error(&get_run_text(false, None).unwrap_err()),
        not_found("Run not found")
    );
    let empty = get_run_text(true, None).unwrap();
    assert_eq!(empty.text, "");
    assert_eq!(empty.last_session_event_id, None);
    let buffered = get_run_text(
        true,
        Some(TextBuffer {
            text: "hi".to_string(),
            last_session_event_id: Some(4),
        }),
    )
    .unwrap();
    assert_eq!(buffered.text, "hi");
    assert_eq!(buffered.last_session_event_id, Some(4));
}

fn queued(run_id: u128) -> QueuedRun {
    QueuedRun {
        run_id,
        session_id: run_id + 100,
    }
}

#[test]
fn status_and_broadcast_show_the_same_position() {
    let waiting = vec![queued(1), queued(2), queued(3)];
    assert_eq!(queue_position(&waiting, false, 1), None);
    assert_eq!(queue_position(&waiting, false, 3), Some(2));
    assert_eq!(queue_position(&waiting, true, 1), Some(1));
    assert_eq!(queue_position(&waiting, true, 9), None);
    assert_eq!(
        broadcast_queue_advance(&waiting, false),
        vec![
            QueuePosition {
                run_id: 2,
                session_id: 102,
                position: 1
            },
            QueuePosition {
                run_id: 3,
                session_id: 103,
                position: 2
            },
        ]
    );
    assert_eq!(broadcast_queue_advance(&waiting, true).len(), 3);
    assert!(broadcast_queue_advance(&vec![], false).is_empty());
}

#[test]
fn only_a_queued_run_has_a_position() {
    let mut run = test_run();
    run.run_id = 2;
    let waiting = vec![queued(1), queued(2)];
    assert_eq!(
        get_run_status(Some(&run), Some(5), &waiting, true).unwrap(),
        StatusDetails {
            tool_call_count: Some(5),
            queue_position: Some(2)
        }
    );
    run.status = RunStatus::Running;
    assert_eq!(
        get_run_status(Some(&run), None, &waiting, true)
            .unwrap()
            .queue_position,
        None
    );
    assert_eq!(
        error(&get_run_status(None, None, &waiting, true).unwrap_err()),
        not_found("Run not found")
    );
}

fn query(last_event_id: Option<&str>) -> SessionEventsQuery {
    SessionEventsQuery {
        last_event_id: last_event_id.map(str::to_string),
        stream_epoch: None,
    }
}

#[test]
fn the_query_goes_before_the_header() {
    assert_eq!(parse_last_event_id(Some("7"), &query(Some("5"))), Some(5));
    assert_eq!(parse_last_event_id(Some("7"), &query(None)), Some(7));
    assert_eq!(
        parse_last_event_id(Some("7"), &query(Some("ephemeral-3"))),
        Some(7)
    );
    assert_eq!(
        parse_last_event_id(Some("ephemeral-3"), &query(Some(""))),
        None
    );
    assert_eq!(
        parse_last_event_id(None, &query(Some("18446744073709551615"))),
        Some(u64::MAX)
    );
    assert_eq!(
        parse_last_event_id(None, &query(Some("18446744073709551616"))),
        None
    );
    assert_eq!(parse_last_event_id(None, &query(Some("+4"))), Some(4));
    assert_eq!(parse_last_event_id(None, &query(Some("-4"))), None);
}

fn window() -> ReplayWindow<u8> {
    ReplayWindow {
        events: vec![
            ReplayEvent {
                event_type: "a".to_string(),
                data: 1,
                ts: 10,
                event_id: 4,
            },
            ReplayEvent {
                event_type: "b".to_string(),
                data: 2,
                ts: 20,
                event_id: 5,
            },
        ],
        retained_from: Some(2),
        newest: Some(5),
        replay_gap: true,
    }
}

fn state_of(replay: &[SseEventData<u8>]) -> StreamState {
    match &replay[0] {
        SseEventData::StreamState(state) => *state,
        other => panic!("expected the state first, got {other:?}"),
    }
}

#[test]
fn a_replay_begins_with_the_state_of_the_stream() {
    let epoch = Uuid::new_v4();
    let replay = replay_with_stream_state(epoch.as_u128(), None, window());
    assert_eq!(replay.len(), 3);
    assert_eq!(
        state_of(&replay),
        StreamState {
            epoch: epoch.as_u128(),
            retained_from: Some(2),
            newest: Some(5),
            replay_gap: true,
            epoch_mismatch: false,
        }
    );
    match &replay[2] {
        SseEventData::Logged {
            event_type,
            data,
            ts,
            event_id,
        } => {
            assert_eq!(event_type, "b");
            assert_eq!((*data, *ts, *event_id), (2, 20, Some(5)));
        }
        other => panic!("expected an event, got {other:?}"),
    }
}

#[test]
fn an_epoch_is_compared_by_its_value() {
    let epoch = Uuid::new_v4();
    let mismatch = |supplied: &str| {
        state_of(&replay_with_stream_state(
            epoch.as_u128(),
            Some(supplied),
            window(),
        ))
        .epoch_mismatch
    };
    assert!(!mismatch(&epoch.to_string()));
    assert!(!mismatch(&epoch.simple().to_string().to_uppercase()));
    assert!(!mismatch(&format!("{{{epoch}}}")));
    assert!(!mismatch(&format!("URN:uuid:{epoch}")));
    assert!(mismatch(&Uuid::new_v4().to_string()));
    assert!(mismatch("nonsense"));
    assert!(mismatch(""));
}

#[test]
fn a_finished_run_gets_no_subscription() {
    assert_eq!(
        error(&stream_run_events(None).unwrap_err()),
        not_found("Run not found")
    );
    assert_eq!(
        stream_run_events(Some(RunStatus::Failed)).unwrap(),
        RunStream::ReplayOnly
    );
    assert_eq!(
        stream_run_events(Some(RunStatus::Queued)).unwrap(),
        RunStream::Subscribe
    );
    assert_eq!(
        confirm_subscription(Some(RunStatus::Running)),
        RunStream::Live
    );
    assert_eq!(
        confirm_subscription(Some(RunStatus::Completed)),
        RunStream::Unsubscribe
    );
    assert_eq!(confirm_subscription(None), RunStream::Unsubscribe);
}

#[test]
fn streams_need_a_known_session_or_agent() {
    assert!(stream_session_events(true).is_ok());
    assert_eq!(
        error(&stream_session_events(false).unwrap_err()),
        not_found("Session not found")
    );
    assert!(stream_agent_events(1, None).is_ok());
    assert!(stream_agent_events(1, Some(Ok(true))).is_ok());
    assert_eq!(
        error(&stream_agent_events(1, Some(Ok(false))).unwrap_err()),
        not_found("Agent not found: 00000000-0000-0000-0000-000000000001")
    );
    assert_eq!(
        error(&stream_agent_events(1, Some(Err("disk".to_string()))).unwrap_err()),
        (500, "INTERNAL".to_string(), "disk".to_string())
    );
}

#[test]
fn a_new_subscriber_learns_what_subagents_are_doing() {
    let signals = attach_session_stream(vec![
        ActivitySnapshot {
            parent_run_id: Some(9),
            signal: "writing",
        },
        ActivitySnapshot {
            parent_run_id: None,
            signal: "reasoning",
        },
    ]);
    assert_eq!(signals, vec![(9, "writing"), (0, "reasoning")]);
}

#[test]
fn reasoning_is_read_in_the_order_of_its_numbers() {
    let running = Some(RunStatus::Running);
    let events = vec![
        event(9, 1, "reasoning_delta", false, Some("a")),
        event(4, 1, "reasoning_delta", false, Some("b")),
        event(6, 1, "reasoning_delta", false, Some("c")),
        event(4, 1, "reasoning_delta", false, Some("d")),
    ];
    let seen = get_run_reasoning(1, running, &events, running).unwrap();
    assert_eq!(seen.text, "bdca");
    assert_eq!(seen.last_event_id, Some(9));
}
