use alms_runs::completion::TokenUsage;
use alms_runs::execution::{
    execute_run, Effect, Event, InitError, Outcome, Phase, ResolvedConfig, RunFacts, RunSetting,
    ToolCalls, TurnOutput,
};
use alms_runs::guard::{panic_reason_text, reconcile_panic, GuardPhase};
use alms_runs::peer::{EndReason, RunVerdict};
use alms_runs::runtime_plan::Posture;
use alms_runs::tool_calls::{ToolCallRecord, ToolCallRole};
use std::sync::Arc;

const CHAT: RunSetting = RunSetting {
    input_pre_persisted: true,
    internal: false,
    is_system_triggered: false,
};

const FACTS: RunFacts = RunFacts {
    summarise: true,
    dm_peer: false,
};

fn config() -> ResolvedConfig {
    ResolvedConfig {
        provider: "anthropic".to_string(),
        model: "sonnet".to_string(),
        posture: Posture::Guarded,
        max_tokens: 4096,
        thinking_budget_tokens: 8192,
        reasoning_effort: Some("high".to_string()),
        gemini_thinking_budget: Some(4096),
        debug_mode: false,
    }
}

fn calls() -> ToolCalls {
    Arc::new(vec![ToolCallRecord {
        seq: 0,
        role: ToolCallRole::Tool,
        tool_name: Some("echo".to_string()),
        tool_id: Some("call_1".to_string()),
        tool_invocation_id: None,
        params: None,
        result: Some("{}".to_string()),
        timestamp: 0,
        from_agent: None,
    }])
}

fn output(tool_calls: ToolCalls) -> Arc<TurnOutput> {
    Arc::new(TurnOutput {
        response: "hello".to_string(),
        reasoning: Some("because".to_string()),
        usage: usage(),
        tool_calls,
    })
}

fn usage() -> TokenUsage {
    TokenUsage {
        prompt_tokens: 120,
        completion_tokens: 30,
        reasoning_tokens: None,
        cache_creation_input_tokens: None,
        cache_read_input_tokens: None,
    }
}

fn run(setting: RunSetting, events: Vec<Event<String>>) -> (Phase<String>, Vec<Effect<String>>) {
    let mut phase = Phase::Begin;
    let mut all = Vec::new();
    for event in events {
        let (next, effects) = execute_run(&setting, phase, event);
        phase = next;
        all.extend(effects.list);
    }
    (phase, all)
}

fn until_running(mut tail: Vec<Event<String>>) -> Vec<Event<String>> {
    let mut events = vec![
        Event::Dequeued,
        Event::InputClaimed(Ok(())),
        Event::CancelPolled(false),
        Event::Resolved(Ok(config())),
        Event::BudgetChecked(Ok(())),
        Event::Marked(Ok(true)),
        Event::RuntimeBuilt(Ok(FACTS)),
    ];
    events.append(&mut tail);
    events
}

fn closed(tool_calls: Option<ToolCalls>) -> Vec<Effect<String>> {
    vec![
        Effect::ActivityEnded,
        Effect::TouchAgent,
        Effect::RemoveSenders,
        Effect::PurgeTerminalSenders,
        Effect::RemoveCancelToken,
        Effect::ClearApprovals,
        Effect::FinishEpisode { tool_calls },
        Effect::AdvanceQueue,
        Effect::UntrackInFlight,
    ]
}

#[test]
fn a_run_that_completes_is_announced_and_summarised() {
    let (phase, effects) = run(
        CHAT,
        until_running(vec![
            Event::Finished(Outcome::Completed(output(calls()))),
            Event::Marked(Ok(true)),
        ]),
    );
    assert_eq!(phase, Phase::Done);
    let mut expected = vec![
        Effect::TrackInFlight,
        Effect::RunStarted(config()),
        Effect::ActivityStarted,
        Effect::PersistToolCalls(calls()),
        Effect::MarkBoundary,
        Effect::RunFinished(usage()),
        Effect::SpawnSummary(output(calls())),
        Effect::CompleteConversation(output(calls())),
    ];
    expected.extend(closed(Some(calls())));
    assert_eq!(effects, expected);
}

#[test]
fn a_run_is_marked_with_what_it_commits_to() {
    let setting = RunSetting {
        input_pre_persisted: false,
        internal: false,
        is_system_triggered: true,
    };
    let (phase, effects) = run(
        setting,
        vec![
            Event::Dequeued,
            Event::CancelPolled(false),
            Event::Resolved(Ok(config())),
            Event::BudgetChecked(Ok(())),
        ],
    );
    let committed = ResolvedConfig {
        posture: Posture::Autonomous,
        ..config()
    };
    assert_eq!(phase, Phase::Starting(committed.clone()));
    assert_eq!(effects, vec![Effect::TrackInFlight]);
    let (_, effects) = execute_run(&setting, phase, Event::Marked(Ok(true)));
    assert_eq!(
        effects.list,
        vec![Effect::RunStarted(committed), Effect::ActivityStarted]
    );
}

#[test]
fn tool_calls_are_stored_and_reported_however_the_turn_ends() {
    let stopped = || Event::Finished(Outcome::CancelledWithToolCalls(calls()));
    let broken = || {
        Event::Finished(Outcome::FailedWithToolCalls {
            message: "boom".to_string(),
            tool_calls: calls(),
        })
    };
    for tail in [
        vec![stopped(), Event::Marked(Ok(true)), Event::VerdictRead(None)],
        vec![
            broken(),
            Event::Marked(Ok(true)),
            Event::Sanitised("Runtime error".to_string()),
        ],
    ] {
        let (phase, effects) = run(CHAT, until_running(tail));
        assert_eq!(phase, Phase::Done);
        assert_eq!(effects[3], Effect::PersistToolCalls(calls()));
        assert!(effects.contains(&Effect::FinishEpisode {
            tool_calls: Some(calls())
        }));
    }
}

#[test]
fn no_tool_calls_are_not_stored() {
    let (phase, effects) = run(
        CHAT,
        until_running(vec![Event::Finished(Outcome::Completed(output(Arc::new(
            Vec::new(),
        ))))]),
    );
    assert_eq!(
        phase,
        Phase::Completing {
            facts: FACTS,
            output: output(Arc::new(Vec::new())),
        }
    );
    assert_eq!(effects[3..], [Effect::MarkBoundary]);
}

#[test]
fn internal_sessions_get_no_boundary_marker() {
    let (_, effects) = run(
        RunSetting {
            input_pre_persisted: true,
            internal: true,
            is_system_triggered: false,
        },
        until_running(vec![Event::Finished(Outcome::Completed(output(calls())))]),
    );
    assert!(!effects.contains(&Effect::MarkBoundary));
}

#[test]
fn a_failing_run_tells_the_peer_what_is_safe() {
    let (phase, effects) = run(
        CHAT,
        until_running(vec![
            Event::Finished(Outcome::Failed("raw secret".to_string())),
            Event::Marked(Ok(true)),
            Event::Sanitised("Runtime error".to_string()),
        ]),
    );
    assert_eq!(phase, Phase::Done);
    assert!(effects.contains(&Effect::RunError("raw secret".to_string())));
    assert!(
        effects.contains(&Effect::EndConversation(EndReason::Errored {
            message: "Runtime error".to_string(),
            interrupted: true,
        }))
    );
    assert_eq!(
        effects[effects.len() - 2..],
        [Effect::AdvanceQueue, Effect::UntrackInFlight]
    );
}

#[test]
fn a_run_cancelled_in_the_queue_never_starts() {
    let (phase, effects) = run(
        CHAT,
        vec![
            Event::Dequeued,
            Event::InputClaimed(Ok(())),
            Event::CancelPolled(true),
            Event::Marked(Ok(true)),
            Event::VerdictRead(None),
        ],
    );
    assert_eq!(phase, Phase::Done);
    assert_eq!(
        effects,
        vec![
            Effect::TrackInFlight,
            Effect::RunCancelled,
            Effect::ActivityEnded,
            Effect::RemoveCancelToken,
            Effect::RemoveSenders,
            Effect::NotifyPeerCancelled,
            Effect::FinishEpisode { tool_calls: None },
            Effect::AdvanceQueue,
            Effect::UntrackInFlight,
        ]
    );
}

#[test]
fn a_cancellation_that_was_not_stored_is_told_as_a_failure() {
    let (phase, effects) = run(
        CHAT,
        vec![
            Event::Dequeued,
            Event::InputClaimed(Ok(())),
            Event::CancelPolled(true),
            Event::Marked(Ok(false)),
            Event::VerdictRead(Some(RunVerdict {
                terminal_reason: Some("persistence_failed".to_string()),
                error: Some("disk".to_string()),
            })),
            Event::Sanitised("Storage error".to_string()),
        ],
    );
    assert_eq!(phase, Phase::Done);
    assert!(effects.contains(&Effect::NotifyPeerFailed("Storage error".to_string())));
    assert!(!effects.contains(&Effect::RunCancelled));
}

#[test]
fn input_that_cannot_be_claimed_ends_the_run() {
    let (phase, effects) = run(
        CHAT,
        vec![
            Event::Dequeued,
            Event::InputClaimed(Err("gone".to_string())),
            Event::Marked(Ok(true)),
        ],
    );
    assert_eq!(phase, Phase::Done);
    assert_eq!(
        effects[1],
        Effect::RunError("Failed to claim accepted run input: gone".to_string())
    );
    assert_eq!(
        effects[effects.len() - 2..],
        [Effect::AdvanceQueue, Effect::UntrackInFlight]
    );
}

#[test]
fn a_budget_that_does_not_fit_has_its_code() {
    let setting = RunSetting {
        input_pre_persisted: false,
        internal: false,
        is_system_triggered: false,
    };
    let (phase, effects) = run(
        setting,
        vec![
            Event::Dequeued,
            Event::CancelPolled(false),
            Event::Resolved(Ok(config())),
            Event::BudgetChecked(Err("too much".to_string())),
            Event::Marked(Ok(true)),
            Event::Sanitised("Configuration error".to_string()),
        ],
    );
    assert_eq!(phase, Phase::Done);
    assert_eq!(
        effects[1],
        Effect::RunErrorWithCode {
            code: "INVALID_TOKEN_BUDGET_FOR_PROVIDER".to_string(),
            message: "too much".to_string(),
        }
    );
}

#[test]
fn a_runtime_that_cannot_be_built_leaves_a_marker() {
    let setting = RunSetting {
        input_pre_persisted: false,
        internal: false,
        is_system_triggered: false,
    };
    let (phase, effects) = run(
        setting,
        vec![
            Event::Dequeued,
            Event::CancelPolled(false),
            Event::Resolved(Ok(config())),
            Event::BudgetChecked(Ok(())),
            Event::Marked(Ok(true)),
            Event::RuntimeBuilt(Err(InitError {
                message: "bad key".to_string(),
                safe_reason: "Configuration error".to_string(),
            })),
            Event::Marked(Ok(true)),
            Event::Sanitised("Configuration error".to_string()),
        ],
    );
    assert_eq!(phase, Phase::Done);
    assert!(effects.contains(&Effect::RunError("bad key".to_string())));
    assert!(effects.contains(&Effect::MarkInitFailure("Configuration error".to_string())));
    assert!(effects.contains(&Effect::NotifyPeerFailed("Configuration error".to_string())));
}

#[test]
fn an_answer_to_another_question_changes_nothing() {
    let (phase, effects) = run(CHAT, vec![Event::Marked(Ok(true))]);
    assert_eq!(phase, Phase::Begin);
    assert!(effects.is_empty());
}

#[test]
fn a_completion_that_lost_the_race_is_not_announced() {
    let (phase, effects) = run(
        CHAT,
        until_running(vec![
            Event::Finished(Outcome::Completed(output(calls()))),
            Event::Marked(Ok(false)),
            Event::VerdictRead(None),
        ]),
    );
    assert_eq!(phase, Phase::Done);
    assert!(!effects.contains(&Effect::RunFinished(usage())));
    assert!(effects.contains(&Effect::EndConversation(EndReason::UserCancelled)));
}

#[test]
fn a_panic_leaves_nothing_open() {
    let (phase, effects) = reconcile_panic(GuardPhase::Marking, Event::Marked(Ok(true)));
    assert_eq!(phase, GuardPhase::Done);
    assert_eq!(panic_reason_text(), "Run panicked during execution");
    assert_eq!(
        effects.list[0],
        Effect::RunError("Run panicked during execution".to_string())
    );
    assert_eq!(effects.list.last(), Some(&Effect::AdvanceQueue));
    let (phase, effects) = reconcile_panic(GuardPhase::Marking, Event::Marked(Ok(false)));
    assert_eq!(phase, GuardPhase::Done);
    assert_eq!(effects.list[0], Effect::ActivityEnded);
}

#[test]
fn a_panic_that_was_not_stored_is_sanitised_for_the_peer() {
    let (phase, effects) = reconcile_panic(
        GuardPhase::Marking,
        Event::Marked(Err("/var/db: disk".to_string())),
    );
    assert_eq!(
        effects.list,
        vec![Effect::RunError(
            "Run panic could not be persisted: /var/db: disk".to_string()
        )]
    );
    let (phase, effects) = reconcile_panic(phase, Event::Sanitised("Storage error".to_string()));
    assert_eq!(phase, GuardPhase::Done);
    assert_eq!(
        effects.list[0],
        Effect::EndConversation(EndReason::Errored {
            message: "Run panic could not be persisted: Storage error".to_string(),
            interrupted: true,
        })
    );
}
