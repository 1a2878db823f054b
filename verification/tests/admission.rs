use alms_runs::admission::RunAdmissionGates;
use alms_runs::cancel::{
    cancel_response, cancel_run, cancel_subagent, CancelEffect, CancelEvent, CancelPhase,
    CancelReply, RunSnapshot,
};
use alms_runs::create::{
    admission_message, create_run, created_response, evaluate_pre_flight_token_budget, queue_admission_error,
    refusal_response, AdmissionError, CreateEffect, CreateEvent, CreatePhase, MissingModel, Refusal,
    SessionFacts, TokenBudgetError, ValidationMode,
};
use alms_runs::enqueue::{
    enqueue_triggered_run, queue_closed_text, queued_behind, EnqueueEffect, EnqueueEvent,
    EnqueuePhase, QueueReceipt, TriggeredRun,
};
use alms_runs::job_card::RunStatus;
use alms_runs::launch::RunRequest;
use alms_runs::messages::{Content, Role};
use alms_runs::metadata::{MetaValue, Metadata, Scalar};

fn text(body: &Metadata, key: &str) -> String {
    match body.get(key) {
        Some(MetaValue::Single(Scalar::Text(t))) => t.clone(),
        other => panic!("{key}: {other:?}"),
    }
}

fn error(body: &Metadata) -> (String, String) {
    let entries = match body.get("error") {
        Some(MetaValue::Group(entries)) => entries,
        other => panic!("error: {other:?}"),
    };
    let field = |key: &str| match entries.iter().find(|(k, _)| k == key) {
        Some((_, Scalar::Text(t))) => t.clone(),
        other => panic!("{key}: {other:?}"),
    };
    (field("code"), field("message"))
}

#[test]
fn the_last_lease_takes_its_gate_along() {
    let mut gates = RunAdmissionGates::new();
    assert_eq!(gates.lease_count(1), 0);
    assert!(gates.lease(1), "the first lease makes a gate");
    assert!(!gates.lease(1));
    assert!(gates.lease(2));
    assert_eq!(gates.lease_count(1), 2);
    assert!(!gates.release(1));
    assert_eq!(gates.lease_count(1), 1);
    assert!(gates.release(1));
    assert_eq!(gates.lease_count(1), 0);
    assert_eq!(gates.lease_count(2), 1);
    assert!(gates.lease(1), "a new gate replaces the one that is gone");
}

fn facts(agent_id: u128, context_id: &str) -> SessionFacts<String> {
    SessionFacts {
        id: 1,
        agent_id,
        context_id: context_id.to_string(),
    }
}

fn look(
    requested: Option<u128>,
    session: Option<SessionFacts<String>>,
    shutting_down: bool,
) -> CreatePhase<String> {
    let (next, effects) = create_run(
        requested,
        CreatePhase::Looking,
        CreateEvent::Looked {
            session,
            shutting_down,
        },
    );
    assert!(effects.is_empty());
    next
}

fn refused(phase: CreatePhase<String>) -> (u16, String, String) {
    match phase {
        CreatePhase::Refused(refusal) => {
            let (status, body) = refusal_response(&refusal);
            match body.body.get("error") {
                Some(_) => {
                    let (code, message) = error(&body.body);
                    (status, code, message)
                }
                None => (
                    status,
                    text(&body.body, "error_code"),
                    text(&body.body, "message"),
                ),
            }
        }
        other => panic!("expected a refusal, got {other:?}"),
    }
}

#[test]
fn requests_are_checked_in_order() {
    assert_eq!(
        refused(look(None, None, true)),
        (404, "NOT_FOUND".to_string(), "Session not found".to_string())
    );
    assert_eq!(
        refused(look(Some(8), Some(facts(7, "web")), true)),
        (
            400,
            "AGENT_SESSION_MISMATCH".to_string(),
            "Session belongs to a different agent".to_string()
        )
    );
    assert_eq!(
        refused(look(None, Some(facts(0, "web")), true)),
        (
            400,
            "AGENT_ID_REQUIRED".to_string(),
            "Shared sessions require agent_id so per-agent config can be resolved".to_string()
        )
    );
    assert_eq!(
        refused(look(None, Some(facts(7, "dm:a:b")), true)),
        (
            503,
            "SHUTTING_DOWN".to_string(),
            "Server is shutting down".to_string()
        )
    );
    assert_eq!(
        refused(look(None, Some(facts(7, "dm:a:b")), false)),
        (
            400,
            "DM_SESSION_NOT_DIRECTLY_RUNNABLE".to_string(),
            "DM sessions are agent-to-agent only; turns are triggered via send_message, not POST /runs."
                .to_string()
        )
    );
    assert_eq!(
        refused(look(None, Some(facts(7, "subagent_x")), false)),
        (
            400,
            "SUBAGENT_SESSION_NOT_DIRECTLY_RUNNABLE".to_string(),
            "Subagent sessions are coordinator-driven; turns are triggered via invoke_agent, not POST /runs."
                .to_string()
        )
    );
}

#[test]
fn the_session_decides_the_agent() {
    assert_eq!(
        look(None, Some(facts(7, "web")), false),
        CreatePhase::Resolving(7)
    );
    assert_eq!(
        look(Some(7), Some(facts(7, "web")), false),
        CreatePhase::Resolving(7)
    );
    assert_eq!(
        look(Some(9), Some(facts(0, "web")), false),
        CreatePhase::Resolving(9)
    );
}

fn step(
    phase: CreatePhase<String>,
    event: CreateEvent<String>,
) -> (CreatePhase<String>, Vec<CreateEffect>) {
    create_run(None, phase, event)
}

#[test]
fn an_accepted_run_holds_its_gate_until_it_is_announced() {
    let (p, e) = step(CreatePhase::Resolving(7), CreateEvent::Resolved(None));
    assert_eq!((p, e), (CreatePhase::Budgeting(7), vec![]));
    let (p, e) = step(CreatePhase::Budgeting(7), CreateEvent::Budgeted(None));
    assert_eq!(p, CreatePhase::Rechecking(7));
    assert_eq!(e, vec![CreateEffect::AcquireGate]);
    let (p, _) = step(p, CreateEvent::Rechecked(true));
    assert_eq!(p, CreatePhase::Reserving(7));
    let (p, _) = step(p, CreateEvent::Reserved(None));
    assert_eq!(p, CreatePhase::Persisting(7));
    let (p, _) = step(p, CreateEvent::Persisted(Ok(true)));
    assert_eq!(
        p,
        CreatePhase::Appending {
            agent: 7,
            durable: true
        }
    );
    let (p, _) = step(p, CreateEvent::Appended(None));
    assert_eq!(p, CreatePhase::Inserting(7));
    let (p, e) = step(p, CreateEvent::Inserted(None));
    assert_eq!(p, CreatePhase::Submitting(7));
    assert_eq!(e, vec![CreateEffect::RegisterToken]);
    let (p, e) = step(
        p,
        CreateEvent::Submitted(Ok(QueueReceipt {
            queued_ahead: 2,
            agent_running: true,
        })),
    );
    assert_eq!(p, CreatePhase::Created(7));
    assert_eq!(
        e,
        vec![
            CreateEffect::PublishCreated { queued_behind: 3 },
            CreateEffect::LetStart,
            CreateEffect::ReleaseGate
        ]
    );
}

#[test]
fn a_refusal_inside_the_boundary_returns_what_it_holds() {
    let (p, e) = step(CreatePhase::Rechecking(7), CreateEvent::Rechecked(false));
    assert_eq!(
        refused(p),
        (
            404,
            "SESSION_NOT_FOUND".to_string(),
            "Session not found".to_string()
        )
    );
    assert_eq!(e, vec![CreateEffect::ReleaseGate]);
    let (p, e) = step(
        CreatePhase::Persisting(7),
        CreateEvent::Persisted(Err("disk".to_string())),
    );
    assert_eq!(
        refused(p),
        (
            500,
            "LIFECYCLE_PERSISTENCE_FAILED".to_string(),
            "Failed to persist run admission: disk".to_string()
        )
    );
    assert_eq!(
        e,
        vec![CreateEffect::ReleasePlace, CreateEffect::ReleaseGate]
    );
    for (durable, message) in [
        (true, "Failed to publish persisted run input: gone"),
        (false, "Failed to publish run input: gone"),
    ] {
        let (p, _) = step(
            CreatePhase::Appending { agent: 7, durable },
            CreateEvent::Appended(Some("gone".to_string())),
        );
        assert_eq!(
            refused(p),
            (
                500,
                "ADMISSION_PROJECTION_FAILED".to_string(),
                message.to_string()
            )
        );
    }
    let (p, _) = step(
        CreatePhase::Inserting(7),
        CreateEvent::Inserted(Some("gone".to_string())),
    );
    assert_eq!(
        refused(p),
        (
            500,
            "ADMISSION_PROJECTION_FAILED".to_string(),
            "Failed to publish persisted run: gone".to_string()
        )
    );
}

#[test]
fn a_queue_that_closed_leaves_a_failed_run() {
    let (p, e) = step(
        CreatePhase::Submitting(7),
        CreateEvent::Submitted(Err(AdmissionError::DispatchClosed)),
    );
    assert_eq!(p, CreatePhase::MarkingFailed(AdmissionError::DispatchClosed));
    assert!(e.is_empty());
    let (next, e) = step(p.clone(), CreateEvent::FailureMarked(None));
    assert_eq!(
        refused(next),
        (
            503,
            "QUEUE_UNAVAILABLE".to_string(),
            "Run queue is unavailable while the gateway is shutting down".to_string()
        )
    );
    assert_eq!(
        e,
        vec![CreateEffect::RemoveToken, CreateEffect::ReleaseGate]
    );
    let (next, _) = step(p, CreateEvent::FailureMarked(Some("disk".to_string())));
    assert_eq!(
        refused(next),
        (
            500,
            "LIFECYCLE_PERSISTENCE_FAILED".to_string(),
            "Run dispatch failure could not be persisted: disk".to_string()
        )
    );
}

#[test]
fn a_full_queue_may_be_tried_again() {
    for (full, code, message) in [
        (
            AdmissionError::PerKeyFull,
            "AGENT_QUEUE_FULL",
            "This agent has reached its pending run limit",
        ),
        (
            AdmissionError::GlobalFull,
            "GATEWAY_QUEUE_FULL",
            "The gateway has reached its pending run limit",
        ),
    ] {
        let (status, body) = queue_admission_error(full);
        assert_eq!(status, 429);
        assert_eq!(text(&body.body, "error_code"), code);
        assert_eq!(text(&body.body, "message"), message);
        assert_eq!(
            body.body.get("retryable"),
            Some(&MetaValue::Single(Scalar::Flag(true)))
        );
        assert_eq!(
            body.body.get("retry_after_ms"),
            Some(&MetaValue::Single(Scalar::Count(1000)))
        );
        assert_eq!(body.retry_after.as_deref(), Some("1"));
    }
    let (status, body) = queue_admission_error(AdmissionError::ShuttingDown);
    assert_eq!(status, 503);
    assert_eq!(error(&body.body).0, "QUEUE_UNAVAILABLE");
    assert_eq!(body.retry_after, None);
}

fn overrun() -> TokenBudgetError<String> {
    TokenBudgetError {
        provider: "p".to_string(),
        model: "m".to_string(),
        max_input_tokens: 10,
        max_tokens: 5,
        effective_total: 15,
        provider_cap: 12,
        message: "too much".to_string(),
    }
}

#[test]
fn a_budget_is_enforced_in_strict_mode_only() {
    assert!(
        evaluate_pre_flight_token_budget(true, Err(overrun()), ValidationMode::Strict).is_ok()
    );
    assert!(evaluate_pre_flight_token_budget(false, Err(overrun()), ValidationMode::Warn).is_ok());
    assert!(evaluate_pre_flight_token_budget(false, Ok(()), ValidationMode::Strict).is_ok());
    assert_eq!(
        evaluate_pre_flight_token_budget(false, Err(overrun()), ValidationMode::Strict),
        Err(overrun())
    );
}

#[test]
fn configuration_refusals_carry_their_details() {
    let (status, body) = refusal_response(&Refusal::Budget {
        agent_id: 1,
        error: overrun(),
    });
    assert_eq!(status, 400);
    assert_eq!(
        text(&body.body, "error_code"),
        "INVALID_TOKEN_BUDGET_FOR_PROVIDER"
    );
    assert_eq!(text(&body.body, "message"), "too much");
    assert_eq!(
        text(&body.body, "agent_id"),
        "00000000-0000-0000-0000-000000000001"
    );
    assert_eq!(
        body.body.get("provider_cap"),
        Some(&MetaValue::Single(Scalar::Count(12)))
    );
    let (status, body) = refusal_response(&Refusal::MissingModel(MissingModel {
        agent_id: 1,
        agent_label: "a1".to_string(),
        new_provider: "anthropic".to_string(),
        prev_provider: "openrouter".to_string(),
    }));
    assert_eq!(status, 400);
    assert_eq!(
        text(&body.body, "error_code"),
        "MISSING_MODEL_AFTER_PROVIDER_SWITCH"
    );
    assert_eq!(
        text(&body.body, "message"),
        "agent a1 overrides provider to anthropic but no model was supplied; previous provider \
         openrouter's default cannot be reused"
    );
    assert_eq!(text(&body.body, "new_provider"), "anthropic");
    assert_eq!(text(&body.body, "prev_provider"), "openrouter");
}

#[test]
fn an_accepted_input_waits_for_its_run() {
    let message = admission_message(1, "hello".to_string(), 6);
    assert_eq!(message.role, Role::User);
    assert_eq!(message.content, Content::Text("hello".to_string()));
    let metadata = message.metadata.unwrap();
    assert_eq!(
        metadata.get("pending_input"),
        Some(&MetaValue::Single(Scalar::Flag(true)))
    );
    assert_eq!(
        text(&metadata, "run_id"),
        "00000000-0000-0000-0000-000000000001"
    );
}

fn cancel(
    phase: CancelPhase<String>,
    event: CancelEvent<String>,
) -> (CancelPhase<String>, Vec<CancelEffect<String>>) {
    cancel_run(phase, event)
}

#[test]
fn only_open_runs_can_be_cancelled() {
    let read = |status, has_token| {
        cancel(
            CancelPhase::Reading,
            CancelEvent::RunRead(Some(RunSnapshot { status, has_token })),
        )
        .0
    };
    assert_eq!(read(RunStatus::Queued, true), CancelPhase::Marking);
    assert_eq!(read(RunStatus::Running, true), CancelPhase::Marking);
    for over in [
        RunStatus::Completed,
        RunStatus::Failed,
        RunStatus::Cancelled,
    ] {
        assert_eq!(
            read(over, true),
            CancelPhase::Replying(CancelReply::AlreadyFinished)
        );
    }
    assert_eq!(
        read(RunStatus::Running, false),
        CancelPhase::Replying(CancelReply::AlreadyFinished)
    );
    assert_eq!(
        cancel(CancelPhase::Reading, CancelEvent::RunRead(None)).0,
        CancelPhase::Replying(CancelReply::NotFound)
    );
}

#[test]
fn a_cancellation_is_published_once() {
    let (p, e) = cancel(CancelPhase::Marking, CancelEvent::Marked(Ok(true)));
    assert_eq!(p, CancelPhase::Replying(CancelReply::Cancelled));
    assert_eq!(
        e,
        vec![CancelEffect::SignalToken, CancelEffect::RunCancelled]
    );
    let (p, e) = cancel(CancelPhase::Marking, CancelEvent::Marked(Ok(false)));
    assert_eq!(p, CancelPhase::Rereading);
    assert!(e.is_empty());
    assert_eq!(
        cancel(
            CancelPhase::Rereading,
            CancelEvent::StatusRead(Some(RunStatus::Cancelled))
        )
        .0,
        CancelPhase::Replying(CancelReply::Cancelled)
    );
    assert_eq!(
        cancel(
            CancelPhase::Rereading,
            CancelEvent::StatusRead(Some(RunStatus::Completed))
        )
        .0,
        CancelPhase::Replying(CancelReply::AlreadyFinished)
    );
}

#[test]
fn a_cancellation_that_is_not_stored_stops_the_run() {
    let (p, e) = cancel(
        CancelPhase::Marking,
        CancelEvent::Marked(Err("disk".to_string())),
    );
    let message = "Run cancellation could not be committed: disk".to_string();
    assert_eq!(
        e,
        vec![
            CancelEffect::SignalToken,
            CancelEffect::RunError(message.clone()),
            CancelEffect::ActivityEnded,
        ]
    );
    let reply = CancelReply::NotCommitted(message.clone());
    assert_eq!(p, CancelPhase::Replying(reply.clone()));
    let refused = cancel_response(1, &reply).unwrap_err();
    assert_eq!(refused.status, 500);
    assert_eq!(
        error(&refused.body),
        ("LIFECYCLE_PERSISTENCE_FAILED".to_string(), message)
    );
}

#[test]
fn replies_to_a_cancellation_name_the_run() {
    let body = cancel_response(1, &CancelReply::Cancelled).unwrap();
    assert_eq!(
        text(&body, "run_id"),
        "00000000-0000-0000-0000-000000000001"
    );
    assert_eq!(text(&body, "status"), "cancelled");
    let missing = cancel_response(1, &CancelReply::NotFound).unwrap_err();
    assert_eq!(missing.status, 404);
    assert_eq!(error(&missing.body).1, "Run not found");
    let over = cancel_response(1, &CancelReply::AlreadyFinished).unwrap_err();
    assert_eq!(over.status, 409);
    assert_eq!(
        error(&over.body),
        (
            "ALREADY_FINISHED".to_string(),
            "Run already finished".to_string()
        )
    );
}

#[test]
fn cancel_subagent_endpoint_404_when_no_live_subagent() {
    let refused = cancel_subagent(1, false).unwrap_err();
    assert_eq!(
        refused.status, 404,
        "a session with no live subagent must 404"
    );
    assert_eq!(
        error(&refused.body).0,
        "NO_LIVE_SUBAGENT",
        "error code must be NO_LIVE_SUBAGENT"
    );
}

#[test]
fn cancelling_a_live_subagent_is_confirmed() {
    let body = cancel_subagent(1, true).unwrap();
    assert_eq!(text(&body, "status"), "cancelling");
    assert_eq!(
        text(&body, "session_id"),
        "00000000-0000-0000-0000-000000000001"
    );
}

fn triggered(context_id: &str, deterministic: bool, job_id: Option<u128>) -> TriggeredRun {
    TriggeredRun {
        request: RunRequest {
            agent_id: 2,
            session_id: 1,
            context_id: context_id.to_string(),
            input: "go on".to_string(),
            source_label: "peer".to_string(),
            is_peer_message: false,
            job_id,
            dm_ended_peer: None,
        },
        deterministic,
    }
}

#[test]
fn an_accepted_run_is_answered_with_its_id() {
    let (status, reply) = created_response(7, 8, 9);
    assert_eq!(status, 201);
    assert_eq!(reply.run_id, 7);
    assert_eq!(reply.session_id, 8);
    assert_eq!(reply.status, RunStatus::Queued);
    assert_eq!(reply.ts, 9);
}

#[test]
fn interleaved_leases_keep_one_gate_until_the_last_returns() {
    let mut gates = RunAdmissionGates::new();
    assert!(gates.lease(1));
    assert!(gates.lease(2));
    assert!(!gates.lease(1));
    assert!(!gates.release(1));
    assert!(!gates.lease(1));
    assert_eq!(gates.lease_count(1), 2);
    assert!(gates.release(2));
    assert_eq!(gates.lease_count(2), 0);
    assert!(!gates.release(1));
    assert!(gates.release(1));
    assert_eq!(gates.lease_count(1), 0);
    assert!(gates.lease(1));
}

#[test]
fn a_triggered_run_is_noted_before_it_is_queued() {
    let run = triggered("job_x", false, Some(4));
    let (p, e) = enqueue_triggered_run(&run, EnqueuePhase::Reserving, EnqueueEvent::Reserved(true));
    assert_eq!(p, EnqueuePhase::FindingSession);
    assert_eq!(e, vec![EnqueueEffect::AcquireGate]);
    let (p, e) = enqueue_triggered_run(&run, p, EnqueueEvent::SessionRead(Some(1)));
    assert_eq!(p, EnqueuePhase::CheckingIntent);
    assert_eq!(e, vec![EnqueueEffect::AcquireCancelLock]);
    let (p, e) = enqueue_triggered_run(&run, p, EnqueueEvent::IntentRead(false));
    assert_eq!(p, EnqueuePhase::Inserting);
    assert_eq!(e, vec![EnqueueEffect::RegisterToken]);
    let (p, e) = enqueue_triggered_run(&run, p, EnqueueEvent::Inserted(true));
    assert_eq!(p, EnqueuePhase::Submitting);
    assert_eq!(
        e,
        vec![
            EnqueueEffect::NoteRun(4),
            EnqueueEffect::ReleaseCancelLock,
            EnqueueEffect::ReleaseGate,
        ]
    );
    let (p, e) = enqueue_triggered_run(
        &run,
        p,
        EnqueueEvent::Submitted(Some(QueueReceipt {
            queued_ahead: 1,
            agent_running: false,
        })),
    );
    assert_eq!(p, EnqueuePhase::Enqueued);
    assert_eq!(
        e,
        vec![
            EnqueueEffect::PublishCreated { queued_behind: 1 },
            EnqueueEffect::LetStart,
        ]
    );
}

#[test]
fn every_suppression_gives_the_reserved_turn_back() {
    let run = triggered("job_x", false, Some(4));
    let given_up: Vec<EnqueueEffect<String>> = vec![
        EnqueueEffect::ReleaseGate,
        EnqueueEffect::ReleasePlace,
        EnqueueEffect::AbandonContinuation,
    ];
    assert_eq!(
        enqueue_triggered_run(&run, EnqueuePhase::Reserving, EnqueueEvent::Reserved(false)),
        (
            EnqueuePhase::Suppressed,
            vec![EnqueueEffect::AbandonContinuation]
        )
    );
    assert_eq!(
        enqueue_triggered_run(
            &run,
            EnqueuePhase::FindingSession,
            EnqueueEvent::SessionRead(None)
        ),
        (EnqueuePhase::Suppressed, given_up.clone())
    );
    assert_eq!(
        enqueue_triggered_run(
            &run,
            EnqueuePhase::FindingSession,
            EnqueueEvent::SessionRead(Some(2))
        ),
        (EnqueuePhase::Suppressed, given_up.clone())
    );
    let mut cancelled = vec![EnqueueEffect::ReleaseCancelLock];
    cancelled.extend(given_up.clone());
    assert_eq!(
        enqueue_triggered_run(
            &run,
            EnqueuePhase::CheckingIntent,
            EnqueueEvent::IntentRead(true)
        ),
        (EnqueuePhase::Suppressed, cancelled.clone())
    );
    let mut not_stored = vec![EnqueueEffect::RemoveToken];
    not_stored.extend(cancelled);
    assert_eq!(
        enqueue_triggered_run(&run, EnqueuePhase::Inserting, EnqueueEvent::Inserted(false)),
        (EnqueuePhase::Suppressed, not_stored)
    );
}

#[test]
fn only_notification_sessions_are_opened_by_a_run() {
    let opened = |context: &str, deterministic| {
        enqueue_triggered_run(
            &triggered(context, deterministic, None),
            EnqueuePhase::FindingSession,
            EnqueueEvent::SessionRead(None),
        )
        .0
    };
    assert_eq!(
        opened("notifications:bob", true),
        EnqueuePhase::CreatingSession
    );
    assert_eq!(
        opened("notifications:bob", false),
        EnqueuePhase::Suppressed
    );
    assert_eq!(opened("web", true), EnqueuePhase::Suppressed);
    let run = triggered("notifications:bob", true, None);
    assert_eq!(
        enqueue_triggered_run(
            &run,
            EnqueuePhase::CreatingSession,
            EnqueueEvent::SessionCreated(Some(1))
        )
        .0,
        EnqueuePhase::CheckingIntent
    );
    assert_eq!(
        enqueue_triggered_run(
            &run,
            EnqueuePhase::CreatingSession,
            EnqueueEvent::SessionCreated(None)
        )
        .0,
        EnqueuePhase::Suppressed
    );
}

#[test]
fn a_triggered_run_that_its_queue_did_not_take_is_over() {
    let run = triggered("job_x", false, Some(4));
    let (p, e) =
        enqueue_triggered_run(&run, EnqueuePhase::Submitting, EnqueueEvent::Submitted(None));
    assert_eq!(p, EnqueuePhase::MarkingFailed);
    assert!(e.is_empty());
    assert_eq!(queue_closed_text(), "Run queue closed before dispatch");
    assert_eq!(
        enqueue_triggered_run(&run, p, EnqueueEvent::FailureMarked(None)),
        (
            EnqueuePhase::Suppressed,
            vec![EnqueueEffect::RemoveToken, EnqueueEffect::FinishEpisode]
        )
    );
    assert_eq!(
        enqueue_triggered_run(&run, p, EnqueueEvent::FailureMarked(Some("disk".to_string()))).1[0],
        EnqueueEffect::RunError(
            "Triggered run dispatch failure could not be persisted: disk".to_string()
        )
    );
}

#[test]
fn the_running_run_counts_as_one_ahead() {
    let place = |queued_ahead, agent_running| {
        queued_behind(&QueueReceipt {
            queued_ahead,
            agent_running,
        })
    };
    assert_eq!(place(0, false), 0);
    assert_eq!(place(0, true), 1);
    assert_eq!(place(4, true), 5);
}
