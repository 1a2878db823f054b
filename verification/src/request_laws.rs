//! What requests for runs and against them come to, stated of the operations
//! and their results.

use crate::admission::{all_leased, lease_count, RunAdmissionGates};
use crate::cancel::{
    cancel_effects, cancel_response, cancel_run, cancel_subagent, CancelEffect, CancelEvent,
    CancelPhase, CancelReply,
};
use crate::clock::Nanos;
use crate::context::text_of;
use crate::create::{
    admission_message, create_run, created_response, evaluate_pre_flight_token_budget,
    pre_flight_token_budget, queue_admission_error, refusal_response, AdmissionError, CreateEffect,
    CreateEvent, CreatePhase, CreateRunResponse, MissingModel, Refusal, RunCreationErrorBody,
    SessionFacts, TokenBudgetError, ValidationMode,
};
use crate::enqueue::{
    effects_view, enqueue_triggered_run, queue_closed_text, queued_behind, EnqueueEffect,
    EnqueueEvent, EnqueuePhase, QueueReceipt, TriggeredRun,
};
use crate::ids::{uuid_text, AgentId, RunId, SessionId};
use crate::job_card::RunStatus;
use crate::messages::{Message, Role};
use crate::metadata::{count_value, flag_value, text_value, MetaView, Metadata};
use crate::notice_laws::{noted, shown};
use crate::read_laws::lemma_prefixes_exclude_each_other;
use crate::replies::ApiError;
use crate::reply_laws::{answers_with, code_of, lemma_error_object, message_of};
use crate::text::begins_with;
use vstd::prelude::*;

verus! {

/// The entry under `key`, if it is there.
pub open spec fn entry(body: Map<Seq<char>, MetaView>, key: Seq<char>) -> Option<MetaView> {
    if body.contains_key(key) {
        Some(body[key])
    } else {
        None
    }
}

/// The entries of the refusals of full queues and of sessions have different names.
pub proof fn lemma_session_refusal_keys()
    ensures
        "error_code"@ != "message"@,
        "error_code"@ != "retryable"@,
        "error_code"@ != "retry_after_ms"@,
        "error_code"@ != "session_id"@,
        "error_code"@ != "context_id"@,
        "message"@ != "retryable"@,
        "message"@ != "retry_after_ms"@,
        "message"@ != "session_id"@,
        "message"@ != "context_id"@,
        "retryable"@ != "retry_after_ms"@,
        "retryable"@ != "session_id"@,
        "retryable"@ != "context_id"@,
        "retry_after_ms"@ != "session_id"@,
        "retry_after_ms"@ != "context_id"@,
        "session_id"@ != "context_id"@,
{
    reveal_strlit("error_code");
    reveal_strlit("message");
    reveal_strlit("retryable");
    reveal_strlit("retry_after_ms");
    reveal_strlit("session_id");
    reveal_strlit("context_id");
    assert("error_code"@.len() != "message"@.len());
    assert("error_code"@.len() != "retryable"@.len());
    assert("error_code"@.len() != "retry_after_ms"@.len());
    assert("error_code"@[0] != "session_id"@[0]);
    assert("error_code"@[0] != "context_id"@[0]);
    assert("message"@.len() != "retryable"@.len());
    assert("message"@.len() != "retry_after_ms"@.len());
    assert("message"@.len() != "session_id"@.len());
    assert("message"@.len() != "context_id"@.len());
    assert("retryable"@.len() != "retry_after_ms"@.len());
    assert("retryable"@.len() != "session_id"@.len());
    assert("retryable"@.len() != "context_id"@.len());
    assert("retry_after_ms"@.len() != "session_id"@.len());
    assert("retry_after_ms"@.len() != "context_id"@.len());
    assert("session_id"@[0] != "context_id"@[0]);
}

/// The entries of the refusal of a provider without a model have different names.
pub proof fn lemma_model_refusal_keys()
    ensures
        "error_code"@ != "message"@,
        "error_code"@ != "agent_id"@,
        "error_code"@ != "new_provider"@,
        "error_code"@ != "prev_provider"@,
        "message"@ != "agent_id"@,
        "message"@ != "new_provider"@,
        "message"@ != "prev_provider"@,
        "agent_id"@ != "new_provider"@,
        "agent_id"@ != "prev_provider"@,
        "new_provider"@ != "prev_provider"@,
{
    reveal_strlit("error_code");
    reveal_strlit("message");
    reveal_strlit("agent_id");
    reveal_strlit("new_provider");
    reveal_strlit("prev_provider");
    assert("error_code"@.len() != "message"@.len());
    assert("error_code"@.len() != "agent_id"@.len());
    assert("error_code"@.len() != "new_provider"@.len());
    assert("error_code"@.len() != "prev_provider"@.len());
    assert("message"@.len() != "agent_id"@.len());
    assert("message"@.len() != "new_provider"@.len());
    assert("message"@.len() != "prev_provider"@.len());
    assert("agent_id"@.len() != "new_provider"@.len());
    assert("agent_id"@.len() != "prev_provider"@.len());
    assert("new_provider"@.len() != "prev_provider"@.len());
}

/// The entries of the refusal of a token budget have different names.
pub proof fn lemma_budget_refusal_keys()
    ensures
        "error_code"@ != "message"@,
        "error_code"@ != "agent_id"@,
        "error_code"@ != "provider"@,
        "error_code"@ != "model"@,
        "error_code"@ != "max_input_tokens"@,
        "error_code"@ != "max_tokens"@,
        "error_code"@ != "effective_total"@,
        "error_code"@ != "provider_cap"@,
        "message"@ != "agent_id"@,
        "message"@ != "provider"@,
        "message"@ != "model"@,
        "message"@ != "max_input_tokens"@,
        "message"@ != "max_tokens"@,
        "message"@ != "effective_total"@,
        "message"@ != "provider_cap"@,
        "agent_id"@ != "provider"@,
        "agent_id"@ != "model"@,
        "agent_id"@ != "max_input_tokens"@,
        "agent_id"@ != "max_tokens"@,
        "agent_id"@ != "effective_total"@,
        "agent_id"@ != "provider_cap"@,
        "provider"@ != "model"@,
        "provider"@ != "max_input_tokens"@,
        "provider"@ != "max_tokens"@,
        "provider"@ != "effective_total"@,
        "provider"@ != "provider_cap"@,
        "model"@ != "max_input_tokens"@,
        "model"@ != "max_tokens"@,
        "model"@ != "effective_total"@,
        "model"@ != "provider_cap"@,
        "max_input_tokens"@ != "max_tokens"@,
        "max_input_tokens"@ != "effective_total"@,
        "max_input_tokens"@ != "provider_cap"@,
        "max_tokens"@ != "effective_total"@,
        "max_tokens"@ != "provider_cap"@,
        "effective_total"@ != "provider_cap"@,
{
    reveal_strlit("error_code");
    reveal_strlit("message");
    reveal_strlit("agent_id");
    reveal_strlit("provider");
    reveal_strlit("model");
    reveal_strlit("max_input_tokens");
    reveal_strlit("max_tokens");
    reveal_strlit("effective_total");
    reveal_strlit("provider_cap");
    assert("error_code"@.len() != "message"@.len());
    assert("error_code"@.len() != "agent_id"@.len());
    assert("error_code"@.len() != "provider"@.len());
    assert("error_code"@.len() != "model"@.len());
    assert("error_code"@.len() != "max_input_tokens"@.len());
    assert("error_code"@[0] != "max_tokens"@[0]);
    assert("error_code"@.len() != "effective_total"@.len());
    assert("error_code"@.len() != "provider_cap"@.len());
    assert("message"@.len() != "agent_id"@.len());
    assert("message"@.len() != "provider"@.len());
    assert("message"@.len() != "model"@.len());
    assert("message"@.len() != "max_input_tokens"@.len());
    assert("message"@.len() != "max_tokens"@.len());
    assert("message"@.len() != "effective_total"@.len());
    assert("message"@.len() != "provider_cap"@.len());
    assert("agent_id"@[0] != "provider"@[0]);
    assert("agent_id"@.len() != "model"@.len());
    assert("agent_id"@.len() != "max_input_tokens"@.len());
    assert("agent_id"@.len() != "max_tokens"@.len());
    assert("agent_id"@.len() != "effective_total"@.len());
    assert("agent_id"@.len() != "provider_cap"@.len());
    assert("provider"@.len() != "model"@.len());
    assert("provider"@.len() != "max_input_tokens"@.len());
    assert("provider"@.len() != "max_tokens"@.len());
    assert("provider"@.len() != "effective_total"@.len());
    assert("provider"@.len() != "provider_cap"@.len());
    assert("model"@.len() != "max_input_tokens"@.len());
    assert("model"@.len() != "max_tokens"@.len());
    assert("model"@.len() != "effective_total"@.len());
    assert("model"@.len() != "provider_cap"@.len());
    assert("max_input_tokens"@.len() != "max_tokens"@.len());
    assert("max_input_tokens"@.len() != "effective_total"@.len());
    assert("max_input_tokens"@.len() != "provider_cap"@.len());
    assert("max_tokens"@.len() != "effective_total"@.len());
    assert("max_tokens"@.len() != "provider_cap"@.len());
    assert("effective_total"@.len() != "provider_cap"@.len());
}

/// A request for a run goes on exactly when the session is there and is open to
/// requests, the agent that is asked for is the one that owns it, or any agent
/// where the session is shared, and the gateway is not shutting down. Then it
/// goes on for the agent that was asked for, or else for the owner.
pub proof fn law_request_needs_an_open_session(
    requested: Option<AgentId>,
    session: Option<SessionFacts<String>>,
    shutting_down: bool,
    next: CreatePhase<String>,
    effects: Vec<CreateEffect>,
)
    requires
        call_ensures(
            create_run,
            (requested, CreatePhase::Looking, CreateEvent::Looked { session, shutting_down }),
            (next, effects),
        ),
    ensures
        effects@.len() == 0,
        session is None ==> next == CreatePhase::<String>::Refused(Refusal::NoSession),
        session matches Some(s) ==> {
            let other = s.agent_id != 0 && requested is Some && requested->0 != s.agent_id;
            let nobody = s.agent_id == 0 && requested is None;
            let dm = begins_with(s.context_id@, "dm:"@);
            let subagent = begins_with(s.context_id@, "subagent_"@);
            &&& other ==> next == CreatePhase::<String>::Refused(Refusal::AgentMismatch)
            &&& nobody ==> next == CreatePhase::<String>::Refused(Refusal::AgentRequired)
            &&& !other && !nobody && shutting_down ==> next == CreatePhase::<String>::Refused(
                Refusal::ShuttingDown,
            )
            &&& !other && !nobody && !shutting_down && dm ==> (next matches CreatePhase::Refused(
                Refusal::DmSession { session_id, context_id },
            ) && session_id == s.id && context_id@ == s.context_id@)
            &&& !other && !nobody && !shutting_down && subagent ==> (next matches
                CreatePhase::Refused(Refusal::SubagentSession { session_id, context_id })
                && session_id == s.id && context_id@ == s.context_id@)
            &&& !other && !nobody && !shutting_down && !dm && !subagent ==> (next matches
                CreatePhase::Resolving(agent) && agent == match requested {
                Some(wanted) => wanted,
                None => s.agent_id,
            })
        },
{
    if let Some(s) = session {
        lemma_prefixes_exclude_each_other(s.context_id@);
        reveal_strlit("dm");
        reveal_strlit("notification");
        reveal_strlit("job");
        reveal_strlit("subagent");
        reveal_strlit("telegram");
        reveal_strlit("episodic");
        reveal_strlit("chat");
        assert("subagent"@.len() != "dm"@.len() && "subagent"@.len() != "notification"@.len());
        assert("subagent"@.len() != "job"@.len() && "subagent"@.len() != "chat"@.len());
        assert("subagent"@[0] != "telegram"@[0] && "subagent"@[0] != "episodic"@[0]);
    }
}

/// From there on the admission goes forward with the same agent as long as
/// every answer is good; the first bad one ends it with a refusal that says
/// which, and what was held by then is given back.
pub proof fn law_first_bad_answer_refuses(
    requested: Option<AgentId>,
    phase: CreatePhase<String>,
    event: CreateEvent<String>,
    next: CreatePhase<String>,
    effects: Vec<CreateEffect>,
)
    requires
        call_ensures(create_run, (requested, phase, event), (next, effects)),
    ensures
        phase matches CreatePhase::Resolving(agent) ==> (event matches CreateEvent::Resolved(m) ==> {
            &&& effects@.len() == 0
            &&& m is None ==> next == CreatePhase::<String>::Budgeting(agent)
            &&& m matches Some(missing) ==> (next matches CreatePhase::Refused(
                Refusal::MissingModel(kept),
            ) && kept@ == missing@)
        }),
        phase matches CreatePhase::Budgeting(agent) ==> (event matches CreateEvent::Budgeted(e) ==> {
            &&& e is None ==> next == CreatePhase::<String>::Rechecking(agent) && effects@.len()
                == 1 && effects@[0] is AcquireGate
            &&& e matches Some(over) ==> effects@.len() == 0 && (next matches
                CreatePhase::Refused(Refusal::Budget { agent_id, error: kept }) && agent_id
                == agent && kept@ == over@)
        }),
        phase matches CreatePhase::Rechecking(agent) ==> (event matches CreateEvent::Rechecked(
            there,
        ) ==> {
            &&& there ==> next == CreatePhase::<String>::Reserving(agent) && effects@.len() == 0
            &&& !there ==> next == CreatePhase::<String>::Refused(Refusal::SessionGone)
                && effects@ == seq![CreateEffect::ReleaseGate]
        }),
        phase matches CreatePhase::Reserving(agent) ==> (event matches CreateEvent::Reserved(r) ==> {
            &&& r is None ==> next == CreatePhase::<String>::Persisting(agent) && effects@.len()
                == 0
            &&& r matches Some(full) ==> next == CreatePhase::<String>::Refused(
                Refusal::Queue(full),
            ) && effects@ == seq![CreateEffect::ReleaseGate]
        }),
        phase matches CreatePhase::Persisting(agent) ==> (event matches CreateEvent::Persisted(r)
            ==> {
            &&& r matches Ok(durable) ==> next == (CreatePhase::<String>::Appending {
                agent,
                durable,
            }) && effects@.len() == 0
            &&& r matches Err(e) ==> gives_back(effects@) && (next matches CreatePhase::Refused(
                Refusal::NotStored(kept),
            ) && kept@ == e@)
        }),
        phase matches CreatePhase::Appending { agent, durable } ==> (event matches
            CreateEvent::Appended(r) ==> {
            &&& r is None ==> next == CreatePhase::<String>::Inserting(agent) && effects@.len() == 0
            &&& r matches Some(e) ==> gives_back(effects@) && (next matches CreatePhase::Refused(
                Refusal::InputNotPublished { durable: d, error: kept },
            ) && d == durable && kept@ == e@)
        }),
        phase matches CreatePhase::Inserting(agent) ==> (event matches CreateEvent::Inserted(r) ==> {
            &&& r is None ==> next == CreatePhase::<String>::Submitting(agent) && effects@
                == seq![CreateEffect::RegisterToken]
            &&& r matches Some(e) ==> gives_back(effects@) && (next matches CreatePhase::Refused(
                Refusal::RunNotPublished(kept),
            ) && kept@ == e@)
        }),
        phase matches CreatePhase::MarkingFailed(full) ==> (event matches
            CreateEvent::FailureMarked(r) ==> {
            &&& effects@ == seq![CreateEffect::RemoveToken, CreateEffect::ReleaseGate]
            &&& r is None ==> next == CreatePhase::<String>::Refused(Refusal::Queue(full))
            &&& r matches Some(e) ==> (next matches CreatePhase::Refused(
                Refusal::FailureNotStored(kept),
            ) && kept@ == e@)
        }),
{
}

/// The place in the queue and the session's gate are both given back, and
/// nothing else is done.
pub open spec fn gives_back(effects: Seq<CreateEffect>) -> bool {
    effects == seq![CreateEffect::ReleasePlace, CreateEffect::ReleaseGate]
}

/// A run that the queue takes is announced as one that waits for the runs
/// queued before it, and for the one that its agent is running; one that the
/// queue does not take is to be marked failed, and is not announced.
pub proof fn law_queued_run_is_announced_in_its_place(
    requested: Option<AgentId>,
    agent: AgentId,
    taken: Result<QueueReceipt, AdmissionError>,
    next: CreatePhase<String>,
    effects: Vec<CreateEffect>,
)
    requires
        call_ensures(
            create_run,
            (requested, CreatePhase::Submitting(agent), CreateEvent::Submitted(taken)),
            (next, effects),
        ),
        taken matches Ok(receipt) ==> receipt.queued_ahead < usize::MAX,
    ensures
        taken matches Ok(receipt) ==> {
            &&& next == CreatePhase::<String>::Created(agent)
            &&& effects@.len() == 3
            &&& effects@[0] matches CreateEffect::PublishCreated { queued_behind: n } && n
                == receipt.queued_ahead + (if receipt.agent_running {
                1int
            } else {
                0int
            })
            &&& effects@[1] is LetStart
            &&& effects@[2] is ReleaseGate
        },
        taken matches Err(e) ==> next == CreatePhase::<String>::MarkingFailed(e) && effects@.len()
            == 0,
{
}

/// A queued run waits for the runs before it and the one under way.
pub proof fn law_run_under_way_counts(receipt: QueueReceipt, r: usize)
    requires
        call_ensures(queued_behind, (&receipt,), r),
    ensures
        r == receipt.queued_ahead + (if receipt.agent_running {
            1int
        } else {
            0int
        }),
{
}

/// A token budget stands in the way exactly when it does not fit, the client is
/// no mock and the check is strict; then the error is the check's own.
pub proof fn law_only_strict_checks_reject(
    mock: bool,
    validated: Result<(), TokenBudgetError<String>>,
    mode: ValidationMode,
    r: Result<(), TokenBudgetError<String>>,
)
    requires
        call_ensures(evaluate_pre_flight_token_budget, (mock, validated, mode), r),
    ensures
        r is Err <==> !mock && mode == ValidationMode::Strict && validated is Err,
        r matches Err(e) ==> e@ == validated->Err_0@,
{
}

/// The stored input of an accepted run is the user's own words, waits for that
/// very run, and is dated by its acceptance.
pub proof fn law_accepted_input_waits_for_its_run(
    run: RunId,
    input: String,
    at: i64,
    message: Message,
)
    requires
        call_ensures(admission_message, (run, input, at), message),
    ensures
        message.role == Role::User,
        message.content is Text,
        shown(message) == input@,
        message.timestamp == at,
        noted(message, "pending_input"@) == Some(flag_value(true)),
        noted(message, "run_id"@) == Some(text_value(uuid_text(run))),
        noted(message, "synthetic"@) is None,
{
    reveal_strlit("pending_input");
    reveal_strlit("run_id");
    reveal_strlit("synthetic");
    assert("pending_input"@.len() != "run_id"@.len());
    assert("pending_input"@.len() != "synthetic"@.len());
    assert("run_id"@.len() != "synthetic"@.len());
}

/// An accepted request is answered with something new: the run, queued.
pub proof fn law_accepted_run_is_reported_queued(
    run: RunId,
    session: SessionId,
    ts: Nanos,
    status: u16,
    body: CreateRunResponse,
)
    requires
        call_ensures(created_response, (run, session, ts), (status, body)),
    ensures
        status == 201,
        body.run_id == run,
        body.session_id == session,
        body.status is Queued,
        body.ts == ts,
{
}

/// A refusal without details reads like any error reply: a status, a code and a
/// text.
pub open spec fn refused_with(
    status: u16,
    body: RunCreationErrorBody,
    wanted: int,
    code: Seq<char>,
    message: Seq<char>,
) -> bool {
    &&& status == wanted
    &&& body.retry_after is None
    &&& code_of(body.body@) == Some(code)
    &&& message_of(body.body@) == Some(message)
}

/// Why a run was refused is told to the client in full: what is not there is
/// not found, what is wrong with the request is the request's fault, what the
/// gateway failed at is the gateway's, and the error that it met is named.
pub proof fn law_refusal_tells_whose_fault_it_is(
    refusal: Refusal<String>,
    status: u16,
    body: RunCreationErrorBody,
)
    requires
        call_ensures(refusal_response, (&refusal,), (status, body)),
    ensures
        match refusal {
            Refusal::NoSession => refused_with(
                status,
                body,
                404,
                "NOT_FOUND"@,
                "Session not found"@,
            ),
            Refusal::SessionGone => refused_with(
                status,
                body,
                404,
                "SESSION_NOT_FOUND"@,
                "Session not found"@,
            ),
            Refusal::AgentMismatch => refused_with(
                status,
                body,
                400,
                "AGENT_SESSION_MISMATCH"@,
                "Session belongs to a different agent"@,
            ),
            Refusal::AgentRequired => refused_with(
                status,
                body,
                400,
                "AGENT_ID_REQUIRED"@,
                "Shared sessions require agent_id so per-agent config can be resolved"@,
            ),
            Refusal::ShuttingDown => refused_with(
                status,
                body,
                503,
                "SHUTTING_DOWN"@,
                "Server is shutting down"@,
            ),
            Refusal::NotStored(e) => refused_with(
                status,
                body,
                500,
                "LIFECYCLE_PERSISTENCE_FAILED"@,
                "Failed to persist run admission: "@ + e@,
            ),
            Refusal::InputNotPublished { durable: true, error } => refused_with(
                status,
                body,
                500,
                "ADMISSION_PROJECTION_FAILED"@,
                "Failed to publish persisted run input: "@ + error@,
            ),
            Refusal::InputNotPublished { durable: false, error } => refused_with(
                status,
                body,
                500,
                "ADMISSION_PROJECTION_FAILED"@,
                "Failed to publish run input: "@ + error@,
            ),
            Refusal::RunNotPublished(e) => refused_with(
                status,
                body,
                500,
                "ADMISSION_PROJECTION_FAILED"@,
                "Failed to publish persisted run: "@ + e@,
            ),
            Refusal::FailureNotStored(e) => refused_with(
                status,
                body,
                500,
                "LIFECYCLE_PERSISTENCE_FAILED"@,
                "Run dispatch failure could not be persisted: "@ + e@,
            ),
            _ => true,
        },
{
    match refusal {
        Refusal::NoSession => {
            lemma_error_object("NOT_FOUND"@, "Session not found"@);
        },
        Refusal::SessionGone => {
            lemma_error_object("SESSION_NOT_FOUND"@, "Session not found"@);
        },
        Refusal::AgentMismatch => {
            lemma_error_object(
                "AGENT_SESSION_MISMATCH"@,
                "Session belongs to a different agent"@,
            );
        },
        Refusal::AgentRequired => {
            lemma_error_object(
                "AGENT_ID_REQUIRED"@,
                "Shared sessions require agent_id so per-agent config can be resolved"@,
            );
        },
        Refusal::ShuttingDown => {
            lemma_error_object("SHUTTING_DOWN"@, "Server is shutting down"@);
        },
        Refusal::NotStored(e) => {
            lemma_error_object(
                "LIFECYCLE_PERSISTENCE_FAILED"@,
                "Failed to persist run admission: "@ + e@,
            );
        },
        Refusal::InputNotPublished { durable, error } => {
            lemma_error_object(
                "ADMISSION_PROJECTION_FAILED"@,
                "Failed to publish persisted run input: "@ + error@,
            );
            lemma_error_object(
                "ADMISSION_PROJECTION_FAILED"@,
                "Failed to publish run input: "@ + error@,
            );
        },
        Refusal::RunNotPublished(e) => {
            lemma_error_object(
                "ADMISSION_PROJECTION_FAILED"@,
                "Failed to publish persisted run: "@ + e@,
            );
        },
        Refusal::FailureNotStored(e) => {
            lemma_error_object(
                "LIFECYCLE_PERSISTENCE_FAILED"@,
                "Run dispatch failure could not be persisted: "@ + e@,
            );
        },
        _ => {},
    }
}

/// A refused session is named to the client, with the reason that goes with its
/// kind.
pub proof fn law_refused_session_is_named(
    refusal: Refusal<String>,
    session: SessionId,
    context: String,
    status: u16,
    body: RunCreationErrorBody,
)
    requires
        call_ensures(refusal_response, (&refusal,), (status, body)),
        refusal == (Refusal::DmSession { session_id: session, context_id: context }) || refusal == (
        Refusal::SubagentSession { session_id: session, context_id: context }),
    ensures
        status == 400,
        body.retry_after is None,
        entry(body.body@, "session_id"@) == Some(text_value(uuid_text(session))),
        entry(body.body@, "context_id"@) == Some(text_value(context@)),
        refusal is DmSession ==> entry(body.body@, "error_code"@) == Some(
            text_value("DM_SESSION_NOT_DIRECTLY_RUNNABLE"@),
        ) && entry(body.body@, "message"@) == Some(
            text_value(
                "DM sessions are agent-to-agent only; turns are triggered via send_message, not POST /runs."@,
            ),
        ),
        refusal is SubagentSession ==> entry(body.body@, "error_code"@) == Some(
            text_value("SUBAGENT_SESSION_NOT_DIRECTLY_RUNNABLE"@),
        ) && entry(body.body@, "message"@) == Some(
            text_value(
                "Subagent sessions are coordinator-driven; turns are triggered via invoke_agent, not POST /runs."@,
            ),
        ),
{
    lemma_session_refusal_keys();
}

/// A provider without a model is named to the client, with the agent and the
/// provider before.
pub proof fn law_missing_model_is_named(
    m: MissingModel<String>,
    status: u16,
    body: RunCreationErrorBody,
)
    requires
        call_ensures(refusal_response, (&Refusal::MissingModel(m),), (status, body)),
    ensures
        status == 400,
        body.retry_after is None,
        entry(body.body@, "error_code"@) == Some(
            text_value("MISSING_MODEL_AFTER_PROVIDER_SWITCH"@),
        ),
        entry(body.body@, "message"@) == Some(
            text_value(
                "agent "@ + m.agent_label@ + " overrides provider to "@ + m.new_provider@
                    + " but no model was supplied; previous provider "@ + m.prev_provider@
                    + "'s default cannot be reused"@,
            ),
        ),
        entry(body.body@, "agent_id"@) == Some(text_value(uuid_text(m.agent_id))),
        entry(body.body@, "new_provider"@) == Some(text_value(m.new_provider@)),
        entry(body.body@, "prev_provider"@) == Some(text_value(m.prev_provider@)),
{
    lemma_model_refusal_keys();
}

/// A token budget that does not fit is told with all its figures, in the words
/// of the check, the same whether it is refused on its own or as one of the
/// refusals of a request.
pub proof fn law_budget_is_told_with_its_figures(
    agent: AgentId,
    e: TokenBudgetError<String>,
    status: u16,
    body: RunCreationErrorBody,
)
    requires
        call_ensures(pre_flight_token_budget, (agent, &e), (status, body)) || call_ensures(
            refusal_response,
            (&Refusal::Budget { agent_id: agent, error: e },),
            (status, body),
        ),
    ensures
        status == 400,
        body.retry_after is None,
        entry(body.body@, "error_code"@) == Some(text_value("INVALID_TOKEN_BUDGET_FOR_PROVIDER"@)),
        entry(body.body@, "message"@) == Some(text_value(e.message@)),
        entry(body.body@, "agent_id"@) == Some(text_value(uuid_text(agent))),
        entry(body.body@, "provider"@) == Some(text_value(e.provider@)),
        entry(body.body@, "model"@) == Some(text_value(e.model@)),
        entry(body.body@, "max_input_tokens"@) == Some(count_value(e.max_input_tokens)),
        entry(body.body@, "max_tokens"@) == Some(count_value(e.max_tokens)),
        entry(body.body@, "effective_total"@) == Some(count_value(e.effective_total)),
        entry(body.body@, "provider_cap"@) == Some(count_value(e.provider_cap)),
{
    lemma_budget_refusal_keys();
}

/// A client is asked to come back exactly when a queue is full, and then in a
/// second; which queue it was, it learns from the code. A queue that is gone is
/// no reason to come back.
pub proof fn law_full_queues_ask_to_come_back(
    error: AdmissionError,
    status: u16,
    body: RunCreationErrorBody,
)
    requires
        call_ensures(queue_admission_error, (error,), (status, body)) || call_ensures(
            refusal_response,
            (&Refusal::<String>::Queue(error),),
            (status, body),
        ),
    ensures
        ({
            let full = error == AdmissionError::PerKeyFull || error == AdmissionError::GlobalFull;
            &&& full ==> status == 429 && text_of(body.retry_after) == Some("1"@) && entry(
                body.body@,
                "retryable"@,
            ) == Some(flag_value(true)) && entry(body.body@, "retry_after_ms"@) == Some(
                count_value(1000),
            )
            &&& !full ==> refused_with(
                status,
                body,
                503,
                "QUEUE_UNAVAILABLE"@,
                "Run queue is unavailable while the gateway is shutting down"@,
            )
            &&& error == AdmissionError::PerKeyFull ==> entry(body.body@, "error_code"@) == Some(
                text_value("AGENT_QUEUE_FULL"@),
            ) && entry(body.body@, "message"@) == Some(
                text_value("This agent has reached its pending run limit"@),
            )
            &&& error == AdmissionError::GlobalFull ==> entry(body.body@, "error_code"@) == Some(
                text_value("GATEWAY_QUEUE_FULL"@),
            ) && entry(body.body@, "message"@) == Some(
                text_value("The gateway has reached its pending run limit"@),
            )
        }),
{
    lemma_session_refusal_keys();
    lemma_error_object(
        "QUEUE_UNAVAILABLE"@,
        "Run queue is unavailable while the gateway is shutting down"@,
    );
}

/// A run can be cancelled exactly while it waits or is under way and its token
/// is there. A cancellation that was made signals the token and is announced; a
/// run that refused it counts as cancelled only if it is; a cancellation that
/// could not be stored still signals the token, and is told with its cause.
pub proof fn law_cancellation_does_what_it_says(
    phase: CancelPhase<String>,
    event: CancelEvent<String>,
    next: CancelPhase<String>,
    effects: Vec<CancelEffect<String>>,
)
    requires
        call_ensures(cancel_run, (phase, event), (next, effects)),
    ensures
        phase is Reading ==> (event matches CancelEvent::RunRead(found) ==> {
            &&& effects@.len() == 0
            &&& found is None ==> next == CancelPhase::<String>::Replying(CancelReply::NotFound)
            &&& found matches Some(run) ==> {
                let open = (run.status is Queued || run.status is Running) && run.has_token;
                &&& open ==> next is Marking
                &&& !open ==> next == CancelPhase::<String>::Replying(
                    CancelReply::AlreadyFinished,
                )
            }
        }),
        phase is Marking ==> (event matches CancelEvent::Marked(Ok(true)) ==> {
            &&& next == CancelPhase::<String>::Replying(CancelReply::Cancelled)
            &&& effects@.len() == 2 && effects@[0] is SignalToken && effects@[1] is RunCancelled
        }),
        phase is Marking ==> (event matches CancelEvent::Marked(Ok(false)) ==> next is Rereading
            && effects@.len() == 0),
        phase is Marking ==> (event matches CancelEvent::Marked(Err(e)) ==> {
            let text = "Run cancellation could not be committed: "@ + e@;
            &&& next matches CancelPhase::Replying(CancelReply::NotCommitted(m)) && m@ == text
            &&& effects@.len() == 3
            &&& effects@[0] is SignalToken
            &&& effects@[1] matches CancelEffect::RunError(m) && m@ == text
            &&& effects@[2] is ActivityEnded
        }),
        phase is Rereading ==> (event matches CancelEvent::StatusRead(status) ==> {
            &&& effects@.len() == 0
            &&& status == Some(RunStatus::Cancelled) ==> next == CancelPhase::<String>::Replying(
                CancelReply::Cancelled,
            )
            &&& status != Some(RunStatus::Cancelled) ==> next == CancelPhase::<String>::Replying(
                CancelReply::AlreadyFinished,
            )
        }),
{
    let seen = cancel_effects(effects@);
    assert(seen.len() == effects@.len());
    assert forall|i: int| 0 <= i < effects@.len() implies seen[i] == (#[trigger] effects@[i])@ by {}
}

/// The answer to a cancellation: success exactly for a run that is cancelled,
/// not found for one that is not there, a conflict for one that was over, and a
/// failure of the gateway with its text.
pub proof fn law_cancellation_is_answered_as_it_went(
    run: RunId,
    reply: CancelReply<String>,
    r: Result<Metadata, ApiError>,
)
    requires
        call_ensures(cancel_response, (run, &reply), r),
    ensures
        r is Ok <==> reply is Cancelled,
        r matches Ok(body) ==> entry(body@, "run_id"@) == Some(text_value(uuid_text(run)))
            && entry(body@, "status"@) == Some(text_value("cancelled"@)),
        reply is NotFound ==> (r matches Err(e) && answers_with(
            e,
            404,
            "NOT_FOUND"@,
            "Run not found"@,
        )),
        reply is AlreadyFinished ==> (r matches Err(e) && answers_with(
            e,
            409,
            "ALREADY_FINISHED"@,
            "Run already finished"@,
        )),
        reply matches CancelReply::NotCommitted(m) ==> (r matches Err(e) && answers_with(
            e,
            500,
            "LIFECYCLE_PERSISTENCE_FAILED"@,
            m@,
        )),
{
    reveal_strlit("run_id");
    reveal_strlit("status");
    assert("run_id"@[0] != "status"@[0]);
    lemma_error_object("NOT_FOUND"@, "Run not found"@);
    lemma_error_object("ALREADY_FINISHED"@, "Run already finished"@);
    if let CancelReply::NotCommitted(m) = reply {
        lemma_error_object("LIFECYCLE_PERSISTENCE_FAILED"@, m@);
    }
}

/// A subagent that was there and was signalled is being cancelled; one that was
/// not is not found.
pub proof fn law_subagent_is_cancelled_if_live(
    session: SessionId,
    found: bool,
    r: Result<Metadata, ApiError>,
)
    requires
        call_ensures(cancel_subagent, (session, found), r),
    ensures
        r is Ok <==> found,
        r matches Ok(body) ==> entry(body@, "session_id"@) == Some(text_value(uuid_text(session)))
            && entry(body@, "status"@) == Some(text_value("cancelling"@)),
        r matches Err(e) ==> answers_with(
            e,
            404,
            "NO_LIVE_SUBAGENT"@,
            "No live subagent for this session"@,
        ),
{
    reveal_strlit("session_id");
    reveal_strlit("status");
    assert("session_id"@.len() != "status"@.len());
    lemma_error_object("NO_LIVE_SUBAGENT"@, "No live subagent for this session"@);
}

/// A triggered run goes on only while there is a place in the queue, its
/// session is there under its own id, its job was not cancelled and it can be
/// stored; otherwise it is given up. A missing session is created exactly where
/// it is a notification inbox under the id that its context determines.
pub proof fn law_triggered_run_needs_its_session(
    run: TriggeredRun,
    phase: EnqueuePhase,
    event: EnqueueEvent<String>,
    next: EnqueuePhase,
    effects: Vec<EnqueueEffect<String>>,
)
    requires
        call_ensures(enqueue_triggered_run, (&run, phase, event), (next, effects)),
    ensures
        phase is Reserving ==> (event matches EnqueueEvent::Reserved(there) ==> {
            &&& there ==> next is FindingSession && effects@.len() == 1 && effects@[0]
                is AcquireGate
            &&& !there ==> next is Suppressed && effects@.len() == 1 && effects@[0]
                is AbandonContinuation
        }),
        phase is FindingSession ==> (event matches EnqueueEvent::SessionRead(found) ==> {
            &&& found matches Some(id) ==> judged_session(run, id, next, effects@)
            &&& found is None ==> {
                let inbox = begins_with(run.request.context_id@, "notifications:"@)
                    && run.deterministic;
                &&& inbox ==> next is CreatingSession && effects@.len() == 0
                &&& !inbox ==> next is Suppressed && lets_go(effects@, 0)
            }
        }),
        phase is CreatingSession ==> (event matches EnqueueEvent::SessionCreated(made) ==> {
            &&& made matches Some(id) ==> judged_session(run, id, next, effects@)
            &&& made is None ==> next is Suppressed && lets_go(effects@, 0)
        }),
        phase is CheckingIntent ==> (event matches EnqueueEvent::IntentRead(cancelled) ==> {
            &&& cancelled ==> next is Suppressed && effects@.len() == 4 && effects@[0]
                is ReleaseCancelLock && lets_go(effects@, 1)
            &&& !cancelled ==> next is Inserting && effects@.len() == 1 && effects@[0]
                is RegisterToken
        }),
        phase is Inserting ==> (event matches EnqueueEvent::Inserted(false) ==> next is Suppressed
            && effects@.len() == 5 && effects@[0] is RemoveToken && effects@[1]
            is ReleaseCancelLock && lets_go(effects@, 2)),
{
    lemma_enqueue_readings(effects@);
}

/// Triggered effects and their readings, place by place.
proof fn lemma_enqueue_readings(effects: Seq<EnqueueEffect<String>>)
    ensures
        effects_view(effects).len() == effects.len(),
        forall|i: int|
            #![trigger effects[i]]
            #![trigger effects_view(effects)[i]]
            0 <= i < effects.len() ==> effects_view(effects)[i] == effects[i]@,
{
}

/// From `at` on, a session's gate, the place in the queue and the reserved turn
/// are given back.
pub open spec fn lets_go(effects: Seq<EnqueueEffect<String>>, at: int) -> bool {
    &&& effects.len() == at + 3
    &&& effects[at] is ReleaseGate
    &&& effects[at + 1] is ReleasePlace
    &&& effects[at + 2] is AbandonContinuation
}

/// A session that was found or made is good exactly when it is the one that the
/// run asks for.
pub open spec fn judged_session(
    run: TriggeredRun,
    found: SessionId,
    next: EnqueuePhase,
    effects: Seq<EnqueueEffect<String>>,
) -> bool {
    &&& found == run.request.session_id ==> next is CheckingIntent && effects.len() == 1
        && effects[0] is AcquireCancelLock
    &&& found != run.request.session_id ==> next is Suppressed && lets_go(effects, 0)
}

/// A triggered run that is stored is noted on its own job, exactly when it has
/// one, before anything is let go; once the queue takes it, it is announced in
/// its place and let start. A run that the queue does not take is to be marked
/// failed; its token is dropped and its episode hears of its end, and a failure
/// that could not be stored is told with its cause.
pub proof fn law_triggered_run_is_noted_and_announced(
    run: TriggeredRun,
    phase: EnqueuePhase,
    event: EnqueueEvent<String>,
    next: EnqueuePhase,
    effects: Vec<EnqueueEffect<String>>,
)
    requires
        call_ensures(enqueue_triggered_run, (&run, phase, event), (next, effects)),
        event matches EnqueueEvent::Submitted(Some(receipt)) ==> receipt.queued_ahead < usize::MAX,
    ensures
        phase is Inserting ==> (event matches EnqueueEvent::Inserted(true) ==> {
            let n = effects@.len();
            &&& next is Submitting
            &&& run.request.job_id matches Some(job) ==> n == 3 && effects@[0] == EnqueueEffect::<
                String,
            >::NoteRun(job)
            &&& run.request.job_id is None ==> n == 2
            &&& effects@[n - 2] is ReleaseCancelLock
            &&& effects@[n - 1] is ReleaseGate
        }),
        phase is Submitting ==> (event matches EnqueueEvent::Submitted(taken) ==> {
            &&& taken matches Some(receipt) ==> {
                &&& next is Enqueued
                &&& effects@.len() == 2
                &&& effects@[0] matches EnqueueEffect::PublishCreated { queued_behind: n } && n
                    == receipt.queued_ahead + (if receipt.agent_running {
                    1int
                } else {
                    0int
                })
                &&& effects@[1] is LetStart
            }
            &&& taken is None ==> next is MarkingFailed && effects@.len() == 0
        }),
        phase is MarkingFailed ==> (event matches EnqueueEvent::FailureMarked(error) ==> {
            let n = effects@.len();
            &&& next is Suppressed
            &&& error is None ==> n == 2
            &&& error matches Some(e) ==> n == 3 && (effects@[0] matches EnqueueEffect::RunError(m)
                && m@ == "Triggered run dispatch failure could not be persisted: "@ + e@)
            &&& effects@[n - 2] is RemoveToken
            &&& effects@[n - 1] is FinishEpisode
        }),
{
    lemma_enqueue_readings(effects@);
}

/// The error of a run that its queue did not take says so.
pub proof fn law_closed_queue_is_named(r: String)
    requires
        call_ensures(queue_closed_text, (), r),
    ensures
        r@ == "Run queue closed before dispatch"@,
{
}

/// A lease counts up by one, for its session alone, and makes its gate exactly
/// when it is the first.
pub proof fn law_lease_counts_up(
    gates: &mut RunAdmissionGates,
    session: SessionId,
    made: bool,
    other: SessionId,
)
    requires
        all_leased(old(gates)@),
        lease_count(old(gates)@, session) < usize::MAX,
        call_ensures(RunAdmissionGates::lease, (gates, session), made),
    ensures
        lease_count(final(gates)@, session) == lease_count(old(gates)@, session) + 1,
        made <==> lease_count(old(gates)@, session) == 0,
        other != session ==> lease_count(final(gates)@, other) == lease_count(old(gates)@, other),
{
}

/// A returned lease counts down by one, for its session alone, and takes its
/// gate along exactly when it was the last.
pub proof fn law_return_counts_down(
    gates: &mut RunAdmissionGates,
    session: SessionId,
    last: bool,
    other: SessionId,
)
    requires
        all_leased(old(gates)@),
        lease_count(old(gates)@, session) > 0,
        call_ensures(RunAdmissionGates::release, (gates, session), last),
    ensures
        lease_count(final(gates)@, session) == lease_count(old(gates)@, session) - 1,
        last <==> lease_count(old(gates)@, session) == 1,
        other != session ==> lease_count(final(gates)@, other) == lease_count(old(gates)@, other),
{
}

/// A new registry has no gate, and the leases of a gate are told as they are
/// counted.
pub proof fn law_leases_are_told(
    fresh: RunAdmissionGates,
    gates: RunAdmissionGates,
    session: SessionId,
    count: usize,
)
    requires
        call_ensures(RunAdmissionGates::new, (), fresh),
        call_ensures(RunAdmissionGates::lease_count, (&gates, session), count),
    ensures
        lease_count(fresh@, session) == 0,
        gates@.contains_key(session) ==> count == gates@[session],
        !gates@.contains_key(session) ==> count == 0,
{
}

/// An answer that nobody waits for leaves an admission as it is: only the answer
/// that its phase asks for is taken, and a request that was decided stays so.
pub proof fn law_stray_answers_leave_an_admission(
    requested: Option<AgentId>,
    phase: CreatePhase<String>,
    event: CreateEvent<String>,
    next: CreatePhase<String>,
    effects: Vec<CreateEffect>,
)
    requires
        call_ensures(create_run, (requested, phase, event), (next, effects)),
        !(phase is Looking && event is Looked),
        !(phase is Resolving && event is Resolved),
        !(phase is Budgeting && event is Budgeted),
        !(phase is Rechecking && event is Rechecked),
        !(phase is Reserving && event is Reserved),
        !(phase is Persisting && event is Persisted),
        !(phase is Appending && event is Appended),
        !(phase is Inserting && event is Inserted),
        !(phase is Submitting && event is Submitted),
        !(phase is MarkingFailed && event is FailureMarked),
    ensures
        next@ == phase@,
        effects@.len() == 0,
{
}

/// An answer that nobody waits for leaves the admission of a triggered run as it
/// is.
pub proof fn law_stray_answers_leave_a_triggered_run(
    run: TriggeredRun,
    phase: EnqueuePhase,
    event: EnqueueEvent<String>,
    next: EnqueuePhase,
    effects: Vec<EnqueueEffect<String>>,
)
    requires
        call_ensures(enqueue_triggered_run, (&run, phase, event), (next, effects)),
        !(phase is Reserving && event is Reserved),
        !(phase is FindingSession && event is SessionRead),
        !(phase is CreatingSession && event is SessionCreated),
        !(phase is CheckingIntent && event is IntentRead),
        !(phase is Inserting && event is Inserted),
        !(phase is Submitting && event is Submitted),
        !(phase is MarkingFailed && event is FailureMarked),
    ensures
        next == phase,
        effects@.len() == 0,
{
    lemma_enqueue_readings(effects@);
}

/// An answer that nobody waits for leaves a cancellation as it is.
pub proof fn law_stray_answers_leave_a_cancellation(
    phase: CancelPhase<String>,
    event: CancelEvent<String>,
    next: CancelPhase<String>,
    effects: Vec<CancelEffect<String>>,
)
    requires
        call_ensures(cancel_run, (phase, event), (next, effects)),
        !(phase is Reading && event is RunRead),
        !(phase is Marking && event is Marked),
        !(phase is Rereading && event is StatusRead),
    ensures
        next@ == phase@,
        effects@.len() == 0,
{
    assert(cancel_effects(effects@).len() == effects@.len());
}

} // verus!
