//! The admission of a run that a client asks for. A phase names what has to be
//! done next outside; the event that reports its result leads to the next
//! phase and to the effects to be performed, in order.

use crate::clock::Nanos;
use crate::context::{classify_session_type, session_type};
use crate::enqueue::{queued_behind, runs_before, QueueReceipt};
use crate::ids::{id_text, uuid_text, AgentId, RunId, SessionId};
use crate::job_card::RunStatus;
use crate::messages::{Content, Message, Role};
use crate::metadata::{count_value, flag_value, text_value, MetaView, Metadata};
use crate::replies::{
    api_error, error_object, ApiError, BAD_REQUEST, CREATED, INTERNAL_SERVER_ERROR, NOT_FOUND,
    SERVICE_UNAVAILABLE, TOO_MANY_REQUESTS,
};
use crate::text::{begins_with, concat, concat3, same_text, starts_with};
use vstd::prelude::*;
use vstd::string::*;

verus! {

/// Why a queue does not take a run.
#[derive(Debug, Clone, Copy, PartialEq, Eq, Structural)]
pub enum AdmissionError {
    /// The agent has as many runs waiting as it may have.
    PerKeyFull,
    /// The gateway has as many runs waiting as it may have.
    GlobalFull,
    /// The gateway is shutting down.
    ShuttingDown,
    /// The queue is closed.
    DispatchClosed,
}

/// A token budget that its provider does not offer.
#[derive(Debug, Clone, PartialEq, Eq)]
pub struct TokenBudgetError<S> {
    /// The provider.
    pub provider: S,
    /// The model.
    pub model: S,
    /// The tokens of the input.
    pub max_input_tokens: u64,
    /// The tokens of the answer.
    pub max_tokens: u64,
    /// Both together.
    pub effective_total: u64,
    /// What the provider offers.
    pub provider_cap: u64,
    /// The text for people.
    pub message: S,
}

impl TokenBudgetError<String> {
    /// The mathematical reading.
    pub open spec fn view(&self) -> TokenBudgetError<Seq<char>> {
        TokenBudgetError {
            provider: self.provider@,
            model: self.model@,
            max_input_tokens: self.max_input_tokens,
            max_tokens: self.max_tokens,
            effective_total: self.effective_total,
            provider_cap: self.provider_cap,
            message: self.message@,
        }
    }
}

/// What becomes of a token budget that does not fit.
#[derive(Debug, Clone, Copy, PartialEq, Eq, Structural)]
pub enum ValidationMode {
    /// The run is rejected.
    Strict,
    /// The run goes on with a warning.
    Warn,
}

/// The reading of a budget check's result.
pub open spec fn budget_view(r: Result<(), TokenBudgetError<String>>) -> Result<
    (),
    TokenBudgetError<Seq<char>>,
> {
    match r {
        Ok(_) => Ok(()),
        Err(e) => Err(e@),
    }
}

/// Decides whether a token budget stands in the way of a run. A mock client
/// has no limits; a budget that does not fit is rejected in strict mode only.
pub fn evaluate_pre_flight_token_budget(
    mock: bool,
    validated: Result<(), TokenBudgetError<String>>,
    mode: ValidationMode,
) -> (r: Result<(), TokenBudgetError<String>>)
    ensures
        budget_view(r) == if mock || mode == ValidationMode::Warn {
            Ok(())
        } else {
            budget_view(validated)
        },
{
    if mock {
        return Ok(());
    }
    match validated {
        Ok(_) => Ok(()),
        Err(e) => match mode {
            ValidationMode::Strict => Err(e),
            ValidationMode::Warn => Ok(()),
        },
    }
}

/// A provider was switched and no model was chosen for it.
#[derive(Debug, Clone, PartialEq, Eq)]
pub struct MissingModel<S> {
    /// The agent.
    pub agent_id: AgentId,
    /// The agent as texts for people name it.
    pub agent_label: S,
    /// The provider that was switched to.
    pub new_provider: S,
    /// The provider whose default model does not apply any more.
    pub prev_provider: S,
}

impl MissingModel<String> {
    /// The mathematical reading.
    pub open spec fn view(&self) -> MissingModel<Seq<char>> {
        MissingModel {
            agent_id: self.agent_id,
            agent_label: self.agent_label@,
            new_provider: self.new_provider@,
            prev_provider: self.prev_provider@,
        }
    }
}

/// What is read of the session that a run is asked for on.
#[derive(Debug, Clone, PartialEq, Eq)]
pub struct SessionFacts<S> {
    /// The session.
    pub id: SessionId,
    /// The agent that owns it; nil for a shared session.
    pub agent_id: AgentId,
    /// Its context id.
    pub context_id: S,
}

impl SessionFacts<String> {
    /// The mathematical reading.
    pub open spec fn view(&self) -> SessionFacts<Seq<char>> {
        SessionFacts { id: self.id, agent_id: self.agent_id, context_id: self.context_id@ }
    }
}

/// Why a run is refused.
#[derive(Debug, Clone, PartialEq, Eq)]
pub enum Refusal<S> {
    /// The session is not there.
    NoSession,
    /// The session belongs to another agent.
    AgentMismatch,
    /// The session is shared and no agent was named.
    AgentRequired,
    /// The gateway is shutting down.
    ShuttingDown,
    /// The session belongs to a conversation between agents.
    DmSession {
        /// The session.
        session_id: SessionId,
        /// Its context id.
        context_id: S,
    },
    /// The session belongs to a subagent.
    SubagentSession {
        /// The session.
        session_id: SessionId,
        /// Its context id.
        context_id: S,
    },
    /// The agent's configuration names no model.
    MissingModel(MissingModel<S>),
    /// The token budget does not fit.
    Budget {
        /// The agent.
        agent_id: AgentId,
        /// The budget.
        error: TokenBudgetError<S>,
    },
    /// The session was deleted meanwhile.
    SessionGone,
    /// The queue does not take the run.
    Queue(AdmissionError),
    /// The run and its input could not be stored.
    NotStored(S),
    /// The stored input could not be published.
    InputNotPublished {
        /// It is stored durably.
        durable: bool,
        /// The error.
        error: S,
    },
    /// The stored run could not be published.
    RunNotPublished(S),
    /// The queue did not take the run, and that could not be stored.
    FailureNotStored(S),
}

impl Refusal<String> {
    /// The mathematical reading.
    pub open spec fn view(&self) -> Refusal<Seq<char>> {
        match *self {
            Refusal::NoSession => Refusal::NoSession,
            Refusal::AgentMismatch => Refusal::AgentMismatch,
            Refusal::AgentRequired => Refusal::AgentRequired,
            Refusal::ShuttingDown => Refusal::ShuttingDown,
            Refusal::DmSession { session_id, context_id } => Refusal::DmSession {
                session_id,
                context_id: context_id@,
            },
            Refusal::SubagentSession { session_id, context_id } => Refusal::SubagentSession {
                session_id,
                context_id: context_id@,
            },
            Refusal::MissingModel(m) => Refusal::MissingModel(m@),
            Refusal::Budget { agent_id, error } => Refusal::Budget { agent_id, error: error@ },
            Refusal::SessionGone => Refusal::SessionGone,
            Refusal::Queue(e) => Refusal::Queue(e),
            Refusal::NotStored(e) => Refusal::NotStored(e@),
            Refusal::InputNotPublished { durable, error } => Refusal::InputNotPublished {
                durable,
                error: error@,
            },
            Refusal::RunNotPublished(e) => Refusal::RunNotPublished(e@),
            Refusal::FailureNotStored(e) => Refusal::FailureNotStored(e@),
        }
    }
}

/// Decides about a request on what is known at once: the session's owner and
/// kind, and whether the gateway is shutting down.
pub open spec fn accepted(
    session: Option<SessionFacts<Seq<char>>>,
    requested: Option<AgentId>,
    shutting_down: bool,
) -> Result<AgentId, Refusal<Seq<char>>> {
    match session {
        None => Err(Refusal::NoSession),
        Some(s) => {
            let shared = s.agent_id == 0;
            if !shared && requested is Some && requested != Some(s.agent_id) {
                Err(Refusal::AgentMismatch)
            } else if shared && requested is None {
                Err(Refusal::AgentRequired)
            } else if shutting_down {
                Err(Refusal::ShuttingDown)
            } else if begins_with(s.context_id, "dm:"@) {
                Err(Refusal::DmSession { session_id: s.id, context_id: s.context_id })
            } else if session_type(s.context_id) == "subagent"@ {
                Err(Refusal::SubagentSession { session_id: s.id, context_id: s.context_id })
            } else {
                Ok(
                    match requested {
                        Some(agent) => agent,
                        None => s.agent_id,
                    },
                )
            }
        },
    }
}

fn accept(
    session: Option<SessionFacts<String>>,
    requested: Option<AgentId>,
    shutting_down: bool,
) -> (r: Result<AgentId, Refusal<String>>)
    ensures
        accepted(
            match session {
                Some(s) => Some(s@),
                None => None,
            },
            requested,
            shutting_down,
        ) == match r {
            Ok(agent) => Ok::<AgentId, Refusal<Seq<char>>>(agent),
            Err(refusal) => Err(refusal@),
        },
{
    let s: SessionFacts<String> = match session {
        Some(s) => s,
        None => return Err(Refusal::NoSession),
    };
    let shared: bool = s.agent_id == 0;
    let agent: AgentId = match requested {
        Some(wanted) => {
            if wanted != s.agent_id && !shared {
                return Err(Refusal::AgentMismatch);
            }
            wanted
        },
        None => {
            if shared {
                return Err(Refusal::AgentRequired);
            }
            s.agent_id
        },
    };
    if shutting_down {
        return Err(Refusal::ShuttingDown);
    }
    if starts_with(s.context_id.as_str(), "dm:") {
        return Err(Refusal::DmSession { session_id: s.id, context_id: s.context_id });
    }
    if same_text(classify_session_type(s.context_id.as_str()), "subagent") {
        return Err(Refusal::SubagentSession { session_id: s.id, context_id: s.context_id });
    }
    Ok(agent)
}

/// Something that the admission makes happen.
#[derive(Debug, Clone, Copy, PartialEq, Eq, Structural)]
pub enum CreateEffect {
    /// Wait for the session's admission gate and hold it.
    AcquireGate,
    /// Let go of the session's admission gate.
    ReleaseGate,
    /// Give the place in the agent's queue back.
    ReleasePlace,
    /// Register the run's cancellation token.
    RegisterToken,
    /// Drop the run's cancellation token.
    RemoveToken,
    /// Publish `run_created`.
    PublishCreated {
        /// How many runs it waits for.
        queued_behind: usize,
    },
    /// Let the queued run start. It waits for this, and whoever publishes the
    /// announcement does this next.
    LetStart,
}

/// What has to be done next outside, and for which agent.
#[derive(Debug, Clone, PartialEq, Eq)]
pub enum CreatePhase<S> {
    /// Read the session, and look whether the gateway is shutting down.
    Looking,
    /// Resolve the agent's configuration.
    Resolving(AgentId),
    /// Check the token budget.
    Budgeting(AgentId),
    /// Look whether the session is still there.
    Rechecking(AgentId),
    /// Take a place in the agent's queue, without waiting.
    Reserving(AgentId),
    /// Store the run and its input as one fact.
    Persisting(AgentId),
    /// Append the stored input to the session.
    Appending {
        /// The agent.
        agent: AgentId,
        /// The input is stored durably.
        durable: bool,
    },
    /// Add the stored run to the live ones.
    Inserting(AgentId),
    /// Hand the run to the queue.
    Submitting(AgentId),
    /// Mark the run failed: the queue did not take it.
    MarkingFailed(AdmissionError),
    /// Tell the client that there is no run.
    Refused(Refusal<S>),
    /// Tell the client that the run is queued.
    Created(AgentId),
}

impl CreatePhase<String> {
    /// The mathematical reading.
    pub open spec fn view(&self) -> CreatePhase<Seq<char>> {
        match *self {
            CreatePhase::Looking => CreatePhase::Looking,
            CreatePhase::Resolving(a) => CreatePhase::Resolving(a),
            CreatePhase::Budgeting(a) => CreatePhase::Budgeting(a),
            CreatePhase::Rechecking(a) => CreatePhase::Rechecking(a),
            CreatePhase::Reserving(a) => CreatePhase::Reserving(a),
            CreatePhase::Persisting(a) => CreatePhase::Persisting(a),
            CreatePhase::Appending { agent, durable } => CreatePhase::Appending { agent, durable },
            CreatePhase::Inserting(a) => CreatePhase::Inserting(a),
            CreatePhase::Submitting(a) => CreatePhase::Submitting(a),
            CreatePhase::MarkingFailed(e) => CreatePhase::MarkingFailed(e),
            CreatePhase::Refused(r) => CreatePhase::Refused(r@),
            CreatePhase::Created(a) => CreatePhase::Created(a),
        }
    }
}

/// What happened outside.
#[derive(Debug)]
pub enum CreateEvent<S> {
    /// The session, and whether the gateway is shutting down.
    Looked {
        /// The session, if it is there.
        session: Option<SessionFacts<S>>,
        /// The gateway is shutting down.
        shutting_down: bool,
    },
    /// The agent's configuration resolved, or not.
    Resolved(Option<MissingModel<S>>),
    /// The token budget stands in the way, or not.
    Budgeted(Option<TokenBudgetError<S>>),
    /// The session is still there.
    Rechecked(bool),
    /// The queue has a place, or not.
    Reserved(Option<AdmissionError>),
    /// Run and input were stored, durably or not, or could not be stored.
    Persisted(Result<bool, S>),
    /// The input was appended, unless there was this error.
    Appended(Option<S>),
    /// The run was added, unless there was this error.
    Inserted(Option<S>),
    /// The queue took the run, or did not.
    Submitted(Result<QueueReceipt, AdmissionError>),
    /// The run was marked failed, unless that could not be stored.
    FailureMarked(Option<S>),
}

impl CreateEvent<String> {
    /// The mathematical reading.
    pub open spec fn view(&self) -> CreateEvent<Seq<char>> {
        match *self {
            CreateEvent::Looked { session, shutting_down } => CreateEvent::Looked {
                session: match session {
                    Some(s) => Some(s@),
                    None => None,
                },
                shutting_down,
            },
            CreateEvent::Resolved(m) => CreateEvent::Resolved(
                match m {
                    Some(x) => Some(x@),
                    None => None,
                },
            ),
            CreateEvent::Budgeted(e) => CreateEvent::Budgeted(
                match e {
                    Some(x) => Some(x@),
                    None => None,
                },
            ),
            CreateEvent::Rechecked(b) => CreateEvent::Rechecked(b),
            CreateEvent::Reserved(e) => CreateEvent::Reserved(e),
            CreateEvent::Persisted(r) => CreateEvent::Persisted(crate::execution::marked_view(r)),
            CreateEvent::Appended(e) => CreateEvent::Appended(crate::context::text_of(e)),
            CreateEvent::Inserted(e) => CreateEvent::Inserted(crate::context::text_of(e)),
            CreateEvent::Submitted(r) => CreateEvent::Submitted(r),
            CreateEvent::FailureMarked(e) => CreateEvent::FailureMarked(
                crate::context::text_of(e),
            ),
        }
    }
}

/// The effects of refusing a run that has a place in the queue.
pub open spec fn place_returned() -> Seq<CreateEffect> {
    seq![CreateEffect::ReleasePlace, CreateEffect::ReleaseGate]
}

/// One step of the admission. An event that does not answer the phase changes
/// nothing.
pub open spec fn create_step(
    requested: Option<AgentId>,
    phase: CreatePhase<Seq<char>>,
    event: CreateEvent<Seq<char>>,
) -> (CreatePhase<Seq<char>>, Seq<CreateEffect>) {
    match (phase, event) {
        (CreatePhase::Looking, CreateEvent::Looked { session, shutting_down }) => (
            match accepted(session, requested, shutting_down) {
                Ok(agent) => CreatePhase::Resolving(agent),
                Err(refusal) => CreatePhase::Refused(refusal),
            },
            seq![],
        ),
        (CreatePhase::Resolving(_), CreateEvent::Resolved(Some(missing))) => (
            CreatePhase::Refused(Refusal::MissingModel(missing)),
            seq![],
        ),
        (CreatePhase::Resolving(agent), CreateEvent::Resolved(None)) => (
            CreatePhase::Budgeting(agent),
            seq![],
        ),
        (CreatePhase::Budgeting(agent), CreateEvent::Budgeted(Some(error))) => (
            CreatePhase::Refused(Refusal::Budget { agent_id: agent, error }),
            seq![],
        ),
        (CreatePhase::Budgeting(agent), CreateEvent::Budgeted(None)) => (
            CreatePhase::Rechecking(agent),
            seq![CreateEffect::AcquireGate],
        ),
        (CreatePhase::Rechecking(agent), CreateEvent::Rechecked(true)) => (
            CreatePhase::Reserving(agent),
            seq![],
        ),
        (CreatePhase::Rechecking(_), CreateEvent::Rechecked(false)) => (
            CreatePhase::Refused(Refusal::SessionGone),
            seq![CreateEffect::ReleaseGate],
        ),
        (CreatePhase::Reserving(agent), CreateEvent::Reserved(None)) => (
            CreatePhase::Persisting(agent),
            seq![],
        ),
        (CreatePhase::Reserving(_), CreateEvent::Reserved(Some(e))) => (
            CreatePhase::Refused(Refusal::Queue(e)),
            seq![CreateEffect::ReleaseGate],
        ),
        (CreatePhase::Persisting(agent), CreateEvent::Persisted(Ok(durable))) => (
            CreatePhase::Appending { agent, durable },
            seq![],
        ),
        (CreatePhase::Persisting(_), CreateEvent::Persisted(Err(e))) => (
            CreatePhase::Refused(Refusal::NotStored(e)),
            place_returned(),
        ),
        (CreatePhase::Appending { agent, .. }, CreateEvent::Appended(None)) => (
            CreatePhase::Inserting(agent),
            seq![],
        ),
        (CreatePhase::Appending { durable, .. }, CreateEvent::Appended(Some(error))) => (
            CreatePhase::Refused(Refusal::InputNotPublished { durable, error }),
            place_returned(),
        ),
        (CreatePhase::Inserting(agent), CreateEvent::Inserted(None)) => (
            CreatePhase::Submitting(agent),
            seq![CreateEffect::RegisterToken],
        ),
        (CreatePhase::Inserting(_), CreateEvent::Inserted(Some(e))) => (
            CreatePhase::Refused(Refusal::RunNotPublished(e)),
            place_returned(),
        ),
        (CreatePhase::Submitting(agent), CreateEvent::Submitted(Ok(receipt))) => (
            CreatePhase::Created(agent),
            seq![
                CreateEffect::PublishCreated { queued_behind: runs_before(receipt) as usize },
                CreateEffect::LetStart,
                CreateEffect::ReleaseGate,
            ],
        ),
        (CreatePhase::Submitting(_), CreateEvent::Submitted(Err(e))) => (
            CreatePhase::MarkingFailed(e),
            seq![],
        ),
        (CreatePhase::MarkingFailed(refused), CreateEvent::FailureMarked(error)) => (
            CreatePhase::Refused(
                match error {
                    Some(e) => Refusal::FailureNotStored(e),
                    None => Refusal::Queue(refused),
                },
            ),
            seq![CreateEffect::RemoveToken, CreateEffect::ReleaseGate],
        ),
        _ => (phase, seq![]),
    }
}

fn return_place(out: &mut Vec<CreateEffect>)
    requires
        old(out)@.len() == 0,
    ensures
        final(out)@ == place_returned(),
{
    out.push(CreateEffect::ReleasePlace);
    out.push(CreateEffect::ReleaseGate);
}

/// Takes the admission of a requested run one step further. `requested` is the
/// agent that the request names.
pub fn create_run(
    requested: Option<AgentId>,
    phase: CreatePhase<String>,
    event: CreateEvent<String>,
) -> (r: (CreatePhase<String>, Vec<CreateEffect>))
    requires
        event matches CreateEvent::Submitted(Ok(receipt)) ==> runs_before(receipt) <= usize::MAX,
    ensures
        (r.0@, r.1@) == create_step(requested, phase@, event@),
{
    let mut out: Vec<CreateEffect> = Vec::new();
    let next: CreatePhase<String> = match (phase, event) {
        (CreatePhase::Looking, CreateEvent::Looked { session, shutting_down }) => match accept(
            session,
            requested,
            shutting_down,
        ) {
            Ok(agent) => CreatePhase::Resolving(agent),
            Err(refusal) => CreatePhase::Refused(refusal),
        },
        (CreatePhase::Resolving(agent), CreateEvent::Resolved(missing)) => match missing {
            Some(m) => CreatePhase::Refused(Refusal::MissingModel(m)),
            None => CreatePhase::Budgeting(agent),
        },
        (CreatePhase::Budgeting(agent), CreateEvent::Budgeted(over)) => match over {
            Some(error) => CreatePhase::Refused(Refusal::Budget { agent_id: agent, error }),
            None => {
                out.push(CreateEffect::AcquireGate);
                CreatePhase::Rechecking(agent)
            },
        },
        (CreatePhase::Rechecking(agent), CreateEvent::Rechecked(there)) => if there {
            CreatePhase::Reserving(agent)
        } else {
            out.push(CreateEffect::ReleaseGate);
            CreatePhase::Refused(Refusal::SessionGone)
        },
        (CreatePhase::Reserving(agent), CreateEvent::Reserved(refused)) => match refused {
            None => CreatePhase::Persisting(agent),
            Some(e) => {
                out.push(CreateEffect::ReleaseGate);
                CreatePhase::Refused(Refusal::Queue(e))
            },
        },
        (CreatePhase::Persisting(agent), CreateEvent::Persisted(stored)) => match stored {
            Ok(durable) => CreatePhase::Appending { agent, durable },
            Err(e) => {
                return_place(&mut out);
                CreatePhase::Refused(Refusal::NotStored(e))
            },
        },
        (CreatePhase::Appending { agent, durable }, CreateEvent::Appended(failed)) => match failed {
            None => CreatePhase::Inserting(agent),
            Some(error) => {
                return_place(&mut out);
                CreatePhase::Refused(Refusal::InputNotPublished { durable, error })
            },
        },
        (CreatePhase::Inserting(agent), CreateEvent::Inserted(failed)) => match failed {
            None => {
                out.push(CreateEffect::RegisterToken);
                CreatePhase::Submitting(agent)
            },
            Some(e) => {
                return_place(&mut out);
                CreatePhase::Refused(Refusal::RunNotPublished(e))
            },
        },
        (CreatePhase::Submitting(agent), CreateEvent::Submitted(taken)) => match taken {
            Ok(receipt) => {
                out.push(CreateEffect::PublishCreated { queued_behind: queued_behind(&receipt) });
                out.push(CreateEffect::LetStart);
                out.push(CreateEffect::ReleaseGate);
                CreatePhase::Created(agent)
            },
            Err(e) => CreatePhase::MarkingFailed(e),
        },
        (CreatePhase::MarkingFailed(refused), CreateEvent::FailureMarked(failed)) => {
            out.push(CreateEffect::RemoveToken);
            out.push(CreateEffect::ReleaseGate);
            match failed {
                Some(e) => CreatePhase::Refused(Refusal::FailureNotStored(e)),
                None => CreatePhase::Refused(Refusal::Queue(refused)),
            }
        },
        (other, _) => other,
    };
    (next, out)
}

/// `message` is the stored input of an accepted run: it says that it waits for
/// that run.
pub open spec fn pending_input(message: Message, input: Seq<char>, run: RunId, at: i64) -> bool {
    &&& message.role == Role::User
    &&& message.content matches Content::Text(t) && t@ == input
    &&& message.timestamp == at
    &&& message.metadata matches Some(m) && m@ == Map::empty().insert(
        "pending_input"@,
        flag_value(true),
    ).insert("run_id"@, text_value(uuid_text(run)))
}

/// Builds the message that holds the input of an accepted run.
pub fn admission_message(run_id: RunId, input: String, at: i64) -> (r: Message)
    ensures
        pending_input(r, input@, run_id, at),
{
    let mut metadata: Metadata = Metadata::new();
    let id: String = id_text(run_id);
    metadata.set_flag("pending_input", true);
    metadata.set_text("run_id", id.as_str());
    Message {
        role: Role::User,
        content: Content::Text(input),
        timestamp: at,
        metadata: Some(metadata),
    }
}

/// What a client is told about a run that was accepted.
#[derive(Debug, Clone, Copy, PartialEq, Eq, Structural)]
pub struct CreateRunResponse {
    /// The run.
    pub run_id: RunId,
    /// The session it runs on.
    pub session_id: SessionId,
    /// Its state.
    pub status: RunStatus,
    /// When it was accepted.
    pub ts: Nanos,
}

/// Builds the reply to a request that was accepted: the run exists, and it is
/// queued.
pub fn created_response(run_id: RunId, session_id: SessionId, ts: Nanos) -> (r: (
    u16,
    CreateRunResponse,
))
    ensures
        r == (
            CREATED,
            CreateRunResponse { run_id, session_id, status: RunStatus::Queued, ts },
        ),
{
    (CREATED, CreateRunResponse { run_id, session_id, status: RunStatus::Queued, ts })
}

/// The body of a refusal.
#[derive(Debug)]
pub struct RunCreationErrorBody {
    /// The object.
    pub body: Metadata,
    /// The value of the `Retry-After` header.
    pub retry_after: Option<String>,
}

/// The mathematical reading of a refusal's status and body.
#[verifier::ext_equal]
pub struct RefusalView {
    /// The status.
    pub status: u16,
    /// The object.
    pub body: Map<Seq<char>, MetaView>,
    /// The value of the `Retry-After` header.
    pub retry_after: Option<Seq<char>>,
}

/// The reading of a refusal's status and body.
pub open spec fn refusal_view(status: u16, body: RunCreationErrorBody) -> RefusalView {
    RefusalView {
        status,
        body: body.body@,
        retry_after: crate::context::text_of(body.retry_after),
    }
}

/// A refusal with nothing but a code and a text.
pub open spec fn plain_refusal(status: u16, code: Seq<char>, message: Seq<char>) -> RefusalView {
    RefusalView { status, body: error_object(code, message), retry_after: None }
}

fn run_creation_api_error(status: u16, code: &str, message: &str) -> (r: (
    u16,
    RunCreationErrorBody,
))
    ensures
        refusal_view(r.0, r.1) == plain_refusal(status, code@, message@),
{
    let error: ApiError = api_error(status, code, message);
    (error.status, RunCreationErrorBody { body: error.body, retry_after: None })
}

/// The object of a refusal with details: a code and a text, beside which the
/// details stand.
pub open spec fn error_body(code: Seq<char>, message: Seq<char>) -> Map<Seq<char>, MetaView> {
    Map::empty().insert("error_code"@, text_value(code)).insert("message"@, text_value(message))
}

fn coded_body(code: &str, message: &str) -> (r: Metadata)
    ensures
        r@ == error_body(code@, message@),
{
    let mut body: Metadata = Metadata::new();
    body.set_text("error_code", code);
    body.set_text("message", message);
    body
}

/// The refusal of a full queue: the client may come back in a second.
pub open spec fn come_back(code: Seq<char>, message: Seq<char>) -> RefusalView {
    RefusalView {
        status: TOO_MANY_REQUESTS,
        body: error_body(code, message).insert("retryable"@, flag_value(true)).insert(
            "retry_after_ms"@,
            count_value(1000),
        ),
        retry_after: Some("1"@),
    }
}

fn come_back_later(code: &str, message: &str) -> (r: (u16, RunCreationErrorBody))
    ensures
        refusal_view(r.0, r.1) == come_back(code@, message@),
{
    let mut body: Metadata = coded_body(code, message);
    body.set_flag("retryable", true);
    body.set_count("retry_after_ms", 1000);
    (TOO_MANY_REQUESTS, RunCreationErrorBody { body, retry_after: Some("1".to_owned()) })
}

/// The refusal of a queue.
pub open spec fn queue_refusal(error: AdmissionError) -> RefusalView {
    match error {
        AdmissionError::PerKeyFull => come_back(
            "AGENT_QUEUE_FULL"@,
            "This agent has reached its pending run limit"@,
        ),
        AdmissionError::GlobalFull => come_back(
            "GATEWAY_QUEUE_FULL"@,
            "The gateway has reached its pending run limit"@,
        ),
        AdmissionError::ShuttingDown | AdmissionError::DispatchClosed => plain_refusal(
            SERVICE_UNAVAILABLE,
            "QUEUE_UNAVAILABLE"@,
            "Run queue is unavailable while the gateway is shutting down"@,
        ),
    }
}

/// Writes the refusal of a queue.
pub fn queue_admission_error(error: AdmissionError) -> (r: (u16, RunCreationErrorBody))
    ensures
        refusal_view(r.0, r.1) == queue_refusal(error),
{
    match error {
        AdmissionError::PerKeyFull => come_back_later(
            "AGENT_QUEUE_FULL",
            "This agent has reached its pending run limit",
        ),
        AdmissionError::GlobalFull => come_back_later(
            "GATEWAY_QUEUE_FULL",
            "The gateway has reached its pending run limit",
        ),
        AdmissionError::ShuttingDown | AdmissionError::DispatchClosed => run_creation_api_error(
            SERVICE_UNAVAILABLE,
            "QUEUE_UNAVAILABLE",
            "Run queue is unavailable while the gateway is shutting down",
        ),
    }
}

/// The refusal of a session on which nobody can ask for a run.
pub open spec fn wrong_session(
    code: Seq<char>,
    message: Seq<char>,
    session: SessionId,
    context: Seq<char>,
) -> RefusalView {
    RefusalView {
        status: BAD_REQUEST,
        body: error_body(code, message).insert("session_id"@, text_value(uuid_text(session))).insert(
            "context_id"@,
            text_value(context),
        ),
        retry_after: None,
    }
}

fn refuse_session(code: &str, message: &str, session: SessionId, context: &str) -> (r: (
    u16,
    RunCreationErrorBody,
))
    ensures
        refusal_view(r.0, r.1) == wrong_session(code@, message@, session, context@),
{
    let mut body: Metadata = coded_body(code, message);
    let id: String = id_text(session);
    body.set_text("session_id", id.as_str());
    body.set_text("context_id", context);
    (BAD_REQUEST, RunCreationErrorBody { body, retry_after: None })
}

/// The text about a provider without a model.
pub open spec fn missing_model_text(m: MissingModel<Seq<char>>) -> Seq<char> {
    "agent "@ + m.agent_label + " overrides provider to "@ + m.new_provider
        + " but no model was supplied; previous provider "@ + m.prev_provider
        + "'s default cannot be reused"@
}

/// The refusal of a provider without a model.
pub open spec fn missing_model(m: MissingModel<Seq<char>>) -> RefusalView {
    RefusalView {
        status: BAD_REQUEST,
        body: error_body("MISSING_MODEL_AFTER_PROVIDER_SWITCH"@, missing_model_text(m)).insert(
            "agent_id"@,
            text_value(uuid_text(m.agent_id)),
        ).insert("new_provider"@, text_value(m.new_provider)).insert(
            "prev_provider"@,
            text_value(m.prev_provider),
        ),
        retry_after: None,
    }
}

fn refuse_missing_model(m: &MissingModel<String>) -> (r: (u16, RunCreationErrorBody))
    ensures
        refusal_view(r.0, r.1) == missing_model(m@),
{
    let a: String = concat3("agent ", m.agent_label.as_str(), " overrides provider to ");
    let b: String = concat3(
        a.as_str(),
        m.new_provider.as_str(),
        " but no model was supplied; previous provider ",
    );
    let text: String = concat3(
        b.as_str(),
        m.prev_provider.as_str(),
        "'s default cannot be reused",
    );
    let mut body: Metadata = coded_body("MISSING_MODEL_AFTER_PROVIDER_SWITCH", text.as_str());
    let id: String = id_text(m.agent_id);
    body.set_text("agent_id", id.as_str());
    body.set_text("new_provider", m.new_provider.as_str());
    body.set_text("prev_provider", m.prev_provider.as_str());
    (BAD_REQUEST, RunCreationErrorBody { body, retry_after: None })
}

/// The refusal of a token budget.
pub open spec fn budget_refusal(agent: AgentId, e: TokenBudgetError<Seq<char>>) -> RefusalView {
    RefusalView {
        status: BAD_REQUEST,
        body: error_body("INVALID_TOKEN_BUDGET_FOR_PROVIDER"@, e.message).insert(
            "agent_id"@,
            text_value(uuid_text(agent)),
        ).insert("provider"@, text_value(e.provider)).insert("model"@, text_value(e.model)).insert(
            "max_input_tokens"@,
            count_value(e.max_input_tokens),
        ).insert("max_tokens"@, count_value(e.max_tokens)).insert(
            "effective_total"@,
            count_value(e.effective_total),
        ).insert("provider_cap"@, count_value(e.provider_cap)),
        retry_after: None,
    }
}

/// Writes the refusal of a token budget.
pub fn pre_flight_token_budget(agent_id: AgentId, e: &TokenBudgetError<String>) -> (r: (
    u16,
    RunCreationErrorBody,
))
    ensures
        refusal_view(r.0, r.1) == budget_refusal(agent_id, e@),
{
    let mut body: Metadata = coded_body("INVALID_TOKEN_BUDGET_FOR_PROVIDER", e.message.as_str());
    let id: String = id_text(agent_id);
    body.set_text("agent_id", id.as_str());
    body.set_text("provider", e.provider.as_str());
    body.set_text("model", e.model.as_str());
    body.set_count("max_input_tokens", e.max_input_tokens);
    body.set_count("max_tokens", e.max_tokens);
    body.set_count("effective_total", e.effective_total);
    body.set_count("provider_cap", e.provider_cap);
    (BAD_REQUEST, RunCreationErrorBody { body, retry_after: None })
}

/// What the client of a refused run is told.
pub open spec fn refusal_reply(refusal: Refusal<Seq<char>>) -> RefusalView {
    match refusal {
        Refusal::NoSession => plain_refusal(NOT_FOUND, "NOT_FOUND"@, "Session not found"@),
        Refusal::AgentMismatch => plain_refusal(
            BAD_REQUEST,
            "AGENT_SESSION_MISMATCH"@,
            "Session belongs to a different agent"@,
        ),
        Refusal::AgentRequired => plain_refusal(
            BAD_REQUEST,
            "AGENT_ID_REQUIRED"@,
            "Shared sessions require agent_id so per-agent config can be resolved"@,
        ),
        Refusal::ShuttingDown => plain_refusal(
            SERVICE_UNAVAILABLE,
            "SHUTTING_DOWN"@,
            "Server is shutting down"@,
        ),
        Refusal::DmSession { session_id, context_id } => wrong_session(
            "DM_SESSION_NOT_DIRECTLY_RUNNABLE"@,
            "DM sessions are agent-to-agent only; turns are triggered via send_message, not POST /runs."@,
            session_id,
            context_id,
        ),
        Refusal::SubagentSession { session_id, context_id } => wrong_session(
            "SUBAGENT_SESSION_NOT_DIRECTLY_RUNNABLE"@,
            "Subagent sessions are coordinator-driven; turns are triggered via invoke_agent, not POST /runs."@,
            session_id,
            context_id,
        ),
        Refusal::MissingModel(m) => missing_model(m),
        Refusal::Budget { agent_id, error } => budget_refusal(agent_id, error),
        Refusal::SessionGone => plain_refusal(
            NOT_FOUND,
            "SESSION_NOT_FOUND"@,
            "Session not found"@,
        ),
        Refusal::Queue(e) => queue_refusal(e),
        Refusal::NotStored(e) => plain_refusal(
            INTERNAL_SERVER_ERROR,
            "LIFECYCLE_PERSISTENCE_FAILED"@,
            "Failed to persist run admission: "@ + e,
        ),
        Refusal::InputNotPublished { durable, error } => plain_refusal(
            INTERNAL_SERVER_ERROR,
            "ADMISSION_PROJECTION_FAILED"@,
            (if durable {
                "Failed to publish persisted run input: "@
            } else {
                "Failed to publish run input: "@
            }) + error,
        ),
        Refusal::RunNotPublished(e) => plain_refusal(
            INTERNAL_SERVER_ERROR,
            "ADMISSION_PROJECTION_FAILED"@,
            "Failed to publish persisted run: "@ + e,
        ),
        Refusal::FailureNotStored(e) => plain_refusal(
            INTERNAL_SERVER_ERROR,
            "LIFECYCLE_PERSISTENCE_FAILED"@,
            "Run dispatch failure could not be persisted: "@ + e,
        ),
    }
}

fn internal_error(code: &str, head: &str, error: &str) -> (r: (u16, RunCreationErrorBody))
    ensures
        refusal_view(r.0, r.1) == plain_refusal(INTERNAL_SERVER_ERROR, code@, head@ + error@),
{
    let text: String = concat(head, error);
    run_creation_api_error(INTERNAL_SERVER_ERROR, code, text.as_str())
}

/// Writes what the client of a refused run is told.
pub fn refusal_response(refusal: &Refusal<String>) -> (r: (u16, RunCreationErrorBody))
    ensures
        refusal_view(r.0, r.1) == refusal_reply(refusal@),
{
    match refusal {
        Refusal::NoSession => run_creation_api_error(NOT_FOUND, "NOT_FOUND", "Session not found"),
        Refusal::AgentMismatch => run_creation_api_error(
            BAD_REQUEST,
            "AGENT_SESSION_MISMATCH",
            "Session belongs to a different agent",
        ),
        Refusal::AgentRequired => run_creation_api_error(
            BAD_REQUEST,
            "AGENT_ID_REQUIRED",
            "Shared sessions require agent_id so per-agent config can be resolved",
        ),
        Refusal::ShuttingDown => run_creation_api_error(
            SERVICE_UNAVAILABLE,
            "SHUTTING_DOWN",
            "Server is shutting down",
        ),
        Refusal::DmSession { session_id, context_id } => refuse_session(
            "DM_SESSION_NOT_DIRECTLY_RUNNABLE",
            "DM sessions are agent-to-agent only; turns are triggered via send_message, not POST /runs.",
            *session_id,
            context_id.as_str(),
        ),
        Refusal::SubagentSession { session_id, context_id } => refuse_session(
            "SUBAGENT_SESSION_NOT_DIRECTLY_RUNNABLE",
            "Subagent sessions are coordinator-driven; turns are triggered via invoke_agent, not POST /runs.",
            *session_id,
            context_id.as_str(),
        ),
        Refusal::MissingModel(m) => refuse_missing_model(m),
        Refusal::Budget { agent_id, error } => pre_flight_token_budget(*agent_id, error),
        Refusal::SessionGone => run_creation_api_error(
            NOT_FOUND,
            "SESSION_NOT_FOUND",
            "Session not found",
        ),
        Refusal::Queue(e) => queue_admission_error(*e),
        Refusal::NotStored(e) => internal_error(
            "LIFECYCLE_PERSISTENCE_FAILED",
            "Failed to persist run admission: ",
            e.as_str(),
        ),
        Refusal::InputNotPublished { durable, error } => {
            let head: &str = if *durable {
                "Failed to publish persisted run input: "
            } else {
                "Failed to publish run input: "
            };
            internal_error("ADMISSION_PROJECTION_FAILED", head, error.as_str())
        },
        Refusal::RunNotPublished(e) => internal_error(
            "ADMISSION_PROJECTION_FAILED",
            "Failed to publish persisted run: ",
            e.as_str(),
        ),
        Refusal::FailureNotStored(e) => internal_error(
            "LIFECYCLE_PERSISTENCE_FAILED",
            "Run dispatch failure could not be persisted: ",
            e.as_str(),
        ),
    }
}

/// The phase and all effects after a sequence of events.
pub open spec fn create_trace(
    requested: Option<AgentId>,
    events: Seq<CreateEvent<Seq<char>>>,
) -> (CreatePhase<Seq<char>>, Seq<CreateEffect>)
    decreases events.len(),
{
    if events.len() == 0 {
        (CreatePhase::Looking, seq![])
    } else {
        let (phase, effects) = create_trace(requested, events.drop_last());
        let (next, more) = create_step(requested, phase, events.last());
        (next, effects + more)
    }
}

/// What an admission holds and what it has announced.
pub struct Holdings {
    /// Gates held.
    pub gates: int,
    /// Tokens registered.
    pub tokens: int,
    /// Runs announced.
    pub announced: int,
    /// Runs allowed to start.
    pub started: int,
}

/// The holdings after one more effect.
pub open spec fn after_effect(h: Holdings, effect: CreateEffect) -> Holdings {
    match effect {
        CreateEffect::AcquireGate => Holdings { gates: h.gates + 1, ..h },
        CreateEffect::ReleaseGate => Holdings { gates: h.gates - 1, ..h },
        CreateEffect::RegisterToken => Holdings { tokens: h.tokens + 1, ..h },
        CreateEffect::RemoveToken => Holdings { tokens: h.tokens - 1, ..h },
        CreateEffect::PublishCreated { .. } => Holdings { announced: h.announced + 1, ..h },
        CreateEffect::LetStart => Holdings { started: h.started + 1, ..h },
        CreateEffect::ReleasePlace => h,
    }
}

/// The holdings after a sequence of effects.
pub open spec fn holdings(effects: Seq<CreateEffect>) -> Holdings
    decreases effects.len(),
{
    if effects.len() == 0 {
        Holdings { gates: 0, tokens: 0, announced: 0, started: 0 }
    } else {
        after_effect(holdings(effects.drop_last()), effects.last())
    }
}

/// The holdings when a phase is reached.
pub open spec fn holdings_at(phase: CreatePhase<Seq<char>>) -> Holdings {
    match phase {
        CreatePhase::Looking
        | CreatePhase::Resolving(_)
        | CreatePhase::Budgeting(_)
        | CreatePhase::Refused(_) => Holdings { gates: 0, tokens: 0, announced: 0, started: 0 },
        CreatePhase::Rechecking(_)
        | CreatePhase::Reserving(_)
        | CreatePhase::Persisting(_)
        | CreatePhase::Appending { .. }
        | CreatePhase::Inserting(_) => Holdings { gates: 1, tokens: 0, announced: 0, started: 0 },
        CreatePhase::Submitting(_) | CreatePhase::MarkingFailed(_) => Holdings {
            gates: 1,
            tokens: 1,
            announced: 0,
            started: 0,
        },
        CreatePhase::Created(_) => Holdings { gates: 0, tokens: 1, announced: 1, started: 1 },
    }
}

/// Three more effects at most.
proof fn lemma_holdings_concat(a: Seq<CreateEffect>, b: Seq<CreateEffect>)
    requires
        b.len() <= 3,
    ensures
        b.len() == 0 ==> holdings(a + b) == holdings(a),
        b.len() == 1 ==> holdings(a + b) == after_effect(holdings(a), b[0]),
        b.len() == 2 ==> holdings(a + b) == after_effect(after_effect(holdings(a), b[0]), b[1]),
        b.len() == 3 ==> holdings(a + b) == after_effect(
            after_effect(after_effect(holdings(a), b[0]), b[1]),
            b[2],
        ),
    decreases b.len(),
{
    if b.len() > 0 {
        lemma_holdings_concat(a, b.drop_last());
        assert((a + b).drop_last() =~= a + b.drop_last());
    }
}

/// What an admission holds depends on its phase alone: a refused run leaves no
/// gate held, no token registered and nothing announced or started, and a
/// queued run leaves its token, exactly one announcement and exactly one start.
pub proof fn law_admission_accounts_for_everything(
    requested: Option<AgentId>,
    events: Seq<CreateEvent<Seq<char>>>,
)
    ensures
        holdings(create_trace(requested, events).1) == holdings_at(
            create_trace(requested, events).0,
        ),
    decreases events.len(),
{
    if events.len() > 0 {
        law_admission_accounts_for_everything(requested, events.drop_last());
        let (phase, effects) = create_trace(requested, events.drop_last());
        let (next, more) = create_step(requested, phase, events.last());
        lemma_holdings_concat(effects, more);
    }
}

/// Nothing is stored before the queue has a place for the run and the
/// session's gate is held.
pub proof fn law_nothing_is_stored_before_a_place_is_taken(
    requested: Option<AgentId>,
    events: Seq<CreateEvent<Seq<char>>>,
)
    requires
        events.len() > 0,
        create_trace(requested, events).0 is Persisting,
        !(create_trace(requested, events.drop_last()).0 is Persisting),
    ensures
        create_trace(requested, events.drop_last()).0 is Reserving,
        events.last() == CreateEvent::<Seq<char>>::Reserved(None),
        holdings(create_trace(requested, events).1).gates == 1,
{
    law_admission_accounts_for_everything(requested, events);
}

/// The announcement of a run is published, and the run let go, while the
/// session's gate is held.
pub proof fn law_run_is_announced_inside_the_gate(
    requested: Option<AgentId>,
    phase: CreatePhase<Seq<char>>,
    event: CreateEvent<Seq<char>>,
)
    requires
        !(phase is Created),
        create_step(requested, phase, event).0 is Created,
    ensures
        holdings_at(phase).gates == 1,
        create_step(requested, phase, event).1[0] is PublishCreated,
        create_step(requested, phase, event).1[1] is LetStart,
        create_step(requested, phase, event).1[2] is ReleaseGate,
        create_step(requested, phase, event).1.len() == 3,
{
}

/// No run starts before it was announced: what lets it start comes right
/// behind what announces it, whatever happens.
pub proof fn law_run_is_announced_before_it_starts(
    requested: Option<AgentId>,
    events: Seq<CreateEvent<Seq<char>>>,
    i: int,
)
    requires
        0 <= i < create_trace(requested, events).1.len(),
        create_trace(requested, events).1[i] is LetStart,
    ensures
        i > 0,
        create_trace(requested, events).1[i - 1] is PublishCreated,
    decreases events.len(),
{
    if events.len() > 0 {
        let (phase, effects) = create_trace(requested, events.drop_last());
        if i < effects.len() {
            law_run_is_announced_before_it_starts(requested, events.drop_last(), i);
        }
    }
}

/// A run is never admitted on a session of a conversation between agents or of
/// a subagent, nor for an agent that the session does not belong to.
pub proof fn law_internal_sessions_take_no_requests(
    session: SessionFacts<Seq<char>>,
    requested: Option<AgentId>,
    shutting_down: bool,
)
    requires
        accepted(Some(session), requested, shutting_down) is Ok,
    ensures
        session_type(session.context_id) != "dm"@,
        session_type(session.context_id) != "subagent"@,
        !shutting_down,
        session.agent_id != 0 ==> accepted(Some(session), requested, shutting_down)->Ok_0
            == session.agent_id,
        session.agent_id == 0 ==> Some(accepted(Some(session), requested, shutting_down)->Ok_0)
            == requested,
{
    reveal_strlit("dm");
    reveal_strlit("notification");
    reveal_strlit("job");
    reveal_strlit("telegram");
    reveal_strlit("episodic");
    reveal_strlit("chat");
    assert("notification"@.len() != "dm"@.len());
}

} // verus!
