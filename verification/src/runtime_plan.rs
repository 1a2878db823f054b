//! How a run's runtime is set up: posture, sandbox, tools, the recipient it
//! may not message, the model its summary is written with, and the way its
//! input reaches the session.

use crate::context::{
    dm_peer_of, extract_peer_from_dm_context, internal_context, is_internal_context_id, text_of,
};
use crate::execution::{committed, unit_view, ResolvedConfig, RunFacts};
use crate::ids::{uuid_text, RunId};
use crate::launch::{setting_of, RunParams};
use crate::markers::{
    error_base, lifecycle_base, marker_message, persist_error_marker, persist_lifecycle_marker,
    ExtraMetadata,
};
use crate::messages::{Content, Message, Role};
use crate::metadata::{flag_value, text_value, MetaView, Metadata};
use crate::text::{begins_with, concat, starts_with};
use vstd::prelude::*;
use vstd::string::*;

verus! {

/// How much an agent may do without asking.
#[derive(Debug, Clone, Copy, PartialEq, Eq, Structural)]
pub enum Posture {
    /// Every sensitive action waits for approval.
    Guarded,
    /// The agent acts on its own within limits.
    Autonomous,
    /// The agent acts on its own.
    FullControl,
}

/// The posture a run executes under: nobody is there to approve anything in a
/// run that the system triggered.
pub open spec fn posture_for_run(posture: Posture, system_triggered: bool) -> Posture {
    if system_triggered && posture == Posture::Guarded {
        Posture::Autonomous
    } else {
        posture
    }
}

/// Resolves the posture of a run. A run that the system triggered would wait
/// for an approval forever, so a guarded posture becomes autonomous there.
pub fn resolve_posture_for_run(posture: Posture, is_system_triggered: bool) -> (r: Posture)
    ensures
        r == posture_for_run(posture, is_system_triggered),
{
    if is_system_triggered && posture == Posture::Guarded {
        Posture::Autonomous
    } else {
        posture
    }
}

/// The one recipient that a run's messages are not sent to, and why.
#[derive(Debug, PartialEq, Eq)]
pub enum SendFold<S> {
    /// The peer whose conversation this run answers; its reply is delivered
    /// when the run completes.
    CurrentPeer(Option<S>),
    /// The peer whose conversation has just ended.
    EndedPeer(Option<S>),
}

impl SendFold<String> {
    /// The mathematical reading.
    pub open spec fn view(&self) -> SendFold<Seq<char>> {
        match *self {
            SendFold::CurrentPeer(p) => SendFold::CurrentPeer(text_of(p)),
            SendFold::EndedPeer(p) => SendFold::EndedPeer(text_of(p)),
        }
    }
}

/// The recipient that a run may not message. A run that answers a peer folds
/// the peer named by its context id; any other run folds the peer whose
/// conversation its trigger said had ended, wherever the run executes.
pub open spec fn send_fold(
    peer_message: bool,
    context_id: Seq<char>,
    agent_name: Seq<char>,
    ended_peer: Option<Seq<char>>,
) -> SendFold<Seq<char>> {
    if peer_message {
        SendFold::CurrentPeer(dm_peer_of(context_id, agent_name))
    } else {
        SendFold::EndedPeer(ended_peer)
    }
}

/// Decides which recipient a run may not message.
pub fn apply_send_message_fold(
    is_peer_message: bool,
    context_id: &str,
    agent_name: &str,
    dm_ended_peer: Option<String>,
) -> (r: SendFold<String>)
    ensures
        r@ == send_fold(is_peer_message, context_id@, agent_name@, text_of(dm_ended_peer)),
{
    if is_peer_message {
        SendFold::CurrentPeer(extract_peer_from_dm_context(context_id, agent_name))
    } else {
        SendFold::EndedPeer(dm_ended_peer)
    }
}

/// Where a run's file access is confined to.
#[derive(Debug, Clone, Copy, PartialEq, Eq, Structural)]
pub enum Sandbox {
    /// Nowhere: the operator gave this agent access to the whole system.
    Unrestricted,
    /// The agent's own worktree.
    Worktree,
    /// The project.
    ProjectRoot,
}

/// How a run's input reaches its session.
#[derive(Debug, Clone, Copy, PartialEq, Eq, Structural)]
pub enum InputMode {
    /// It is in the session already; run on the session as it stands.
    OnSession,
    /// Store it as a notification input first, then run on the session.
    StoreThenOnSession,
    /// Make sure the session exists under its id, then run with the input.
    EnsureSessionThenRun,
    /// Run with the input.
    Run,
}

/// How a run's input reaches its session. A run that answers a peer finds the
/// message in the shared session; an accepted run finds its own stored input;
/// a notification on a user-facing session is stored without showing as the
/// user's own words.
pub open spec fn input_mode(
    peer_message: bool,
    pre_persisted: bool,
    system_triggered: bool,
    context_id: Seq<char>,
) -> InputMode {
    if peer_message || pre_persisted {
        InputMode::OnSession
    } else if system_triggered && !internal_context(context_id) {
        InputMode::StoreThenOnSession
    } else if system_triggered {
        InputMode::EnsureSessionThenRun
    } else {
        InputMode::Run
    }
}

/// Decides how a run's input reaches its session.
pub fn choose_input_mode(
    is_peer_message: bool,
    input_pre_persisted: bool,
    is_system_triggered: bool,
    context_id: &str,
) -> (r: InputMode)
    ensures
        r == input_mode(is_peer_message, input_pre_persisted, is_system_triggered, context_id@),
{
    if is_peer_message || input_pre_persisted {
        InputMode::OnSession
    } else if is_system_triggered && !is_internal_context_id(context_id) {
        InputMode::StoreThenOnSession
    } else if is_system_triggered {
        InputMode::EnsureSessionThenRun
    } else {
        InputMode::Run
    }
}

/// The model that a run's summary is written with. On a provider of its own a
/// summary uses only the model configured for it, never the agent's, which
/// another provider does not know.
pub open spec fn summary_model(
    provider: Option<Seq<char>>,
    model: Option<Seq<char>>,
    agent_model: Seq<char>,
) -> Option<Seq<char>> {
    if provider is Some || model is Some {
        model
    } else {
        Some(agent_model)
    }
}

/// What is known of a run's agent when its runtime is set up.
#[derive(Debug)]
pub struct AgentSetup {
    /// The agent's registered name.
    pub agent_name: Option<String>,
    /// The posture the agent is configured with.
    pub posture: Posture,
    /// A directory for agents' workspaces is configured.
    pub workspace_configured: bool,
    /// The agent's workspace still has to be bootstrapped.
    pub needs_bootstrap: bool,
    /// The operator's list of agents with full access names this one.
    pub full_os_access: bool,
    /// The agent works in a git worktree of its own.
    pub git_worktree: bool,
    /// The provider that summaries are written on.
    pub summary_provider: Option<String>,
    /// The model that summaries are written with.
    pub summary_model: Option<String>,
    /// The model that the agent runs on.
    pub agent_model: String,
    /// Summaries are switched on.
    pub summaries_on: bool,
    /// The session's kind takes part in summaries.
    pub has_source_label: bool,
}

/// How a run's runtime is set up.
#[derive(Debug)]
pub struct RuntimePlan {
    /// The posture it executes under.
    pub posture: Posture,
    /// The bootstrap prompt replaces the system prompt.
    pub bootstrap_prompt: bool,
    /// Where its file access is confined to.
    pub sandbox: Sandbox,
    /// The agent's workspace is attached.
    pub attach_workspace: bool,
    /// Its final text is the reply to the peer.
    pub implicit_dm_reply: bool,
    /// Summaries go to a client of their own.
    pub dedicated_summary_client: bool,
    /// The model that its summary is written with.
    pub summary_model: Option<String>,
    /// A summary is written when the run completes.
    pub summarise: bool,
    /// The recipient it may not message; `None` when it has no message tools.
    pub send_fold: Option<SendFold<String>>,
    /// It can decline to reply.
    pub ignore_tool: bool,
    /// The peer whose conversation the user-facing session shows.
    pub webchat_peer: Option<String>,
    /// How its input reaches the session.
    pub input_mode: InputMode,
}

/// `plan` is how the runtime of a run with these parameters is set up.
pub open spec fn plans_runtime(
    run: RunParams<Seq<char>>,
    agent: AgentSetup,
    plan: RuntimePlan,
) -> bool {
    let context = run.context_id;
    let named = agent.agent_name is Some;
    let in_dm = begins_with(context, "dm:"@);
    &&& plan.posture == posture_for_run(agent.posture, run.is_system_triggered)
    &&& plan.bootstrap_prompt == (agent.workspace_configured && named && agent.needs_bootstrap)
    &&& plan.sandbox == if named && agent.full_os_access {
        Sandbox::Unrestricted
    } else if named && agent.git_worktree {
        Sandbox::Worktree
    } else {
        Sandbox::ProjectRoot
    }
    &&& plan.attach_workspace == (agent.workspace_configured && named)
    &&& plan.implicit_dm_reply == (run.is_peer_message && in_dm)
    &&& plan.dedicated_summary_client == (agent.summary_provider is Some)
    &&& text_of(plan.summary_model) == summary_model(
        text_of(agent.summary_provider),
        text_of(agent.summary_model),
        agent.agent_model@,
    )
    &&& plan.summarise == (agent.summaries_on && agent.has_source_label)
    &&& plan.ignore_tool == (named && in_dm)
    &&& plan.input_mode == input_mode(
        run.is_peer_message,
        run.input_pre_persisted,
        run.is_system_triggered,
        context,
    )
    &&& match agent.agent_name {
        Some(name) => {
            &&& plan.send_fold matches Some(fold) && fold@ == send_fold(
                run.is_peer_message,
                context,
                name@,
                run.dm_ended_peer,
            )
            &&& text_of(plan.webchat_peer) == dm_peer_of(context, name@)
        },
        None => plan.send_fold is None && plan.webchat_peer is None,
    }
}

/// Decides how a run's runtime is set up.
pub fn plan_runtime(run: &RunParams<String>, agent: AgentSetup) -> (r: RuntimePlan)
    ensures
        plans_runtime(run@, agent, r),
{
    let in_dm: bool = starts_with(run.context_id.as_str(), "dm:");
    let named: bool = agent.agent_name.is_some();
    let sandbox: Sandbox = if named && agent.full_os_access {
        Sandbox::Unrestricted
    } else if named && agent.git_worktree {
        Sandbox::Worktree
    } else {
        Sandbox::ProjectRoot
    };
    let dedicated: bool = agent.summary_provider.is_some();
    let summary_model: Option<String> = if dedicated || agent.summary_model.is_some() {
        agent.summary_model
    } else {
        Some(agent.agent_model)
    };
    let context_id: &str = run.context_id.as_str();
    let mode: InputMode = choose_input_mode(
        run.is_peer_message,
        run.input_pre_persisted,
        run.is_system_triggered,
        context_id,
    );
    let (fold, webchat_peer): (Option<SendFold<String>>, Option<String>) = match agent.agent_name {
        Some(name) => (
            Some(
                apply_send_message_fold(
                    run.is_peer_message,
                    context_id,
                    name.as_str(),
                    match &run.dm_ended_peer {
                        Some(peer) => Some(peer.clone()),
                        None => None,
                    },
                ),
            ),
            extract_peer_from_dm_context(context_id, name.as_str()),
        ),
        None => (None, None),
    };
    RuntimePlan {
        posture: resolve_posture_for_run(agent.posture, run.is_system_triggered),
        bootstrap_prompt: agent.workspace_configured && named && agent.needs_bootstrap,
        sandbox,
        attach_workspace: agent.workspace_configured && named,
        implicit_dm_reply: run.is_peer_message && in_dm,
        dedicated_summary_client: dedicated,
        summary_model,
        summarise: agent.summaries_on && agent.has_source_label,
        send_fold: fold,
        ignore_tool: named && in_dm,
        webchat_peer,
        input_mode: mode,
    }
}

/// What the execution of a run has to know of its plan.
pub fn run_facts(plan: &RuntimePlan) -> (r: RunFacts)
    ensures
        r == (RunFacts { summarise: plan.summarise, dm_peer: plan.webchat_peer is Some }),
{
    RunFacts { summarise: plan.summarise, dm_peer: plan.webchat_peer.is_some() }
}

/// `message` holds a notification that the agent reads as the user's turn. It is
/// flagged, so that nobody is shown it as the user's own words.
pub open spec fn notification_input(message: Message, input: Seq<char>, at: i64) -> bool {
    &&& message.role == Role::User
    &&& message.content matches Content::Text(t) && t@ == input
    &&& message.timestamp == at
    &&& message.metadata matches Some(m) && m@ == Map::empty().insert(
        "notification_input"@,
        flag_value(true),
    )
}

/// Builds the message that holds a notification.
pub fn notification_message(input: String, at: i64) -> (r: Message)
    ensures
        notification_input(r, input@, at),
{
    let mut metadata: Metadata = Metadata::new();
    metadata.set_flag("notification_input", true);
    Message {
        role: Role::User,
        content: Content::Text(input),
        timestamp: at,
        metadata: Some(metadata),
    }
}

/// What has to be done next to store a notification.
#[derive(Debug, Clone, PartialEq, Eq)]
pub enum InputStore<S> {
    /// Write the message to the durable store.
    SaveMessage,
    /// Append the written message to the session in memory.
    AppendPersisted,
    /// Write the session's last activity to the durable store.
    SaveSession,
    /// Append the message to the session; there is no durable store.
    AppendMessage,
    /// The notification is stored; the run can go on.
    Stored,
    /// It is not; the run fails with this error.
    Failed(S),
}

impl InputStore<String> {
    /// The mathematical reading.
    pub open spec fn view(&self) -> InputStore<Seq<char>> {
        match *self {
            InputStore::SaveMessage => InputStore::SaveMessage,
            InputStore::AppendPersisted => InputStore::AppendPersisted,
            InputStore::SaveSession => InputStore::SaveSession,
            InputStore::AppendMessage => InputStore::AppendMessage,
            InputStore::Stored => InputStore::Stored,
            InputStore::Failed(e) => InputStore::Failed(e@),
        }
    }
}

/// How storing a notification begins.
pub fn begin_notification_input(has_store: bool) -> (r: InputStore<String>)
    ensures
        r@ == if has_store {
            InputStore::<Seq<char>>::SaveMessage
        } else {
            InputStore::AppendMessage
        },
{
    if has_store {
        InputStore::SaveMessage
    } else {
        InputStore::AppendMessage
    }
}

/// One step of storing a notification. Only the last write, which records the
/// session's activity, may fail without consequence.
pub open spec fn store_step(step: InputStore<Seq<char>>, result: Result<(), Seq<char>>) -> InputStore<
    Seq<char>,
> {
    match (step, result) {
        (InputStore::SaveMessage, Ok(_)) => InputStore::AppendPersisted,
        (InputStore::AppendPersisted, Ok(_)) => InputStore::SaveSession,
        (InputStore::SaveSession, _) => InputStore::Stored,
        (InputStore::AppendMessage, Ok(_)) => InputStore::Stored,
        (InputStore::SaveMessage, Err(e)) => InputStore::Failed(e),
        (InputStore::AppendPersisted, Err(e)) => InputStore::Failed(e),
        (InputStore::AppendMessage, Err(e)) => InputStore::Failed(e),
        (InputStore::Stored, _) => step,
        (InputStore::Failed(_), _) => step,
    }
}

/// Takes storing a notification one step further.
pub fn persist_notification_input(step: InputStore<String>, result: Result<(), String>) -> (r:
    InputStore<String>)
    ensures
        r@ == store_step(step@, unit_view(result)),
{
    match (step, result) {
        (InputStore::SaveMessage, Ok(_)) => InputStore::AppendPersisted,
        (InputStore::AppendPersisted, Ok(_)) => InputStore::SaveSession,
        (InputStore::SaveSession, _) => InputStore::Stored,
        (InputStore::AppendMessage, Ok(_)) => InputStore::Stored,
        (InputStore::SaveMessage, Err(e)) => InputStore::Failed(e),
        (InputStore::AppendPersisted, Err(e)) => InputStore::Failed(e),
        (InputStore::AppendMessage, Err(e)) => InputStore::Failed(e),
        (InputStore::Stored, _) => InputStore::Stored,
        (InputStore::Failed(e), _) => InputStore::Failed(e),
    }
}

/// The entries of the marker between two runs.
pub open spec fn boundary_entries(run: RunId) -> Map<Seq<char>, MetaView> {
    Map::empty().insert("run_id"@, text_value(uuid_text(run))).insert(
        "status"@,
        text_value("completed"@),
    )
}

/// Builds the marker that separates a completed run from the next.
pub fn run_boundary_marker(run_id: RunId, at: i64) -> (r: Message)
    ensures
        marker_message(
            r,
            "(run completed)"@,
            lifecycle_base("run_boundary"@).union_prefer_right(boundary_entries(run_id)),
            at,
        ),
{
    let mut extra: Metadata = Metadata::new();
    let id: String = crate::ids::id_text(run_id);
    extra.set_text("run_id", id.as_str());
    extra.set_text("status", "completed");
    persist_lifecycle_marker(
        "run_boundary",
        "(run completed)".to_owned(),
        ExtraMetadata::Object(extra),
        at,
    )
}

/// The entries of the marker of a runtime that could not be built.
pub open spec fn init_failure_entries(run: RunId, safe_reason: Seq<char>) -> Map<
    Seq<char>,
    MetaView,
> {
    Map::empty().insert("run_id"@, text_value(uuid_text(run))).insert(
        "status"@,
        text_value("failed"@),
    ).insert("error"@, text_value(safe_reason)).insert("error_kind"@, text_value("runtime_init"@))
}

/// Builds the error marker of a runtime that could not be built. Only the
/// sanitised reason goes into it.
pub fn init_failure_marker(run_id: RunId, safe_reason: &str, at: i64) -> (r: Message)
    ensures
        marker_message(
            r,
            "(runtime initialization failed) "@ + safe_reason@,
            error_base("runtime_init_error"@).union_prefer_right(
                init_failure_entries(run_id, safe_reason@),
            ),
            at,
        ),
{
    let mut extra: Metadata = Metadata::new();
    let id: String = crate::ids::id_text(run_id);
    extra.set_text("run_id", id.as_str());
    extra.set_text("status", "failed");
    extra.set_text("error", safe_reason);
    extra.set_text("error_kind", "runtime_init");
    persist_error_marker(
        "runtime_init_error",
        concat("(runtime initialization failed) ", safe_reason),
        ExtraMetadata::Object(extra),
        at,
    )
}

/// At most one recipient is folded, and the two reasons never apply at once: a
/// run that answers a peer folds that peer, any other run folds the peer whose
/// conversation ended, whatever context it executes in.
pub proof fn law_fold_follows_the_trigger(
    context_id: Seq<char>,
    other_context: Seq<char>,
    agent_name: Seq<char>,
    ended_peer: Option<Seq<char>>,
)
    ensures
        send_fold(false, context_id, agent_name, ended_peer) == send_fold(
            false,
            other_context,
            agent_name,
            ended_peer,
        ),
        send_fold(true, context_id, agent_name, ended_peer) == send_fold(
            true,
            context_id,
            agent_name,
            None,
        ),
        send_fold(false, context_id, agent_name, ended_peer) == SendFold::EndedPeer(ended_peer),
{
}

/// With a durable store, a notification reaches the session only after it has
/// been written, and a run goes on only after that.
pub proof fn law_notification_is_durable_before_it_is_seen(
    step: InputStore<Seq<char>>,
    result: Result<(), Seq<char>>,
)
    ensures
        store_step(step, result) is AppendPersisted ==> step is SaveMessage && result is Ok,
        store_step(step, result) is SaveSession ==> step is AppendPersisted && result is Ok,
        store_step(step, result) is Stored ==> step is SaveSession || step is Stored || (step
            is AppendMessage && result is Ok),
{
}

/// A run that the system triggered never executes under a guarded posture.
pub proof fn law_system_runs_never_wait_for_approval(posture: Posture)
    ensures
        posture_for_run(posture, true) != Posture::Guarded,
        posture_for_run(posture, false) == posture,
        posture != Posture::Guarded ==> posture_for_run(posture, true) == posture,
{
}

/// A run executes under the posture that its start is published with.
pub proof fn law_plan_keeps_the_published_posture(
    run: RunParams<Seq<char>>,
    agent: AgentSetup,
    plan: RuntimePlan,
    config: ResolvedConfig,
)
    requires
        plans_runtime(run, agent, plan),
        agent.posture == config.posture,
    ensures
        plan.posture == committed(setting_of(run), config).posture,
{
}

} // verus!
