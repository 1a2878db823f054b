//! The completion of a background subagent: the marker in the parent's
//! history, the event for its subscribers, and the run that tells the parent.

use crate::context::text_of;
use crate::ids::{id_text, uuid_text, AgentId, JobId, SessionId, TaskId};
use crate::job_episode::{
    after_subagent, awaits_subagent, have_room, well_formed, ContinuationRoute,
    Episodes, JobEpisodeTracker,
};
use crate::launch::RunRequest;
use crate::markers::{lifecycle_base, marker_message, persist_lifecycle_marker, ExtraMetadata};
use crate::messages::Message;
use crate::metadata::{
    count_value, text_value, GroupBuilder, MetaValue, MetaView, Metadata, Scalar,
    ScalarView,
};
use crate::text::{concat3, replace_all, replaced};
use vstd::prelude::*;
use vstd::string::*;

verus! {

/// How a subagent's task ended.
#[derive(Debug, Clone, Copy, PartialEq, Eq, Structural)]
pub enum TaskStatus {
    /// It completed.
    Completed,
    /// It failed.
    Failed,
    /// It was cancelled.
    Cancelled,
    /// It ended in another way.
    Other,
}

/// The tokens that a subagent used.
#[derive(Debug, Clone, Copy, PartialEq, Eq, Structural)]
pub struct TokenUsage {
    /// Tokens of the prompts.
    pub prompt_tokens: u64,
    /// Tokens of the answers.
    pub completion_tokens: u64,
    /// Tokens of the reasoning, when the provider reports them.
    pub reasoning_tokens: Option<u64>,
    /// Tokens written to the cache, when the provider reports them.
    pub cache_creation_input_tokens: Option<u64>,
    /// Tokens read from the cache, when the provider reports them.
    pub cache_read_input_tokens: Option<u64>,
}

/// The report on a finished subagent.
#[derive(Debug)]
pub struct SubagentCompletion {
    /// Its task.
    pub task_id: TaskId,
    /// Its name, if it has one.
    pub subagent_name: Option<String>,
    /// How it ended.
    pub status: TaskStatus,
    /// What it found.
    pub summary: String,
    /// The session of the agent that started it.
    pub parent_session_id: SessionId,
    /// The agent that started it.
    pub parent_agent_id: AgentId,
    /// Its own session.
    pub subagent_session_id: SessionId,
    /// What it was asked to do.
    pub task_description: Option<String>,
    /// How many tools it called.
    pub tool_count: Option<u64>,
    /// How long it took, in milliseconds.
    pub duration_ms: Option<u64>,
    /// The tokens it used.
    pub token_usage: Option<TokenUsage>,
    /// The tool call that started it.
    pub parent_tool_invocation_id: Option<u128>,
}

/// The status word on the wire.
pub open spec fn status_word(status: TaskStatus) -> Seq<char> {
    match status {
        TaskStatus::Completed => "done"@,
        TaskStatus::Failed => "fail"@,
        TaskStatus::Cancelled => "cancelled"@,
        TaskStatus::Other => "done"@,
    }
}

fn status_text(status: TaskStatus) -> (r: &'static str)
    ensures
        r@ == status_word(status),
{
    match status {
        TaskStatus::Completed => "done",
        TaskStatus::Failed => "fail",
        TaskStatus::Cancelled => "cancelled",
        TaskStatus::Other => "done",
    }
}

/// The status word in the marker's text.
pub open spec fn status_label(status: TaskStatus) -> Seq<char> {
    match status {
        TaskStatus::Failed => "failed"@,
        TaskStatus::Cancelled => "cancelled"@,
        _ => "completed"@,
    }
}

fn label_text(status: TaskStatus) -> (r: &'static str)
    ensures
        r@ == status_label(status),
{
    match status {
        TaskStatus::Failed => "failed",
        TaskStatus::Cancelled => "cancelled",
        _ => "completed",
    }
}

/// The name a subagent goes by.
pub open spec fn display_name(c: SubagentCompletion) -> Seq<char> {
    match c.subagent_name {
        Some(n) => n@,
        None => "subagent"@,
    }
}

/// A map with one more entry, if there is a value for it.
pub open spec fn with_entry<V>(
    m: Map<Seq<char>, V>,
    key: Seq<char>,
    value: Option<V>,
) -> Map<Seq<char>, V> {
    match value {
        Some(v) => m.insert(key, v),
        None => m,
    }
}

/// The optional number as a group entry.
pub open spec fn opt_count(n: Option<u64>) -> Option<ScalarView> {
    match n {
        Some(x) => Some(ScalarView::Count(x)),
        None => None,
    }
}

/// The used tokens as a metadata object. What the provider did not report is
/// absent.
pub open spec fn usage_group(usage: TokenUsage) -> Map<Seq<char>, ScalarView> {
    let base = Map::empty().insert("prompt_tokens"@, ScalarView::Count(usage.prompt_tokens)).insert(
        "completion_tokens"@,
        ScalarView::Count(usage.completion_tokens),
    );
    with_entry(
        with_entry(
            with_entry(base, "reasoning_tokens"@, opt_count(usage.reasoning_tokens)),
            "cache_creation_input_tokens"@,
            opt_count(usage.cache_creation_input_tokens),
        ),
        "cache_read_input_tokens"@,
        opt_count(usage.cache_read_input_tokens),
    )
}

fn usage_value(usage: &TokenUsage) -> (r: MetaValue)
    ensures
        r@ == MetaView::Group(usage_group(*usage)),
{
    let mut group: GroupBuilder = GroupBuilder::new();
    group.set("prompt_tokens", Scalar::Count(usage.prompt_tokens));
    group.set("completion_tokens", Scalar::Count(usage.completion_tokens));
    if let Some(n) = usage.reasoning_tokens {
        group.set("reasoning_tokens", Scalar::Count(n));
    }
    if let Some(n) = usage.cache_creation_input_tokens {
        group.set("cache_creation_input_tokens", Scalar::Count(n));
    }
    if let Some(n) = usage.cache_read_input_tokens {
        group.set("cache_read_input_tokens", Scalar::Count(n));
    }
    group.build()
}

/// The optional number as an entry.
pub open spec fn opt_number(n: Option<u64>) -> Option<MetaView> {
    match n {
        Some(x) => Some(count_value(x)),
        None => None,
    }
}

/// The entries of a completion marker. What the report does not say is absent.
pub open spec fn completion_entries(c: SubagentCompletion) -> Map<Seq<char>, MetaView> {
    let base = Map::empty().insert("subagent_name"@, text_value(display_name(c))).insert(
        "status"@,
        text_value(status_word(c.status)),
    ).insert("session_id"@, text_value(uuid_text(c.subagent_session_id))).insert(
        "summary"@,
        text_value(c.summary@),
    );
    with_entry(
        with_entry(
            with_entry(
                with_entry(
                    with_entry(
                        base,
                        "tool_invocation_id"@,
                        match c.parent_tool_invocation_id {
                            Some(id) => Some(text_value(uuid_text(id))),
                            None => None,
                        },
                    ),
                    "task_description"@,
                    match c.task_description {
                        Some(t) => Some(text_value(t@)),
                        None => None,
                    },
                ),
                "tool_count"@,
                opt_number(c.tool_count),
            ),
            "duration_ms"@,
            opt_number(c.duration_ms),
        ),
        "token_usage"@,
        match c.token_usage {
            Some(u) => Some(MetaView::Group(usage_group(u))),
            None => None,
        },
    )
}

/// The text of a completion marker.
pub open spec fn completion_text(c: SubagentCompletion) -> Seq<char> {
    "Subagent '"@ + display_name(c) + ("' "@ + status_label(c.status) + "."@)
}

/// Builds the marker of a finished subagent, with all that a reader needs to
/// show it again after a reload.
pub fn completion_marker(c: &SubagentCompletion, at: i64) -> (r: Message)
    ensures
        marker_message(
            r,
            completion_text(*c),
            lifecycle_base("subagent_completion"@).union_prefer_right(completion_entries(*c)),
            at,
        ),
{
    let name: String = match &c.subagent_name {
        Some(n) => n.clone(),
        None => "subagent".to_owned(),
    };
    let session: String = id_text(c.subagent_session_id);
    let mut meta: Metadata = Metadata::new();
    meta.set_text("subagent_name", name.as_str());
    meta.set_text("status", status_text(c.status));
    meta.set_text("session_id", session.as_str());
    meta.set_text("summary", c.summary.as_str());
    if let Some(id) = c.parent_tool_invocation_id {
        let text: String = id_text(id);
        meta.set_text("tool_invocation_id", text.as_str());
    }
    if let Some(task) = &c.task_description {
        meta.set_text("task_description", task.as_str());
    }
    if let Some(n) = c.tool_count {
        meta.set_count("tool_count", n);
    }
    if let Some(ms) = c.duration_ms {
        meta.set_count("duration_ms", ms);
    }
    if let Some(usage) = &c.token_usage {
        meta.set("token_usage", usage_value(usage));
    }
    let tail: String = concat3("' ", label_text(c.status), ".");
    let text: String = concat3("Subagent '", name.as_str(), tail.as_str());
    persist_lifecycle_marker("subagent_completion", text, ExtraMetadata::Object(meta), at)
}

/// How the parent's prompt words the end.
pub open spec fn prompt_status(status: TaskStatus) -> Seq<char> {
    match status {
        TaskStatus::Completed => "completed"@,
        TaskStatus::Failed => "failed"@,
        TaskStatus::Cancelled => "cancelled"@,
        TaskStatus::Other => "finished"@,
    }
}

/// How the parent's prompt names the subagent.
pub open spec fn prompt_label(c: SubagentCompletion) -> Seq<char> {
    match c.subagent_name {
        Some(n) => "\""@ + n@ + "\""@,
        None => "(task "@ + uuid_text(c.task_id) + ")"@,
    }
}

/// How the parent's prompt points to the full conversation.
pub open spec fn prompt_follow_up(c: SubagentCompletion) -> Seq<char> {
    match c.subagent_name {
        Some(n) => "Use read_subagent_session(\""@ + n@
            + "\") for the full conversation history."@,
        None => "Use read_subagent_session(session_id=\""@ + uuid_text(c.subagent_session_id)
            + "\") for the full conversation history."@,
    }
}

/// The prompt that tells the parent about a finished subagent.
pub open spec fn completion_prompt(template: Seq<char>, c: SubagentCompletion) -> Seq<char> {
    replaced(
        replaced(
            replaced(
                replaced(template, "{label}"@, prompt_label(c)),
                "{status}"@,
                prompt_status(c.status),
            ),
            "{summary}"@,
            c.summary@,
        ),
        "{follow_up}"@,
        prompt_follow_up(c),
    )
}

/// Writes the prompt that tells the parent about a finished subagent.
pub fn format_completion_notification(template: &str, c: &SubagentCompletion) -> (r: String)
    ensures
        r@ == completion_prompt(template@, *c),
{
    proof {
        reveal_strlit("{label}");
        reveal_strlit("{status}");
        reveal_strlit("{summary}");
        reveal_strlit("{follow_up}");
    }
    let status: &str = match c.status {
        TaskStatus::Completed => "completed",
        TaskStatus::Failed => "failed",
        TaskStatus::Cancelled => "cancelled",
        TaskStatus::Other => "finished",
    };
    let (label, follow_up): (String, String) = match &c.subagent_name {
        Some(name) => (
            concat3("\"", name.as_str(), "\""),
            concat3(
                "Use read_subagent_session(\"",
                name.as_str(),
                "\") for the full conversation history.",
            ),
        ),
        None => {
            let task: String = id_text(c.task_id);
            let session: String = id_text(c.subagent_session_id);
            (
                concat3("(task ", task.as_str(), ")"),
                concat3(
                    "Use read_subagent_session(session_id=\"",
                    session.as_str(),
                    "\") for the full conversation history.",
                ),
            )
        },
    };
    let a: String = replace_all(template, "{label}", label.as_str());
    let b: String = replace_all(a.as_str(), "{status}", status);
    let d: String = replace_all(b.as_str(), "{summary}", c.summary.as_str());
    replace_all(d.as_str(), "{follow_up}", follow_up.as_str())
}

/// The event `subagent_completed`.
#[derive(Debug, Clone, PartialEq, Eq)]
pub struct SubagentCompleted<S> {
    /// The session whose subscribers are told.
    pub session_id: SessionId,
    /// The tool call that started the subagent.
    pub tool_invocation_id: Option<u128>,
    /// The subagent's name, if it has one.
    pub subagent_name: Option<S>,
    /// How it ended, in a word.
    pub status: S,
    /// What it found.
    pub summary: S,
    /// Its own session.
    pub subagent_session_id: SessionId,
}

impl SubagentCompleted<String> {
    /// The mathematical reading.
    pub open spec fn view(&self) -> SubagentCompleted<Seq<char>> {
        SubagentCompleted {
            session_id: self.session_id,
            tool_invocation_id: self.tool_invocation_id,
            subagent_name: text_of(self.subagent_name),
            status: self.status@,
            summary: self.summary@,
            subagent_session_id: self.subagent_session_id,
        }
    }
}

/// The event on a completion.
pub open spec fn completed_event(c: SubagentCompletion) -> SubagentCompleted<Seq<char>> {
    SubagentCompleted {
        session_id: c.parent_session_id,
        tool_invocation_id: c.parent_tool_invocation_id,
        subagent_name: text_of(c.subagent_name),
        status: status_word(c.status),
        summary: c.summary@,
        subagent_session_id: c.subagent_session_id,
    }
}

fn event_of(c: &SubagentCompletion) -> (r: SubagentCompleted<String>)
    ensures
        r@ == completed_event(*c),
{
    SubagentCompleted {
        session_id: c.parent_session_id,
        tool_invocation_id: c.parent_tool_invocation_id,
        subagent_name: match &c.subagent_name {
            Some(name) => Some(name.clone()),
            None => None,
        },
        status: status_text(c.status).to_owned(),
        summary: c.summary.clone(),
        subagent_session_id: c.subagent_session_id,
    }
}

/// Something that the completion of a subagent makes happen.
#[derive(Debug)]
pub enum CompletionAction {
    /// Store the marker in the parent's history.
    PersistMarker(Message),
    /// Publish the event on the parent's session.
    PublishCompleted(SubagentCompleted<String>),
    /// Start the run that tells the parent.
    EnqueueRun(RunRequest<String>),
}

/// `actions` follow the completion of a subagent whose parent session has this
/// context id. The marker is stored before the event is published: whoever
/// sees the event in the log finds the marker in the history.
pub open spec fn completion_actions(
    actions: Seq<CompletionAction>,
    template: Seq<char>,
    c: SubagentCompletion,
    context_id: Seq<char>,
    job: Option<JobId>,
    at: i64,
) -> bool {
    &&& actions.len() == 3
    &&& actions[0] matches CompletionAction::PersistMarker(m) && marker_message(
        m,
        completion_text(c),
        lifecycle_base("subagent_completion"@).union_prefer_right(completion_entries(c)),
        at,
    )
    &&& actions[1] matches CompletionAction::PublishCompleted(e) && e@ == completed_event(c)
    &&& actions[2] matches CompletionAction::EnqueueRun(request) && request@ == (RunRequest {
        agent_id: c.parent_agent_id,
        session_id: c.parent_session_id,
        context_id,
        input: completion_prompt(template, c),
        source_label: "subagent"@,
        is_peer_message: false,
        job_id: job,
        dm_ended_peer: None,
    })
}

/// Decides what follows the completion of a subagent. `parent_context` is the
/// context id of the parent's session; when that session is gone, nothing
/// follows. A completion that an open episode waited for is resolved against
/// it, and the run continues the episode's job.
pub fn on_subagent_completion(
    tracker: &mut JobEpisodeTracker,
    template: &str,
    completion: &SubagentCompletion,
    parent_context: Option<String>,
    at: i64,
) -> (r: Vec<CompletionAction>)
    requires
        well_formed(old(tracker)@),
        have_room(old(tracker)@, 1),
    ensures
        well_formed(final(tracker)@),
        final(tracker).deadline == old(tracker).deadline,
        parent_context is None ==> r@.len() == 0 && final(tracker)@ == old(tracker)@,
        parent_context matches Some(context) ==> exists|job: Option<JobId>|
            #![trigger resolves(old(tracker)@, final(tracker)@, completion.task_id, job)]
            resolves(old(tracker)@, final(tracker)@, completion.task_id, job)
                && completion_actions(r@, template@, *completion, context@, job, at),
{
    let mut actions: Vec<CompletionAction> = Vec::new();
    let context_id: String = match parent_context {
        Some(c) => c,
        None => return actions,
    };
    let marker: Message = completion_marker(completion, at);
    actions.push(CompletionAction::PersistMarker(marker));
    actions.push(CompletionAction::PublishCompleted(event_of(completion)));
    let input: String = format_completion_notification(template, completion);
    let route: Option<ContinuationRoute> = tracker.resolve_subagent(completion.task_id);
    let job_id: Option<JobId> = match route {
        Some(found) => Some(found.job_id),
        None => None,
    };
    assert(resolves(old(tracker)@, tracker@, completion.task_id, job_id));
    actions.push(
        CompletionAction::EnqueueRun(
            RunRequest {
                agent_id: completion.parent_agent_id,
                session_id: completion.parent_session_id,
                context_id,
                input,
                source_label: "subagent".to_owned(),
                is_peer_message: false,
                job_id,
                dm_ended_peer: None,
            },
        ),
    );
    actions
}

/// The registry after a subagent finished: the episode of `job` waited for it
/// and goes on, or none did.
pub open spec fn resolves(
    before: Episodes,
    after: Episodes,
    task: TaskId,
    job: Option<JobId>,
) -> bool {
    match job {
        Some(j) => awaits_subagent(before, j, task) && after == before.insert(
            j,
            after_subagent(before[j], task),
        ),
        None => after == before && forall|j: JobId| !#[trigger] awaits_subagent(before, j, task),
    }
}

/// A subagent's completion is in the parent's history before any subscriber
/// hears of it, and before the run that it leads to.
pub proof fn law_marker_is_stored_first(
    actions: Seq<CompletionAction>,
    template: Seq<char>,
    c: SubagentCompletion,
    context_id: Seq<char>,
    job: Option<JobId>,
    at: i64,
    i: int,
)
    requires
        completion_actions(actions, template, c, context_id, job, at),
        0 <= i < actions.len(),
        !(actions[i] is PersistMarker),
    ensures
        0 < i,
        actions[0] is PersistMarker,
{
}

/// Each completion leads to one marker and one event, and they agree on the
/// subagent's session, on how it ended and on the tool call that started it.
pub proof fn law_event_agrees_with_its_marker(
    actions: Seq<CompletionAction>,
    template: Seq<char>,
    c: SubagentCompletion,
    context_id: Seq<char>,
    job: Option<JobId>,
    at: i64,
    i: int,
)
    requires
        completion_actions(actions, template, c, context_id, job, at),
        0 <= i < actions.len(),
    ensures
        actions[i] is PersistMarker <==> i == 0,
        actions[i] is PublishCompleted <==> i == 1,
        ({
            let entries = actions[0]->PersistMarker_0.metadata->0@;
            let event = actions[1]->PublishCompleted_0@;
            &&& entries.contains_key("session_id"@)
            &&& entries["session_id"@] == text_value(uuid_text(event.subagent_session_id))
            &&& entries.contains_key("status"@)
            &&& entries["status"@] == text_value(event.status)
            &&& match event.tool_invocation_id {
                Some(id) => entries.contains_key("tool_invocation_id"@)
                    && entries["tool_invocation_id"@] == text_value(uuid_text(id)),
                None => !entries.contains_key("tool_invocation_id"@),
            }
        }),
{
    reveal_strlit("synthetic");
    reveal_strlit("type");
    reveal_strlit("subagent_name");
    reveal_strlit("status");
    reveal_strlit("session_id");
    reveal_strlit("summary");
    reveal_strlit("tool_invocation_id");
    reveal_strlit("task_description");
    reveal_strlit("tool_count");
    reveal_strlit("duration_ms");
    reveal_strlit("token_usage");
    assert("session_id"@[0] != "tool_count"@[0]);
    assert("session_id"@.len() != "summary"@.len());
    assert("session_id"@.len() != "tool_invocation_id"@.len());
    assert("session_id"@.len() != "task_description"@.len());
    assert("session_id"@.len() != "duration_ms"@.len());
    assert("session_id"@.len() != "token_usage"@.len());
    assert("status"@.len() != "session_id"@.len());
    assert("status"@.len() != "summary"@.len());
    assert("status"@.len() != "tool_invocation_id"@.len());
    assert("status"@.len() != "task_description"@.len());
    assert("status"@.len() != "tool_count"@.len());
    assert("status"@.len() != "duration_ms"@.len());
    assert("status"@.len() != "token_usage"@.len());
    let own = completion_entries(c);
    assert(own.contains_key("session_id"@) && own["session_id"@] == text_value(
        uuid_text(c.subagent_session_id),
    ));
    assert(own.contains_key("status"@) && own["status"@] == text_value(status_word(c.status)));
    assert(own.contains_key("tool_invocation_id"@) <==> c.parent_tool_invocation_id is Some);
}

} // verus!
