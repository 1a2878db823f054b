//! What the notices about finished work say, stated of the operations that
//! write them: completion markers and prompts, the end of a conversation, and
//! the cards of jobs.

use crate::completion::{
    completion_actions, completion_marker, format_completion_notification, on_subagent_completion,
    prompt_follow_up, prompt_label, prompt_status, resolves, status_label, status_word,
    CompletionAction, SubagentCompletion, TaskStatus, TokenUsage,
};
use crate::context::{faces_user, internal_context, lemma_user_facing, text_of, Session};
use crate::dm_notice::{
    ended_because, format_dm_ended_notification, notify_dm_ended_to_webchat, reason_words,
    EndedTemplates, WebchatNotice,
};
use crate::ids::{
    hex_char, hex_digits, job_of_context, law_job_context_reads_back, uuid_text, AgentId, JobId,
    RunId, SessionId,
};
use crate::job_card::{
    full_summary, job_outcome, notify_job_completion, outcome_label, JobCard, RunResult, RunStatus,
};
use crate::job_episode::{awaits_subagent, JobEpisodeTracker};
use crate::jobs::EpisodeCloseStats;
use crate::markers::{persist_error_marker, persist_lifecycle_marker, ExtraMetadata};
use crate::messages::{Content, Message, Role};
use crate::metadata::{count_value, flag_value, null_value, text_value, MetaView, ScalarView};
use crate::peer::{ConversationEndReason, EndReason};
use crate::runtime_plan::{init_failure_marker, run_boundary_marker};
use crate::text::{
    after, begins_with, decimal, holds_text, lemma_piece_survives, lemma_plain_piece_survives,
    lemma_replacement_appears, lemma_unmatched_stays, replace_all, replaced, single_line,
    stands_at, without_braces,
};
use vstd::prelude::*;

verus! {

/// The entry of a message's metadata under `key`.
pub open spec fn noted(message: Message, key: Seq<char>) -> Option<MetaView> {
    match message.metadata {
        Some(m) => if m@.contains_key(key) {
            Some(m@[key])
        } else {
            None
        },
        None => None,
    }
}

/// The text that a message shows.
pub open spec fn shown(message: Message) -> Seq<char> {
    match message.content {
        Content::Text(t) => t@,
        Content::Other => seq![],
    }
}

/// The message is a marker of this type, dated `at`: the system's own, and
/// flagged so that transcripts leave it out.
pub open spec fn marks(message: Message, marker_type: Seq<char>, at: i64) -> bool {
    &&& message.role == Role::System
    &&& message.content is Text
    &&& message.timestamp == at
    &&& noted(message, "synthetic"@) == Some(flag_value(true))
    &&& noted(message, "type"@) == Some(text_value(marker_type))
}

/// An optional text as an entry.
pub open spec fn text_entry(text: Option<Seq<char>>) -> Option<MetaView> {
    match text {
        Some(t) => Some(text_value(t)),
        None => None,
    }
}

/// An optional number as an entry.
pub open spec fn count_entry(n: Option<u64>) -> Option<MetaView> {
    match n {
        Some(x) => Some(count_value(x)),
        None => None,
    }
}

/// The value under `key` in a group, if it is there.
pub open spec fn in_group(entry: Option<MetaView>, key: Seq<char>) -> Option<ScalarView> {
    match entry {
        Some(MetaView::Group(group)) => if group.contains_key(key) {
            Some(group[key])
        } else {
            None
        },
        _ => None,
    }
}

/// The entries of a completion marker have different names.
pub proof fn lemma_completion_keys()
    ensures
        "synthetic"@ != "type"@,
        "synthetic"@ != "subagent_name"@,
        "synthetic"@ != "status"@,
        "synthetic"@ != "session_id"@,
        "synthetic"@ != "summary"@,
        "synthetic"@ != "tool_invocation_id"@,
        "synthetic"@ != "task_description"@,
        "synthetic"@ != "tool_count"@,
        "synthetic"@ != "duration_ms"@,
        "synthetic"@ != "token_usage"@,
        "type"@ != "subagent_name"@,
        "type"@ != "status"@,
        "type"@ != "session_id"@,
        "type"@ != "summary"@,
        "type"@ != "tool_invocation_id"@,
        "type"@ != "task_description"@,
        "type"@ != "tool_count"@,
        "type"@ != "duration_ms"@,
        "type"@ != "token_usage"@,
        "subagent_name"@ != "status"@,
        "subagent_name"@ != "session_id"@,
        "subagent_name"@ != "summary"@,
        "subagent_name"@ != "tool_invocation_id"@,
        "subagent_name"@ != "task_description"@,
        "subagent_name"@ != "tool_count"@,
        "subagent_name"@ != "duration_ms"@,
        "subagent_name"@ != "token_usage"@,
        "status"@ != "session_id"@,
        "status"@ != "summary"@,
        "status"@ != "tool_invocation_id"@,
        "status"@ != "task_description"@,
        "status"@ != "tool_count"@,
        "status"@ != "duration_ms"@,
        "status"@ != "token_usage"@,
        "session_id"@ != "summary"@,
        "session_id"@ != "tool_invocation_id"@,
        "session_id"@ != "task_description"@,
        "session_id"@ != "tool_count"@,
        "session_id"@ != "duration_ms"@,
        "session_id"@ != "token_usage"@,
        "summary"@ != "tool_invocation_id"@,
        "summary"@ != "task_description"@,
        "summary"@ != "tool_count"@,
        "summary"@ != "duration_ms"@,
        "summary"@ != "token_usage"@,
        "tool_invocation_id"@ != "task_description"@,
        "tool_invocation_id"@ != "tool_count"@,
        "tool_invocation_id"@ != "duration_ms"@,
        "tool_invocation_id"@ != "token_usage"@,
        "task_description"@ != "tool_count"@,
        "task_description"@ != "duration_ms"@,
        "task_description"@ != "token_usage"@,
        "tool_count"@ != "duration_ms"@,
        "tool_count"@ != "token_usage"@,
        "duration_ms"@ != "token_usage"@,
{
    reveal_strlit("synthetic");
    reveal_strlit("type");
    reveal_strlit("subagent_name");
    reveal_strlit("status");
    reveal_strlit("session_id");
    reveal_strlit("summary");
    reveal_strlit("tool_invocation_id");
    reveal_strlit("task_description");
    reveal_strlit("tool_count");
    reveal_strlit("duration_ms");
    reveal_strlit("token_usage");
    assert("synthetic"@.len() != "type"@.len());
    assert("synthetic"@.len() != "subagent_name"@.len());
    assert("synthetic"@.len() != "status"@.len());
    assert("synthetic"@.len() != "session_id"@.len());
    assert("synthetic"@.len() != "summary"@.len());
    assert("synthetic"@.len() != "tool_invocation_id"@.len());
    assert("synthetic"@.len() != "task_description"@.len());
    assert("synthetic"@.len() != "tool_count"@.len());
    assert("synthetic"@.len() != "duration_ms"@.len());
    assert("synthetic"@.len() != "token_usage"@.len());
    assert("type"@.len() != "subagent_name"@.len());
    assert("type"@.len() != "status"@.len());
    assert("type"@.len() != "session_id"@.len());
    assert("type"@.len() != "summary"@.len());
    assert("type"@.len() != "tool_invocation_id"@.len());
    assert("type"@.len() != "task_description"@.len());
    assert("type"@.len() != "tool_count"@.len());
    assert("type"@.len() != "duration_ms"@.len());
    assert("type"@.len() != "token_usage"@.len());
    assert("subagent_name"@.len() != "status"@.len());
    assert("subagent_name"@.len() != "session_id"@.len());
    assert("subagent_name"@.len() != "summary"@.len());
    assert("subagent_name"@.len() != "tool_invocation_id"@.len());
    assert("subagent_name"@.len() != "task_description"@.len());
    assert("subagent_name"@.len() != "tool_count"@.len());
    assert("subagent_name"@.len() != "duration_ms"@.len());
    assert("subagent_name"@.len() != "token_usage"@.len());
    assert("status"@.len() != "session_id"@.len());
    assert("status"@.len() != "summary"@.len());
    assert("status"@.len() != "tool_invocation_id"@.len());
    assert("status"@.len() != "task_description"@.len());
    assert("status"@.len() != "tool_count"@.len());
    assert("status"@.len() != "duration_ms"@.len());
    assert("status"@.len() != "token_usage"@.len());
    assert("session_id"@.len() != "summary"@.len());
    assert("session_id"@.len() != "tool_invocation_id"@.len());
    assert("session_id"@.len() != "task_description"@.len());
    assert("session_id"@[0] != "tool_count"@[0]);
    assert("session_id"@.len() != "duration_ms"@.len());
    assert("session_id"@.len() != "token_usage"@.len());
    assert("summary"@.len() != "tool_invocation_id"@.len());
    assert("summary"@.len() != "task_description"@.len());
    assert("summary"@.len() != "tool_count"@.len());
    assert("summary"@.len() != "duration_ms"@.len());
    assert("summary"@.len() != "token_usage"@.len());
    assert("tool_invocation_id"@.len() != "task_description"@.len());
    assert("tool_invocation_id"@.len() != "tool_count"@.len());
    assert("tool_invocation_id"@.len() != "duration_ms"@.len());
    assert("tool_invocation_id"@.len() != "token_usage"@.len());
    assert("task_description"@.len() != "tool_count"@.len());
    assert("task_description"@.len() != "duration_ms"@.len());
    assert("task_description"@.len() != "token_usage"@.len());
    assert("tool_count"@.len() != "duration_ms"@.len());
    assert("tool_count"@.len() != "token_usage"@.len());
    assert("duration_ms"@[0] != "token_usage"@[0]);
}

/// The counts of used tokens have different names.
pub proof fn lemma_usage_keys()
    ensures
        "prompt_tokens"@ != "completion_tokens"@,
        "prompt_tokens"@ != "reasoning_tokens"@,
        "prompt_tokens"@ != "cache_creation_input_tokens"@,
        "prompt_tokens"@ != "cache_read_input_tokens"@,
        "completion_tokens"@ != "reasoning_tokens"@,
        "completion_tokens"@ != "cache_creation_input_tokens"@,
        "completion_tokens"@ != "cache_read_input_tokens"@,
        "reasoning_tokens"@ != "cache_creation_input_tokens"@,
        "reasoning_tokens"@ != "cache_read_input_tokens"@,
        "cache_creation_input_tokens"@ != "cache_read_input_tokens"@,
{
    reveal_strlit("prompt_tokens");
    reveal_strlit("completion_tokens");
    reveal_strlit("reasoning_tokens");
    reveal_strlit("cache_creation_input_tokens");
    reveal_strlit("cache_read_input_tokens");
    assert("prompt_tokens"@.len() != "completion_tokens"@.len());
    assert("prompt_tokens"@.len() != "reasoning_tokens"@.len());
    assert("prompt_tokens"@.len() != "cache_creation_input_tokens"@.len());
    assert("prompt_tokens"@.len() != "cache_read_input_tokens"@.len());
    assert("completion_tokens"@.len() != "reasoning_tokens"@.len());
    assert("completion_tokens"@.len() != "cache_creation_input_tokens"@.len());
    assert("completion_tokens"@.len() != "cache_read_input_tokens"@.len());
    assert("reasoning_tokens"@.len() != "cache_creation_input_tokens"@.len());
    assert("reasoning_tokens"@.len() != "cache_read_input_tokens"@.len());
    assert("cache_creation_input_tokens"@.len() != "cache_read_input_tokens"@.len());
}

/// The entries of a job card's marker have different names.
pub proof fn lemma_card_keys()
    ensures
        "synthetic"@ != "type"@,
        "synthetic"@ != "job_status"@,
        "synthetic"@ != "run_id"@,
        "synthetic"@ != "job_id"@,
        "synthetic"@ != "job_session_id"@,
        "synthetic"@ != "job_session_uuid"@,
        "synthetic"@ != "truncated"@,
        "synthetic"@ != "episode"@,
        "type"@ != "job_status"@,
        "type"@ != "run_id"@,
        "type"@ != "job_id"@,
        "type"@ != "job_session_id"@,
        "type"@ != "job_session_uuid"@,
        "type"@ != "truncated"@,
        "type"@ != "episode"@,
        "job_status"@ != "run_id"@,
        "job_status"@ != "job_id"@,
        "job_status"@ != "job_session_id"@,
        "job_status"@ != "job_session_uuid"@,
        "job_status"@ != "truncated"@,
        "job_status"@ != "episode"@,
        "run_id"@ != "job_id"@,
        "run_id"@ != "job_session_id"@,
        "run_id"@ != "job_session_uuid"@,
        "run_id"@ != "truncated"@,
        "run_id"@ != "episode"@,
        "job_id"@ != "job_session_id"@,
        "job_id"@ != "job_session_uuid"@,
        "job_id"@ != "truncated"@,
        "job_id"@ != "episode"@,
        "job_session_id"@ != "job_session_uuid"@,
        "job_session_id"@ != "truncated"@,
        "job_session_id"@ != "episode"@,
        "job_session_uuid"@ != "truncated"@,
        "job_session_uuid"@ != "episode"@,
        "truncated"@ != "episode"@,
{
    reveal_strlit("synthetic");
    reveal_strlit("type");
    reveal_strlit("job_status");
    reveal_strlit("run_id");
    reveal_strlit("job_id");
    reveal_strlit("job_session_id");
    reveal_strlit("job_session_uuid");
    reveal_strlit("truncated");
    reveal_strlit("episode");
    assert("synthetic"@.len() != "type"@.len());
    assert("synthetic"@.len() != "job_status"@.len());
    assert("synthetic"@.len() != "run_id"@.len());
    assert("synthetic"@.len() != "job_id"@.len());
    assert("synthetic"@.len() != "job_session_id"@.len());
    assert("synthetic"@.len() != "job_session_uuid"@.len());
    assert("synthetic"@[0] != "truncated"@[0]);
    assert("synthetic"@.len() != "episode"@.len());
    assert("type"@.len() != "job_status"@.len());
    assert("type"@.len() != "run_id"@.len());
    assert("type"@.len() != "job_id"@.len());
    assert("type"@.len() != "job_session_id"@.len());
    assert("type"@.len() != "job_session_uuid"@.len());
    assert("type"@.len() != "truncated"@.len());
    assert("type"@.len() != "episode"@.len());
    assert("job_status"@.len() != "run_id"@.len());
    assert("job_status"@.len() != "job_id"@.len());
    assert("job_status"@.len() != "job_session_id"@.len());
    assert("job_status"@.len() != "job_session_uuid"@.len());
    assert("job_status"@.len() != "truncated"@.len());
    assert("job_status"@.len() != "episode"@.len());
    assert("run_id"@[0] != "job_id"@[0]);
    assert("run_id"@.len() != "job_session_id"@.len());
    assert("run_id"@.len() != "job_session_uuid"@.len());
    assert("run_id"@.len() != "truncated"@.len());
    assert("run_id"@.len() != "episode"@.len());
    assert("job_id"@.len() != "job_session_id"@.len());
    assert("job_id"@.len() != "job_session_uuid"@.len());
    assert("job_id"@.len() != "truncated"@.len());
    assert("job_id"@.len() != "episode"@.len());
    assert("job_session_id"@.len() != "job_session_uuid"@.len());
    assert("job_session_id"@.len() != "truncated"@.len());
    assert("job_session_id"@.len() != "episode"@.len());
    assert("job_session_uuid"@.len() != "truncated"@.len());
    assert("job_session_uuid"@.len() != "episode"@.len());
    assert("truncated"@.len() != "episode"@.len());
}

/// The figures of an episode have different names.
pub proof fn lemma_figure_keys()
    ensures
        "turns"@ != "dm_count"@,
        "turns"@ != "subagent_count"@,
        "turns"@ != "timed_out"@,
        "turns"@ != "detached"@,
        "dm_count"@ != "subagent_count"@,
        "dm_count"@ != "timed_out"@,
        "dm_count"@ != "detached"@,
        "subagent_count"@ != "timed_out"@,
        "subagent_count"@ != "detached"@,
        "timed_out"@ != "detached"@,
{
    reveal_strlit("turns");
    reveal_strlit("dm_count");
    reveal_strlit("subagent_count");
    reveal_strlit("timed_out");
    reveal_strlit("detached");
    assert("turns"@.len() != "dm_count"@.len());
    assert("turns"@.len() != "subagent_count"@.len());
    assert("turns"@.len() != "timed_out"@.len());
    assert("turns"@.len() != "detached"@.len());
    assert("dm_count"@.len() != "subagent_count"@.len());
    assert("dm_count"@.len() != "timed_out"@.len());
    assert("dm_count"@[1] != "detached"@[1]);
    assert("subagent_count"@.len() != "timed_out"@.len());
    assert("subagent_count"@.len() != "detached"@.len());
    assert("timed_out"@.len() != "detached"@.len());
}

/// The entries of the marker of an ended conversation have different names.
pub proof fn lemma_ended_keys()
    ensures
        "synthetic"@ != "type"@,
        "synthetic"@ != "peer"@,
        "synthetic"@ != "reason"@,
        "synthetic"@ != "context_id"@,
        "synthetic"@ != "detail"@,
        "type"@ != "peer"@,
        "type"@ != "reason"@,
        "type"@ != "context_id"@,
        "type"@ != "detail"@,
        "peer"@ != "reason"@,
        "peer"@ != "context_id"@,
        "peer"@ != "detail"@,
        "reason"@ != "context_id"@,
        "reason"@ != "detail"@,
        "context_id"@ != "detail"@,
{
    reveal_strlit("synthetic");
    reveal_strlit("type");
    reveal_strlit("peer");
    reveal_strlit("reason");
    reveal_strlit("context_id");
    reveal_strlit("detail");
    assert("synthetic"@.len() != "type"@.len());
    assert("synthetic"@.len() != "peer"@.len());
    assert("synthetic"@.len() != "reason"@.len());
    assert("synthetic"@.len() != "context_id"@.len());
    assert("synthetic"@.len() != "detail"@.len());
    assert("type"@[0] != "peer"@[0]);
    assert("type"@.len() != "reason"@.len());
    assert("type"@.len() != "context_id"@.len());
    assert("type"@.len() != "detail"@.len());
    assert("peer"@.len() != "reason"@.len());
    assert("peer"@.len() != "context_id"@.len());
    assert("peer"@.len() != "detail"@.len());
    assert("reason"@.len() != "context_id"@.len());
    assert("reason"@[0] != "detail"@[0]);
    assert("context_id"@.len() != "detail"@.len());
}

/// The entries of the marker of a failed start have different names.
pub proof fn lemma_failure_keys()
    ensures
        "synthetic"@ != "kind"@,
        "synthetic"@ != "type"@,
        "synthetic"@ != "run_id"@,
        "synthetic"@ != "status"@,
        "synthetic"@ != "error"@,
        "synthetic"@ != "error_kind"@,
        "kind"@ != "type"@,
        "kind"@ != "run_id"@,
        "kind"@ != "status"@,
        "kind"@ != "error"@,
        "kind"@ != "error_kind"@,
        "type"@ != "run_id"@,
        "type"@ != "status"@,
        "type"@ != "error"@,
        "type"@ != "error_kind"@,
        "run_id"@ != "status"@,
        "run_id"@ != "error"@,
        "run_id"@ != "error_kind"@,
        "status"@ != "error"@,
        "status"@ != "error_kind"@,
        "error"@ != "error_kind"@,
{
    reveal_strlit("synthetic");
    reveal_strlit("kind");
    reveal_strlit("type");
    reveal_strlit("run_id");
    reveal_strlit("status");
    reveal_strlit("error");
    reveal_strlit("error_kind");
    assert("synthetic"@.len() != "kind"@.len());
    assert("synthetic"@.len() != "type"@.len());
    assert("synthetic"@.len() != "run_id"@.len());
    assert("synthetic"@.len() != "status"@.len());
    assert("synthetic"@.len() != "error"@.len());
    assert("synthetic"@.len() != "error_kind"@.len());
    assert("kind"@[0] != "type"@[0]);
    assert("kind"@.len() != "run_id"@.len());
    assert("kind"@.len() != "status"@.len());
    assert("kind"@.len() != "error"@.len());
    assert("kind"@.len() != "error_kind"@.len());
    assert("type"@.len() != "run_id"@.len());
    assert("type"@.len() != "status"@.len());
    assert("type"@.len() != "error"@.len());
    assert("type"@.len() != "error_kind"@.len());
    assert("run_id"@[0] != "status"@[0]);
    assert("run_id"@.len() != "error"@.len());
    assert("run_id"@.len() != "error_kind"@.len());
    assert("status"@.len() != "error"@.len());
    assert("status"@.len() != "error_kind"@.len());
    assert("error"@.len() != "error_kind"@.len());
}


/// The marker of a finished subagent tells how it ended, in its text and for
/// programs: a failure and a cancellation are each told as that, and nothing
/// else is. It names the subagent, its session, what it found and the tool call
/// that started it, and every other fact exactly when the report has it.
pub proof fn law_completion_marker_tells_the_report(c: SubagentCompletion, at: i64, m: Message)
    requires
        call_ensures(completion_marker, (&c, at), m),
    ensures
        marks(m, "subagent_completion"@, at),
        ({
            let name = match c.subagent_name {
                Some(n) => n@,
                None => "subagent"@,
            };
            &&& noted(m, "subagent_name"@) == Some(text_value(name))
            &&& c.status == TaskStatus::Failed ==> shown(m) == "Subagent '"@ + name + (
            "' "@ + "failed"@ + "."@) && noted(m, "status"@) == Some(text_value("fail"@))
            &&& c.status == TaskStatus::Cancelled ==> shown(m) == "Subagent '"@ + name + (
            "' "@ + "cancelled"@ + "."@) && noted(m, "status"@) == Some(text_value("cancelled"@))
            &&& c.status != TaskStatus::Failed && c.status != TaskStatus::Cancelled ==> shown(m)
                == "Subagent '"@ + name + ("' "@ + "completed"@ + "."@) && noted(m, "status"@)
                == Some(text_value("done"@))
        }),
        noted(m, "session_id"@) == Some(text_value(uuid_text(c.subagent_session_id))),
        noted(m, "summary"@) == Some(text_value(c.summary@)),
        noted(m, "task_description"@) == text_entry(text_of(c.task_description)),
        noted(m, "tool_count"@) == count_entry(c.tool_count),
        noted(m, "duration_ms"@) == count_entry(c.duration_ms),
        c.parent_tool_invocation_id matches Some(id) ==> noted(m, "tool_invocation_id"@) == Some(
            text_value(uuid_text(id)),
        ),
        c.parent_tool_invocation_id is None ==> noted(m, "tool_invocation_id"@) is None,
        noted(m, "token_usage"@) is Some <==> c.token_usage is Some,
{
    lemma_completion_keys();
}

/// The marker of a finished subagent holds the tokens it used, each count under
/// its own name, and those that the provider did not report not at all.
pub proof fn law_completion_marker_counts_tokens(
    c: SubagentCompletion,
    usage: TokenUsage,
    at: i64,
    m: Message,
)
    requires
        call_ensures(completion_marker, (&c, at), m),
        c.token_usage == Some(usage),
    ensures
        ({
            let group = noted(m, "token_usage"@);
            &&& in_group(group, "prompt_tokens"@) == Some(ScalarView::Count(usage.prompt_tokens))
            &&& in_group(group, "completion_tokens"@) == Some(
                ScalarView::Count(usage.completion_tokens),
            )
            &&& in_group(group, "reasoning_tokens"@) == counted(usage.reasoning_tokens)
            &&& in_group(group, "cache_creation_input_tokens"@) == counted(
                usage.cache_creation_input_tokens,
            )
            &&& in_group(group, "cache_read_input_tokens"@) == counted(
                usage.cache_read_input_tokens,
            )
        }),
{
    lemma_completion_keys();
    lemma_usage_keys();
}

/// An optional number as a single value.
pub open spec fn counted(n: Option<u64>) -> Option<ScalarView> {
    match n {
        Some(x) => Some(ScalarView::Count(x)),
        None => None,
    }
}

/// A piece of a piece of a text is a piece of the text.
proof fn lemma_piece_of_piece(text: Seq<char>, piece: Seq<char>, part: Seq<char>)
    requires
        holds_text(text, piece),
        holds_text(piece, part),
    ensures
        holds_text(text, part),
{
    let a = choose|at: int| stands_at(text, at, piece);
    let b = choose|at: int| stands_at(piece, at, part);
    assert(text.subrange(a + b, a + b + part.len()) =~= text.subrange(
        a,
        a + piece.len(),
    ).subrange(b, b + part.len()));
    assert(stands_at(text, a + b, part));
}

/// A text is a piece of what it stands in the middle of.
proof fn lemma_middle(a: Seq<char>, b: Seq<char>, c: Seq<char>)
    ensures
        holds_text(a + b + c, b),
        holds_text(a + b, b),
        holds_text(b + c, b),
{
    assert((a + b + c).subrange(a.len() as int, a.len() + b.len() as int) =~= b);
    assert(stands_at(a + b + c, a.len() as int, b));
    assert((a + b).subrange(a.len() as int, a.len() + b.len() as int) =~= b);
    assert(stands_at(a + b, a.len() as int, b));
    assert((b + c).subrange(0, b.len() as int) =~= b);
    assert(stands_at(b + c, 0, b));
}

/// A piece that no slot can swallow: it holds no brace and is no part of the
/// slot's name.
pub open spec fn outlives(piece: Seq<char>, slot: Seq<char>) -> bool {
    piece.len() > 0 && without_braces(piece) && !holds_text(slot, piece)
}

/// A plain piece outlives the filling of a slot.
proof fn lemma_outlives(text: Seq<char>, slot: Seq<char>, with: Seq<char>, piece: Seq<char>)
    requires
        slot.len() > 1,
        slot[0] == '{',
        slot.last() == '}',
        outlives(piece, slot),
        holds_text(text, piece),
    ensures
        holds_text(replaced(text, slot, with), piece),
{
    let at = choose|at: int| stands_at(text, at, piece);
    lemma_plain_piece_survives(text, slot, with, piece, at);
}

/// A slot outlives the filling of another one.
proof fn lemma_slot_outlives(text: Seq<char>, slot: Seq<char>, with: Seq<char>, other: Seq<char>)
    requires
        slot.len() > 1,
        other.len() > 1,
        slot[0] == other[0],
        slot[1] != other[1],
        forall|i: int| 0 < i < slot.len() ==> #[trigger] slot[i] != slot[0],
        forall|i: int| 0 < i < other.len() ==> #[trigger] other[i] != other[0],
        holds_text(text, other),
    ensures
        holds_text(replaced(text, slot, with), other),
{
    let at = choose|at: int| stands_at(text, at, other);
    lemma_piece_survives(text, slot, with, other, at);
}

/// What fills a slot stands in the text.
proof fn lemma_filled(text: Seq<char>, slot: Seq<char>, with: Seq<char>)
    requires
        slot.len() > 0,
        holds_text(text, slot),
    ensures
        holds_text(replaced(text, slot, with), with),
{
    let at = choose|at: int| stands_at(text, at, slot);
    lemma_replacement_appears(text, slot, with, at);
}

/// A word of letters is no part of a slot in which its first letter is not
/// followed by its second.
proof fn lemma_not_in_slot(slot: Seq<char>, word: Seq<char>)
    requires
        word.len() >= 2,
        forall|i: int|
            0 <= i < slot.len() - 1 ==> #[trigger] slot[i] != word[0] || slot[i + 1] != word[1],
    ensures
        !holds_text(slot, word),
{
    if holds_text(slot, word) {
        let at = choose|at: int| stands_at(slot, at, word);
        assert(slot.subrange(at, at + word.len())[0] == word[0]);
        assert(slot.subrange(at, at + word.len())[1] == word[1]);
        assert(slot[at] == word[0] && slot[at + 1] == word[1]);
    }
}

/// The word for how a task ended.
pub open spec fn end_word(status: TaskStatus) -> Seq<char> {
    match status {
        TaskStatus::Completed => "completed"@,
        TaskStatus::Failed => "failed"@,
        TaskStatus::Cancelled => "cancelled"@,
        TaskStatus::Other => "finished"@,
    }
}

/// The slots of the prompt about a finished subagent.
proof fn lemma_completion_slots()
    ensures
        "{label}"@.len() > 1 && "{label}"@[0] == '{' && "{label}"@[1] == 'l'
            && "{label}"@.last() == '}',
        "{status}"@.len() > 1 && "{status}"@[0] == '{' && "{status}"@[1] == 's' && "{status}"@[2]
            == 't' && "{status}"@.last() == '}',
        "{summary}"@.len() > 1 && "{summary}"@[0] == '{' && "{summary}"@[1] == 's'
            && "{summary}"@[2] == 'u' && "{summary}"@.last() == '}',
        "{follow_up}"@.len() > 1 && "{follow_up}"@[0] == '{' && "{follow_up}"@[1] == 'f'
            && "{follow_up}"@.last() == '}',
        forall|i: int| 0 < i < "{label}"@.len() ==> #[trigger] "{label}"@[i] != '{',
        forall|i: int| 0 < i < "{status}"@.len() ==> #[trigger] "{status}"@[i] != '{',
        forall|i: int| 0 < i < "{summary}"@.len() ==> #[trigger] "{summary}"@[i] != '{',
        forall|i: int| 0 < i < "{follow_up}"@.len() ==> #[trigger] "{follow_up}"@[i] != '{',
{
    reveal_strlit("{label}");
    reveal_strlit("{status}");
    reveal_strlit("{summary}");
    reveal_strlit("{follow_up}");
}

/// The words for the four ends are different, and the two that a reader has to
/// tell apart from a success agree with the words in the completion marker's
/// text.
pub proof fn law_ends_have_different_words(a: TaskStatus, b: TaskStatus)
    requires
        a != b,
    ensures
        prompt_status(a) != prompt_status(b),
        a == TaskStatus::Failed || a == TaskStatus::Cancelled ==> prompt_status(
            a,
        ) == status_label(a),
        a == TaskStatus::Failed || a == TaskStatus::Cancelled
            ==> status_label(a) != status_label(b)
            && status_word(a) != status_word(b),
{
    reveal_strlit("completed");
    reveal_strlit("failed");
    reveal_strlit("cancelled");
    reveal_strlit("finished");
    reveal_strlit("done");
    reveal_strlit("fail");
    assert("completed"@.len() != "failed"@.len());
    assert("completed"@[1] != "cancelled"@[1]);
    assert("completed"@.len() != "finished"@.len());
    assert("failed"@.len() != "cancelled"@.len());
    assert("failed"@.len() != "finished"@.len());
    assert("cancelled"@.len() != "finished"@.len());
    assert("done"@[0] != "fail"@[0]);
    assert("done"@.len() != "cancelled"@.len());
    assert("fail"@.len() != "cancelled"@.len());
}

/// Whatever the template, the prompt to the parent says how the subagent ended
/// where the template asks for it: a failure as failed, a cancellation as
/// cancelled, a success as completed, any other end as finished.
pub proof fn law_prompt_says_how_it_ended(template: &str, c: SubagentCompletion, prompt: String)
    requires
        call_ensures(format_completion_notification, (template, &c), prompt),
        holds_text(template@, "{status}"@),
    ensures
        holds_text(prompt@, end_word(c.status)),
{
    lemma_completion_slots();
    let label = prompt_label(c);
    lemma_slot_outlives(template@, "{label}"@, label, "{status}"@);
    let a = replaced(template@, "{label}"@, label);
    let word = end_word(c.status);
    lemma_filled(a, "{status}"@, word);
    let b = replaced(a, "{status}"@, word);
    reveal_strlit("completed");
    reveal_strlit("failed");
    reveal_strlit("cancelled");
    reveal_strlit("finished");
    reveal_strlit("{summary}");
    reveal_strlit("{follow_up}");
    lemma_not_in_slot("{summary}"@, word);
    lemma_not_in_slot("{follow_up}"@, word);
    lemma_outlives(b, "{summary}"@, c.summary@, word);
    let d = replaced(b, "{summary}"@, c.summary@);
    lemma_outlives(d, "{follow_up}"@, prompt_follow_up(c), word);
}

/// Whatever the template, the prompt holds what the subagent found, where the
/// template asks for it; a finding that is itself written like a slot may be
/// filled, so it is left out here.
pub proof fn law_prompt_holds_the_findings(template: &str, c: SubagentCompletion, prompt: String)
    requires
        call_ensures(format_completion_notification, (template, &c), prompt),
        holds_text(template@, "{summary}"@),
        outlives(c.summary@, "{follow_up}"@),
    ensures
        holds_text(prompt@, c.summary@),
{
    lemma_completion_slots();
    let label = prompt_label(c);
    let word = prompt_status(c.status);
    lemma_slot_outlives(template@, "{label}"@, label, "{summary}"@);
    let a = replaced(template@, "{label}"@, label);
    lemma_status_spares_summary(a, word);
    let b = replaced(a, "{status}"@, word);
    lemma_filled(b, "{summary}"@, c.summary@);
    let d = replaced(b, "{summary}"@, c.summary@);
    lemma_outlives(d, "{follow_up}"@, prompt_follow_up(c), c.summary@);
}

/// The slot of the findings outlives the filling of the slot of the status.
proof fn lemma_status_spares_summary(text: Seq<char>, with: Seq<char>)
    requires
        holds_text(text, "{summary}"@),
    ensures
        holds_text(replaced(text, "{status}"@, with), "{summary}"@),
    decreases text.len(),
{
    reveal_strlit("{status}");
    reveal_strlit("{summary}");
    let slot = "{status}"@;
    let piece = "{summary}"@;
    let at = choose|at: int| stands_at(text, at, piece);
    assert forall|i: int| 0 <= i < piece.len() implies text[at + i] == piece[i] by {
        assert(text.subrange(at, at + piece.len())[i] == piece[i]);
    }
    let result = replaced(text, slot, with);
    if begins_with(text, slot) {
        let n = slot.len() as int;
        assert forall|i: int| 0 <= i < n implies text[i] == slot[i] by {
            assert(text.subrange(0, n)[i] == slot[i]);
        }
        if at < n {
            assert(text.subrange(at, at + piece.len())[0] == text[at]);
            assert(slot[at] == '{');
            assert(at == 0);
            assert(text.subrange(at, at + piece.len())[2] == text[2]);
            assert(text[2] == 't');
        }
        let rest = after(text, n);
        assert(rest.subrange(at - n, at - n + piece.len()) =~= piece);
        assert(stands_at(rest, at - n, piece));
        lemma_status_spares_summary(rest, with);
        let shorter = replaced(rest, slot, with);
        let j = choose|j: int| stands_at(shorter, j, piece);
        assert(result.subrange(with.len() + j, with.len() + j + piece.len()) =~= shorter.subrange(
            j,
            j + piece.len(),
        ));
        assert(stands_at(result, with.len() + j, piece));
    } else if at > 0 {
        let rest = after(text, 1);
        assert(rest.subrange(at - 1, at - 1 + piece.len()) =~= piece);
        assert(stands_at(rest, at - 1, piece));
        lemma_status_spares_summary(rest, with);
        let shorter = replaced(rest, slot, with);
        let j = choose|j: int| stands_at(shorter, j, piece);
        assert(result.subrange(j + 1, j + 1 + piece.len()) =~= shorter.subrange(
            j,
            j + piece.len(),
        ));
        assert(stands_at(result, j + 1, piece));
    } else {
        assert(text =~= after(text, 0));
        assert forall|i: int| 0 <= i < piece.len() implies text[i] != slot[0] || !begins_with(
            after(text, i),
            slot,
        ) by {
            assert(text[at + i] == piece[i]);
        }
        lemma_unmatched_stays(text, slot, with, piece.len() as int);
        assert(result.subrange(0, piece.len() as int) =~= piece);
        assert(stands_at(result, 0, piece));
    }
}

/// The digits of an identifier hold no brace.
proof fn lemma_digits_are_plain(x: nat, n: nat)
    ensures
        without_braces(hex_digits(x, n)),
        hex_digits(x, n).len() == n,
    decreases n,
{
    if n > 0 {
        lemma_digits_are_plain(x / 16, (n - 1) as nat);
        let d = x % 16;
        assert(d < 16);
        assert(hex_char(d) != '{' && hex_char(d) != '}');
    }
}

/// An identifier is no part of a short text, and holds no brace.
proof fn lemma_identifier_is_plain(id: u128, slot: Seq<char>)
    requires
        slot.len() < 36,
    ensures
        outlives(uuid_text(id), slot),
{
    lemma_digits_are_plain(id as nat, 32);
    let digits = hex_digits(id as nat, 32);
    let text = uuid_text(id);
    assert(text.len() == 36);
    assert forall|i: int| 0 <= i < text.len() implies (#[trigger] text[i]) != '{' && text[i]
        != '}' by {
        let k = if i < 8 {
            i
        } else if i < 13 {
            i - 1
        } else if i < 18 {
            i - 2
        } else if i < 23 {
            i - 3
        } else {
            i - 4
        };
        assert(text[i] == '-' || text[i] == digits[k]);
        if 0 <= k < 32 {
            assert(digits[k] != '{');
        }
    }
}

/// Whatever the template, the prompt names the subagent where the template asks
/// for it: by its name, or by its task when it has none.
pub proof fn law_prompt_names_the_subagent(template: &str, c: SubagentCompletion, prompt: String)
    requires
        call_ensures(format_completion_notification, (template, &c), prompt),
        holds_text(template@, "{label}"@),
    ensures
        c.subagent_name matches Some(name) ==> (outlives(name@, "{status}"@) && outlives(
            name@,
            "{summary}"@,
        ) && outlives(name@, "{follow_up}"@) ==> holds_text(prompt@, name@)),
        c.subagent_name is None ==> holds_text(prompt@, uuid_text(c.task_id)),
{
    lemma_completion_slots();
    reveal_strlit("{status}");
    reveal_strlit("{summary}");
    reveal_strlit("{follow_up}");
    let label = prompt_label(c);
    let word = prompt_status(c.status);
    let known = match c.subagent_name {
        Some(name) => name@,
        None => uuid_text(c.task_id),
    };
    lemma_identifier_is_plain(c.task_id, "{status}"@);
    lemma_identifier_is_plain(c.task_id, "{summary}"@);
    lemma_identifier_is_plain(c.task_id, "{follow_up}"@);
    lemma_filled(template@, "{label}"@, label);
    let a = replaced(template@, "{label}"@, label);
    lemma_middle("\""@, known, "\""@);
    lemma_middle("(task "@, known, ")"@);
    lemma_piece_of_piece(a, label, known);
    if outlives(known, "{status}"@) && outlives(known, "{summary}"@) && outlives(
        known,
        "{follow_up}"@,
    ) {
        lemma_outlives(a, "{status}"@, word, known);
        let b = replaced(a, "{status}"@, word);
        lemma_outlives(b, "{summary}"@, c.summary@, known);
        let d = replaced(b, "{summary}"@, c.summary@);
        lemma_outlives(d, "{follow_up}"@, prompt_follow_up(c), known);
    }
}

/// Whatever the template, the prompt points to the whole conversation where the
/// template asks for it: under the subagent's name, or under its session when
/// it has none.
pub proof fn law_prompt_points_to_the_conversation(
    template: &str,
    c: SubagentCompletion,
    prompt: String,
)
    requires
        call_ensures(format_completion_notification, (template, &c), prompt),
        holds_text(template@, "{follow_up}"@),
    ensures
        c.subagent_name matches Some(name) ==> holds_text(
            prompt@,
            "Use read_subagent_session(\""@ + name@ + "\") for the full conversation history."@,
        ),
        c.subagent_name is None ==> holds_text(
            prompt@,
            "Use read_subagent_session(session_id=\""@ + uuid_text(c.subagent_session_id)
                + "\") for the full conversation history."@,
        ),
{
    lemma_completion_slots();
    let label = prompt_label(c);
    let word = prompt_status(c.status);
    lemma_slot_outlives(template@, "{label}"@, label, "{follow_up}"@);
    let a = replaced(template@, "{label}"@, label);
    lemma_slot_outlives(a, "{status}"@, word, "{follow_up}"@);
    let b = replaced(a, "{status}"@, word);
    lemma_slot_outlives(b, "{summary}"@, c.summary@, "{follow_up}"@);
    let d = replaced(b, "{summary}"@, c.summary@);
    lemma_filled(d, "{follow_up}"@, prompt_follow_up(c));
}

/// The prompt about a finished subagent is its template with the slots filled in
/// turn: the subagent in quotes or its task in brackets, how it ended, what it
/// found, and where the whole conversation is.
pub proof fn law_completion_prompt_fills_its_slots(
    template: &str,
    c: SubagentCompletion,
    prompt: String,
    label: &str,
    word: &str,
    found: &str,
    pointer: &str,
    labelled: &str,
    ended: &str,
    summed: &str,
    first: String,
    second: String,
    third: String,
    last: String,
)
    requires
        call_ensures(format_completion_notification, (template, &c), prompt),
        c.subagent_name matches Some(name) ==> label@ == "\""@ + name@ + "\""@ && pointer@
            == "Use read_subagent_session(\""@ + name@
            + "\") for the full conversation history."@,
        c.subagent_name is None ==> label@ == "(task "@ + uuid_text(c.task_id) + ")"@ && pointer@
            == "Use read_subagent_session(session_id=\""@ + uuid_text(c.subagent_session_id)
            + "\") for the full conversation history."@,
        word@ == end_word(c.status),
        found@ == c.summary@,
        call_ensures(replace_all, (template, "{label}", label), first),
        labelled@ == first@,
        call_ensures(replace_all, (labelled, "{status}", word), second),
        ended@ == second@,
        call_ensures(replace_all, (ended, "{summary}", found), third),
        summed@ == third@,
        call_ensures(replace_all, (summed, "{follow_up}", pointer), last),
    ensures
        prompt@ == last@,
{
}

/// The end of a subagent leads to nothing when the session of its parent is
/// gone. Otherwise it leads to its marker, to one event for that session, which
/// says of the end what the report says, and to one run of the parent on that
/// session, whose input is the prompt about the end. The run continues a job
/// exactly when an episode of that job waited for the task.
pub proof fn law_parent_hears_of_its_subagent(
    tracker: &mut JobEpisodeTracker,
    template: &str,
    c: SubagentCompletion,
    parent: Option<String>,
    at: i64,
    r: Vec<CompletionAction>,
    prompt: String,
    marker: Message,
)
    requires
        call_ensures(on_subagent_completion, (tracker, template, &c, parent, at), r),
        call_ensures(format_completion_notification, (template, &c), prompt),
        call_ensures(completion_marker, (&c, at), marker),
    ensures
        parent is None ==> r@.len() == 0 && final(tracker)@ == old(tracker)@,
        parent matches Some(context) ==> {
            &&& r@.len() == 3
            &&& r@[0] matches CompletionAction::PersistMarker(m) && {
                &&& m.role == marker.role
                &&& m.content is Text
                &&& shown(m) == shown(marker)
                &&& m.timestamp == at
                &&& m.metadata is Some && m.metadata->0@ == marker.metadata->0@
            }
            &&& r@[1] matches CompletionAction::PublishCompleted(e) && {
                &&& e.session_id == c.parent_session_id
                &&& e.subagent_session_id == c.subagent_session_id
                &&& e.tool_invocation_id == c.parent_tool_invocation_id
                &&& text_of(e.subagent_name) == text_of(c.subagent_name)
                &&& e.summary@ == c.summary@
                &&& c.status == TaskStatus::Failed ==> e.status@ == "fail"@
                &&& c.status == TaskStatus::Cancelled ==> e.status@ == "cancelled"@
                &&& c.status != TaskStatus::Failed && c.status != TaskStatus::Cancelled
                    ==> e.status@ == "done"@
            }
            &&& r@[2] matches CompletionAction::EnqueueRun(run) && {
                &&& run.agent_id == c.parent_agent_id
                &&& run.session_id == c.parent_session_id
                &&& run.context_id@ == context@
                &&& run.input@ == prompt@
                &&& run.source_label@ == "subagent"@
                &&& !run.is_peer_message
                &&& run.dm_ended_peer is None
                &&& run.job_id is None ==> final(tracker)@ == old(tracker)@
                &&& forall|job: JobId|
                    run.job_id is None ==> !(#[trigger] awaits_subagent(
                        old(tracker)@,
                        job,
                        c.task_id,
                    ))
                &&& run.job_id matches Some(job) ==> {
                    &&& old(tracker)@.contains_key(job)
                    &&& old(tracker)@[job].pending_subagents.contains_key(c.task_id)
                    &&& !final(tracker)@[job].pending_subagents.contains_key(c.task_id)
                    &&& final(tracker)@[job].in_flight_runs == old(tracker)@[job].in_flight_runs
                        + 1
                }
            }
        },
{
    lemma_completion_keys();
    if let Some(context) = parent {
        let job = choose|job: Option<JobId>|
            #![trigger resolves(old(tracker)@, final(tracker)@, c.task_id, job)]
            resolves(old(tracker)@, final(tracker)@, c.task_id, job)
                && completion_actions(
                r@,
                template@,
                c,
                context@,
                job,
                at,
            );
        assert(completion_actions(r@, template@, c, context@, job, at));
    }
}

/// The wire names of the ends of a conversation are different.
pub proof fn lemma_reason_names()
    ensures
        "ignored"@ != "depth_exceeded"@,
        "ignored"@ != "user_cancelled"@,
        "ignored"@ != "errored"@,
        "depth_exceeded"@ != "user_cancelled"@,
        "depth_exceeded"@ != "errored"@,
        "user_cancelled"@ != "errored"@,
{
    reveal_strlit("ignored");
    reveal_strlit("depth_exceeded");
    reveal_strlit("user_cancelled");
    reveal_strlit("errored");
    assert("ignored"@.len() != "depth_exceeded"@.len());
    assert("ignored"@.len() != "user_cancelled"@.len());
    assert("ignored"@[0] != "errored"@[0]);
    assert("depth_exceeded"@[0] != "user_cancelled"@[0]);
    assert("depth_exceeded"@.len() != "errored"@.len());
    assert("user_cancelled"@.len() != "errored"@.len());
}

/// The words for the end of a conversation, by its wire name.
pub open spec fn said_of(reason: Seq<char>, words: Seq<char>) -> bool {
    &&& reason == "ignored"@ ==> words == "no further replies"@
    &&& reason == "depth_exceeded"@ ==> words == "message limit reached"@
    &&& reason == "user_cancelled"@ ==> words == "cancelled by user"@
    &&& reason == "errored"@ ==> words == "run failed"@
    &&& reason != "ignored"@ && reason != "depth_exceeded"@ && reason != "user_cancelled"@
        && reason != "errored"@ ==> words == reason
}

/// The end of a conversation is told on the first session in the list that a
/// person looks at, and nowhere when there is none. Banner and marker are both
/// left out exactly when a run on that very session follows; otherwise the
/// marker tells who the conversation was with and why it ended, with the detail
/// when there is one.
pub proof fn law_end_is_told_where_the_user_looks(
    sessions: Vec<Session>,
    agent: AgentId,
    peer: &str,
    reason: &str,
    detail: Option<&str>,
    context_id: &str,
    run_targets: Vec<SessionId>,
    at: i64,
    r: Option<WebchatNotice>,
    n: int,
)
    requires
        call_ensures(
            notify_dm_ended_to_webchat,
            (&sessions, agent, peer, reason, detail, context_id, &run_targets, at),
            r,
        ),
        0 <= n <= sessions@.len(),
        forall|j: int|
            0 <= j < n ==> (#[trigger] sessions@[j]).agent_id != agent || internal_context(
                sessions@[j].context_id@,
            ),
        n < sessions@.len() ==> sessions@[n].agent_id == agent && !internal_context(
            sessions@[n].context_id@,
        ),
    ensures
        n == sessions@.len() ==> r is None,
        n < sessions@.len() ==> (r matches Some(notice) && {
            let target = sessions@[n].id;
            &&& notice.target == target
            &&& notice.from_agent@ == "system"@
            &&& notice.to_agent@ == peer@
            &&& notice.reason@ == reason@
            &&& notice.context_id@ == context_id@
            &&& text_of(notice.detail) == opt_text(detail)
            &&& notice.suppress_banner <==> run_targets@.contains(target)
            &&& notice.marker is Some <==> !run_targets@.contains(target)
            &&& notice.marker matches Some(m) ==> {
                &&& marks(m, "dm_ended_notification"@, at)
                &&& noted(m, "peer"@) == Some(text_value(peer@))
                &&& noted(m, "reason"@) == Some(text_value(reason@))
                &&& noted(m, "context_id"@) == Some(text_value(context_id@))
                &&& noted(m, "detail"@) == text_entry(opt_text(detail))
                &&& exists|words: Seq<char>| #[trigger]
                    said_of(reason@, words) && shown(m)
                        == "[DM conversation ended] Conversation with "@ + peer@ + " ended ("@
                        + words + (match detail {
                        Some(d) => ": "@ + d@,
                        None => Seq::<char>::empty(),
                    }) + ")."@
            }
        }),
{
    lemma_ended_keys();
    lemma_reason_names();
    assert forall|j: int| 0 <= j < n implies !faces_user(
        #[trigger] sessions@[j],
        agent,
    ) by {}
    lemma_user_facing(sessions@, agent, n);
    assert(said_of(reason@, reason_words(reason@)));
}

/// The reading of an optional text.
pub open spec fn opt_text(text: Option<&str>) -> Option<Seq<char>> {
    match text {
        Some(t) => Some(t@),
        None => None,
    }
}

/// The words by which an agent can tell why a conversation ended.
pub open spec fn telling_words(reason: ConversationEndReason) -> Seq<char> {
    match reason {
        EndReason::Ignored => "chose not to reply"@,
        EndReason::DepthExceeded => "maximum message depth was reached"@,
        EndReason::UserCancelled => "cancelled by the user"@,
        EndReason::Errored { .. } => "the run failed"@,
    }
}

/// Whatever the templates, the prompt about the end of a conversation says why
/// it ended where the template asks for it, and names the other party unless
/// the user cancelled it.
pub proof fn law_ended_prompt_says_why(
    templates: EndedTemplates,
    from: &str,
    reason: ConversationEndReason,
    history: Option<&str>,
    own_end: bool,
    prompt: String,
)
    requires
        call_ensures(
            format_dm_ended_notification,
            (&templates, from, &reason, history, own_end),
            prompt,
        ),
        holds_text(templates.with_history@, "{reason}"@),
        holds_text(templates.no_history@, "{reason}"@),
    ensures
        holds_text(prompt@, telling_words(reason)),
        !(reason is UserCancelled) && outlives(from@, "{history}"@) && outlives(from@, "{from}"@)
            ==> holds_text(prompt@, from@),
        reason matches EndReason::Errored { message, .. } ==> (outlives(message@, "{history}"@)
            && outlives(message@, "{from}"@) ==> holds_text(prompt@, message@)),
{
    let why = ended_because(from@, reason@, own_end);
    let words = telling_words(reason);
    lemma_why_tells(from@, reason, own_end);
    reveal_strlit("{reason}");
    reveal_strlit("{history}");
    reveal_strlit("{from}");
    reveal_strlit("chose not to reply");
    reveal_strlit("maximum message depth was reached");
    reveal_strlit("cancelled by the user");
    reveal_strlit("the run failed");
    lemma_not_in_slot("{history}"@, words);
    lemma_not_in_slot("{from}"@, words);
    let told = opt_text(history) is Some && opt_text(history)->0.len() > 0;
    let template = if told {
        templates.with_history@
    } else {
        templates.no_history@
    };
    lemma_filled(template, "{reason}"@, why);
    let a = replaced(template, "{reason}"@, why);
    let slot = if told {
        "{history}"@
    } else {
        "{from}"@
    };
    let filling = if told {
        opt_text(history)->0
    } else {
        from@
    };
    lemma_piece_of_piece(a, why, words);
    lemma_outlives(a, slot, filling, words);
    if !(reason is UserCancelled) && outlives(from@, slot) {
        lemma_piece_of_piece(a, why, from@);
        lemma_outlives(a, slot, filling, from@);
    }
    if let EndReason::Errored { message, interrupted } = reason {
        if outlives(message@, slot) {
            lemma_piece_of_piece(a, why, message@);
            lemma_outlives(a, slot, filling, message@);
        }
    }
}

/// The sentence about the end of a conversation holds its telling words, the
/// name of the other party, and the error of a failure.
proof fn lemma_why_tells(from: Seq<char>, reason: ConversationEndReason, own_end: bool)
    ensures
        ({
            let why = ended_because(from, reason@, own_end);
            &&& holds_text(why, telling_words(reason))
            &&& !(reason is UserCancelled) ==> holds_text(why, from)
            &&& reason matches EndReason::Errored { message, .. } ==> holds_text(why, message@)
        }),
{
    let why = ended_because(from, reason@, own_end);
    reveal_strlit("chose not to reply");
    reveal_strlit("maximum message depth was reached");
    reveal_strlit("cancelled by the user");
    reveal_strlit("the run failed");
    match reason {
        EndReason::Ignored => if own_end {
            let tail = "\" has ended (you chose not to reply)."@;
            reveal_strlit("\" has ended (you chose not to reply).");
            lemma_at(tail, "chose not to reply"@, 17);
            lemma_middle("Your DM conversation with agent \""@, from, tail);
            lemma_middle("Your DM conversation with agent \""@ + from, tail, seq![]);
            lemma_piece_of_piece(why, tail, "chose not to reply"@);
        } else {
            let tail = "\" ended the conversation (chose not to reply)."@;
            reveal_strlit("\" ended the conversation (chose not to reply).");
            lemma_at(tail, "chose not to reply"@, 26);
            lemma_middle("Agent \""@, from, tail);
            lemma_middle("Agent \""@ + from, tail, seq![]);
            lemma_piece_of_piece(why, tail, "chose not to reply"@);
        },
        EndReason::DepthExceeded => if own_end {
            let tail = "\" ended because the maximum message depth was reached."@;
            reveal_strlit("\" ended because the maximum message depth was reached.");
            lemma_at(tail, "maximum message depth was reached"@, 20);
            lemma_middle("Your DM conversation with agent \""@, from, tail);
            lemma_middle("Your DM conversation with agent \""@ + from, tail, seq![]);
            lemma_piece_of_piece(why, tail, "maximum message depth was reached"@);
        } else {
            let tail = "\" was terminated because the maximum message depth was reached."@;
            reveal_strlit("\" was terminated because the maximum message depth was reached.");
            lemma_at(tail, "maximum message depth was reached"@, 29);
            lemma_middle("The conversation with agent \""@, from, tail);
            lemma_middle("The conversation with agent \""@ + from, tail, seq![]);
            lemma_piece_of_piece(why, tail, "maximum message depth was reached"@);
        },
        EndReason::UserCancelled => if own_end {
            reveal_strlit("Your DM conversation was cancelled by the user.");
            lemma_at(why, "cancelled by the user"@, 25);
        } else {
            reveal_strlit("The DM conversation was cancelled by the user.");
            lemma_at(why, "cancelled by the user"@, 24);
        },
        EndReason::Errored { message, interrupted } => {
            let tail = "\" ended because the run failed: "@;
            reveal_strlit("\" ended because the run failed: ");
            lemma_at(tail, "the run failed"@, 16);
            let head = if own_end {
                "Your DM conversation with agent \""@
            } else {
                "The conversation with agent \""@
            };
            lemma_middle(head, from, tail);
            lemma_middle(head + from, tail, message@);
            lemma_middle(head + from + tail, message@, seq![]);
            lemma_middle(seq![], head + from + tail, message@);
            lemma_piece_of_piece(why, head + from + tail, from);
            lemma_piece_of_piece(why, tail, "the run failed"@);
        },
    }
}

/// A piece that stands at a place stands in the text.
proof fn lemma_at(text: Seq<char>, piece: Seq<char>, at: int)
    requires
        0 <= at,
        at + piece.len() <= text.len(),
        forall|i: int| 0 <= i < piece.len() ==> text[at + i] == #[trigger] piece[i],
    ensures
        holds_text(text, piece),
{
    assert(text.subrange(at, at + piece.len()) =~= piece);
    assert(stands_at(text, at, piece));
}

/// Why a conversation ended, in full.
pub open spec fn why_it_ended(
    from: Seq<char>,
    reason: ConversationEndReason,
    own_end: bool,
) -> Seq<char> {
    match reason {
        EndReason::Ignored => if own_end {
            "Your DM conversation with agent \""@ + from
                + "\" has ended (you chose not to reply)."@
        } else {
            "Agent \""@ + from + "\" ended the conversation (chose not to reply)."@
        },
        EndReason::DepthExceeded => if own_end {
            "Your DM conversation with agent \""@ + from
                + "\" ended because the maximum message depth was reached."@
        } else {
            "The conversation with agent \""@ + from
                + "\" was terminated because the maximum message depth was reached."@
        },
        EndReason::UserCancelled => if own_end {
            "Your DM conversation was cancelled by the user."@
        } else {
            "The DM conversation was cancelled by the user."@
        },
        EndReason::Errored { message, .. } => (if own_end {
            "Your DM conversation with agent \""@
        } else {
            "The conversation with agent \""@
        }) + from + "\" ended because the run failed: "@ + message@,
    }
}

/// The prompt about the end of a conversation is its template with the slots
/// filled in turn: why it ended, and then the transcript where there is one, or
/// else the other party. An agent that ended the conversation itself is told
/// that it did.
pub proof fn law_ended_prompt_fills_its_slots(
    templates: EndedTemplates,
    from: &str,
    reason: ConversationEndReason,
    history: Option<&str>,
    own_end: bool,
    prompt: String,
    template: &str,
    why: &str,
    reasoned: &str,
    first: String,
    last: String,
)
    requires
        call_ensures(
            format_dm_ended_notification,
            (&templates, from, &reason, history, own_end),
            prompt,
        ),
        why@ == why_it_ended(from@, reason, own_end),
        template@ == if history is Some && history->0@.len() > 0 {
            templates.with_history@
        } else {
            templates.no_history@
        },
        call_ensures(replace_all, (template, "{reason}", why), first),
        reasoned@ == first@,
        history is Some && history->0@.len() > 0 ==> call_ensures(
            replace_all,
            (reasoned, "{history}", history->0),
            last,
        ),
        !(history is Some && history->0@.len() > 0) ==> call_ensures(
            replace_all,
            (reasoned, "{from}", from),
            last,
        ),
    ensures
        prompt@ == last@,
{
    assert(reason@ == match reason {
        EndReason::Ignored => EndReason::Ignored,
        EndReason::DepthExceeded => EndReason::DepthExceeded,
        EndReason::UserCancelled => EndReason::UserCancelled,
        EndReason::Errored { message, interrupted } => EndReason::Errored {
            message: message@,
            interrupted,
        },
    });
    assert(ended_because(from@, reason@, own_end) == why@);
}

/// The outcome of a job by its last run: the word for programs, the word in the
/// headline, and the text. A run that completed shows its output, one that
/// failed its error; a run that was cancelled, is not over or is not on record
/// is told as that.
pub open spec fn tells_outcome(
    run: Option<RunResult<String>>,
    status: Seq<char>,
    headline: Seq<char>,
    text: Seq<char>,
) -> bool {
    match run {
        None => status == "error"@ && headline == "failed"@ && text == "run record not found"@,
        Some(r) => match r.status {
            RunStatus::Completed => {
                &&& status == "success"@ && headline == "completed"@
                &&& r.output matches Some(t) ==> text == t@
                &&& r.output is None ==> text.len() == 0
            },
            RunStatus::Failed => {
                &&& status == "error"@ && headline == "failed"@
                &&& r.error matches Some(t) ==> text == t@
                &&& r.error is None ==> text == "unknown error"@
            },
            RunStatus::Cancelled => status == "cancelled"@ && headline == "finished"@ && text
                == "run was cancelled"@,
            _ => status == "unknown"@ && headline == "finished"@ && text
                == "run still in progress"@,
        },
    }
}

/// `cut` is `whole` up to `max` characters, and its first `max` characters with
/// three dots behind them when it is longer.
pub open spec fn cut_to(whole: Seq<char>, max: int, cut: Seq<char>) -> bool {
    &&& whole.len() <= max ==> cut == whole
    &&& whole.len() > max ==> {
        &&& cut.len() == max + 3
        &&& forall|i: int| 0 <= i < max ==> #[trigger] cut[i] == whole[i]
        &&& forall|i: int| max <= i < max + 3 ==> #[trigger] cut[i] == '.'
    }
}

/// `line` is `text` with its line breaks turned into spaces.
pub open spec fn on_one_line(text: Seq<char>, line: Seq<char>) -> bool {
    &&& line.len() == text.len()
    &&& forall|i: int|
        0 <= i < text.len() ==> #[trigger] line[i] == if text[i] == '\n' || text[i] == '\r' {
            ' '
        } else {
            text[i]
        }
}

/// The note in front of the summary of an episode that ran into its deadline of
/// four hours.
pub open spec fn deadline_words(detached: nat) -> Seq<char> {
    "[Episode deadline reached after "@ + decimal(4) + "h — "@ + decimal(detached)
        + " pending task(s) detached]\n"@
}

/// The card of a job is made exactly when there is a session to show it on. It
/// tells the outcome of the job's last run; an episode that ran into its
/// deadline is noted in front, with what it left behind. The text is cut at four
/// thousand characters, and more can be fetched exactly of a run that completed
/// and whose text was cut. The marker says what the card says.
pub proof fn law_card_tells_the_outcome(
    target: Option<SessionId>,
    run: Option<RunResult<String>>,
    prompt: &str,
    run_id: RunId,
    job_id: JobId,
    episode: Option<EpisodeCloseStats>,
    job_session: Option<SessionId>,
    at: i64,
    r: Option<JobCard>,
)
    requires
        call_ensures(
            notify_job_completion,
            (target, run, prompt, run_id, job_id, episode, job_session, at),
            r,
        ),
    ensures
        r is Some <==> target is Some,
        r matches Some(card) ==> {
            &&& card.target_session == target->0
            &&& exists|headline: Seq<char>, text: Seq<char>, line: Seq<char>|
                #![trigger tells_outcome(run, card.status@, headline, text), on_one_line(prompt@, line)]
                {
                    let noted_text = if episode is Some && episode->0.timed_out {
                        deadline_words(episode->0.detached as nat) + text
                    } else {
                        text
                    };
                    &&& tells_outcome(run, card.status@, headline, text)
                    &&& cut_to(noted_text, 4000, card.summary@)
                    &&& card.truncated <==> noted_text.len() > 4000 && (run matches Some(x)
                        && x.status is Completed)
                    &&& on_one_line(prompt@, line)
                    &&& cut_to(line, 60, card.job_name@)
                    &&& shown(card.marker) == "[Scheduled job "@ + headline + "] "@
                        + card.job_name@ + "\n"@ + card.summary@
                }
        },
{
    if let Some(card) = r {
        let seen = match run {
            Some(x) => Some(x@),
            None => None,
        };
        let (status, text, fetchable) = job_outcome(seen);
        let headline = outcome_label(status);
        let line = single_line(prompt@);
        reveal_strlit("success");
        reveal_strlit("error");
        reveal_strlit("cancelled");
        reveal_strlit("unknown");
        assert("unknown"@[0] != "success"@[0] && "unknown"@.len() != "error"@.len());
        assert("cancelled"@.len() != "success"@.len() && "cancelled"@.len() != "error"@.len());
        assert("success"@.len() != "error"@.len());
        assert(tells_outcome(run, card.status@, headline, text));
        assert(on_one_line(prompt@, line));
        let noted_text = if episode is Some && episode->0.timed_out {
            deadline_words(episode->0.detached as nat) + text
        } else {
            text
        };
        assert(full_summary(seen, episode) == noted_text);
        assert(cut_to(noted_text, 4000, card.summary@));
        assert(cut_to(line, 60, card.job_name@));
        assert(shown(card.marker) == "[Scheduled job "@ + headline + "] "@ + card.job_name@
            + "\n"@ + card.summary@);
    }
}

/// The card of a job and its marker name the job, its session and its last run,
/// and hold the figures of its episode, exactly when there are any.
pub proof fn law_card_names_its_job(
    target: Option<SessionId>,
    run: Option<RunResult<String>>,
    prompt: &str,
    run_id: RunId,
    job_id: JobId,
    episode: Option<EpisodeCloseStats>,
    job_session: Option<SessionId>,
    at: i64,
    card: JobCard,
)
    requires
        call_ensures(
            notify_job_completion,
            (target, run, prompt, run_id, job_id, episode, job_session, at),
            Some(card),
        ),
    ensures
        job_of_context(card.job_session_id@) == Some(job_id),
        job_session matches Some(s) ==> text_of(card.job_session_uuid) == Some(uuid_text(s)),
        job_session is None ==> card.job_session_uuid is None,
        marks(card.marker, "job_notification"@, at),
        noted(card.marker, "job_status"@) == Some(text_value(card.status@)),
        noted(card.marker, "run_id"@) == Some(text_value(uuid_text(run_id))),
        noted(card.marker, "job_id"@) == Some(text_value(uuid_text(job_id))),
        noted(card.marker, "job_session_id"@) == Some(text_value(card.job_session_id@)),
        noted(card.marker, "job_session_uuid"@) == match job_session {
            Some(s) => Some(text_value(uuid_text(s))),
            None => Some(null_value()),
        },
        noted(card.marker, "truncated"@) == Some(flag_value(card.truncated)),
        episode is None ==> noted(card.marker, "episode"@) is None,
        episode matches Some(figures) ==> {
            let group = noted(card.marker, "episode"@);
            &&& in_group(group, "turns"@) == Some(ScalarView::Count(figures.turns as u64))
            &&& in_group(group, "dm_count"@) == Some(ScalarView::Count(figures.dm_count as u64))
            &&& in_group(group, "subagent_count"@) == Some(
                ScalarView::Count(figures.subagent_count as u64),
            )
            &&& in_group(group, "timed_out"@) == Some(ScalarView::Flag(figures.timed_out))
            &&& in_group(group, "detached"@) == Some(ScalarView::Count(figures.detached as u64))
        },
{
    lemma_card_keys();
    lemma_figure_keys();
    law_job_context_reads_back(job_id);
}

/// The marker between two runs names the run that completed; the marker of a
/// runtime that could not be built names the run and the safe reason, and is of
/// the error kind.
pub proof fn law_run_markers_name_the_run(
    run: RunId,
    reason: &str,
    at: i64,
    boundary: Message,
    failure: Message,
)
    requires
        call_ensures(run_boundary_marker, (run, at), boundary),
        call_ensures(init_failure_marker, (run, reason, at), failure),
    ensures
        marks(boundary, "run_boundary"@, at),
        shown(boundary) == "(run completed)"@,
        noted(boundary, "run_id"@) == Some(text_value(uuid_text(run))),
        noted(boundary, "status"@) == Some(text_value("completed"@)),
        noted(boundary, "kind"@) is None,
        marks(failure, "runtime_init_error"@, at),
        shown(failure) == "(runtime initialization failed) "@ + reason@,
        noted(failure, "kind"@) == Some(text_value("error"@)),
        noted(failure, "run_id"@) == Some(text_value(uuid_text(run))),
        noted(failure, "status"@) == Some(text_value("failed"@)),
        noted(failure, "error"@) == Some(text_value(reason@)),
        noted(failure, "error_kind"@) == Some(text_value("runtime_init"@)),
{
    lemma_failure_keys();
}

/// A lifecycle marker shows its text and carries the caller's entries over its
/// own: unless the caller says otherwise, it is flagged as synthetic and says
/// its type, and it has nothing else. An error marker also says that it is one.
pub proof fn law_markers_carry_what_they_are_given(
    marker_type: &str,
    text: String,
    extra: ExtraMetadata,
    at: i64,
    plain: Message,
    error: Message,
    key: Seq<char>,
)
    requires
        call_ensures(persist_lifecycle_marker, (marker_type, text, extra, at), plain),
        call_ensures(persist_error_marker, (marker_type, text, extra, at), error),
    ensures
        plain.role == Role::System && error.role == Role::System,
        plain.content is Text && error.content is Text,
        shown(plain) == text@ && shown(error) == text@,
        plain.timestamp == at && error.timestamp == at,
        ({
            let given = match extra {
                ExtraMetadata::Object(m) => if m@.contains_key(key) {
                    Some(m@[key])
                } else {
                    None
                },
                _ => None,
            };
            let own = if key == "synthetic"@ {
                Some(MetaView::Single(ScalarView::Flag(true)))
            } else if key == "type"@ {
                Some(MetaView::Single(ScalarView::Text(marker_type@)))
            } else {
                None
            };
            &&& given is Some ==> noted(plain, key) == given && noted(error, key) == given
            &&& given is None ==> noted(plain, key) == own
            &&& given is None && key != "kind"@ ==> noted(error, key) == own
            &&& given is None && key == "kind"@ ==> noted(error, key) == Some(
                MetaView::Single(ScalarView::Text("error"@)),
            )
        }),
{
    reveal_strlit("synthetic");
    reveal_strlit("type");
    reveal_strlit("kind");
    assert("synthetic"@.len() != "type"@.len());
    assert("synthetic"@.len() != "kind"@.len());
    assert("kind"@[0] != "type"@[0]);
}

} // verus!
