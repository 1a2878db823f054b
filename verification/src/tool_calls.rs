//! What a run's tool calls started: the conversations it opened and the
//! subagents it sent to the background, read off the tools' results.

use crate::clock::Nanos;
use crate::context::text_of;
use crate::ids::{parse_id, parsed_uuid, SessionId, TaskId};
use crate::text::same_text;
use vstd::prelude::*;
use vstd::string::*;

verus! {

/// Which side of a tool call a record is.
#[derive(Debug, Clone, Copy, PartialEq, Eq, Structural)]
pub enum ToolCallRole {
    /// The call.
    Assistant,
    /// The result.
    Tool,
}

/// A record of a tool call.
#[derive(Debug, Clone, PartialEq, Eq)]
pub struct ToolCallRecord {
    /// Its place among the records of its run.
    pub seq: u32,
    /// The side of the call.
    pub role: ToolCallRole,
    /// The tool's name.
    pub tool_name: Option<String>,
    /// The id that the model gave the call.
    pub tool_id: Option<String>,
    /// The id that the runtime gave the call.
    pub tool_invocation_id: Option<String>,
    /// The tool's parameters: a JSON text.
    pub params: Option<String>,
    /// The tool's result: a JSON text, or the words of a failure.
    pub result: Option<String>,
    /// When the record was made.
    pub timestamp: Nanos,
    /// The agent that a message in the call came from.
    pub from_agent: Option<String>,
}

/// The truth value under `key` in the JSON object that `raw` denotes.
pub uninterp spec fn json_flag(raw: Seq<char>, key: Seq<char>) -> Option<bool>;

/// The text under `key` in the JSON object that `raw` denotes.
pub uninterp spec fn json_text(raw: Seq<char>, key: Seq<char>) -> Option<Seq<char>>;

/// The JSON object that `raw` denotes has an entry `key`.
pub uninterp spec fn json_has(raw: Seq<char>, key: Seq<char>) -> bool;

/// `serde_json::from_str` into a `Value`, then `Value::get` and
/// `Value::as_bool`: a result that depends on the two texts alone, and is
/// `None` when `raw` is no JSON, no object, lacks the key, or has another
/// kind of value there.
#[verifier::external_body]
fn read_flag(raw: &str, key: &str) -> (r: Option<bool>)
    ensures
        r == json_flag(raw@, key@),
{
    match serde_json::from_str::<serde_json::Value>(raw) {
        Ok(value) => value.get(key).and_then(serde_json::Value::as_bool),
        Err(_) => None,
    }
}

/// `serde_json::from_str` into a `Value`, then `Value::get` and
/// `Value::as_str`: a result that depends on the two texts alone, and is
/// `None` when `raw` is no JSON, no object, lacks the key, or has another
/// kind of value there.
#[verifier::external_body]
fn read_text(raw: &str, key: &str) -> (r: Option<String>)
    ensures
        text_of(r) == json_text(raw@, key@),
{
    match serde_json::from_str::<serde_json::Value>(raw) {
        Ok(value) => value.get(key).and_then(serde_json::Value::as_str).map(str::to_string),
        Err(_) => None,
    }
}

/// `serde_json::from_str` into a `Value`, then `Value::get`: whether there is
/// an entry, a result that depends on the two texts alone; there is none when
/// `raw` is no JSON or no object.
#[verifier::external_body]
fn read_has(raw: &str, key: &str) -> (r: bool)
    ensures
        r == json_has(raw@, key@),
{
    match serde_json::from_str::<serde_json::Value>(raw) {
        Ok(value) => value.get(key).is_some(),
        Err(_) => false,
    }
}

/// The conversation that a delivered message opened.
pub open spec fn delivered_to(
    delivered: Option<bool>,
    session: Option<Seq<char>>,
) -> Option<SessionId> {
    if delivered == Some(true) {
        match session {
            Some(text) => parsed_uuid(text),
            None => None,
        }
    } else {
        None
    }
}

/// Reads the conversation off the entries of a `send_message` result: there is
/// one only when the message was delivered and the session is named.
pub fn dm_of_result(delivered: Option<bool>, dm_session_id: Option<String>) -> (r: Option<
    SessionId,
>)
    ensures
        r == delivered_to(delivered, text_of(dm_session_id)),
{
    match delivered {
        Some(true) => match dm_session_id {
            Some(text) => parse_id(text.as_str()),
            None => None,
        },
        _ => None,
    }
}

/// The subagent that an invocation sent to the background.
pub open spec fn dispatched(
    failed: bool,
    task: Option<Seq<char>>,
    session: Option<Seq<char>>,
) -> Option<(TaskId, SessionId)> {
    match (task, session) {
        (Some(t), Some(s)) => match (parsed_uuid(t), parsed_uuid(s)) {
            (Some(task_id), Some(session_id)) if !failed => Some((task_id, session_id)),
            _ => None,
        },
        _ => None,
    }
}

/// Reads the subagent off the entries of an `invoke_agent` result: there is
/// one only when the result names task and session and carries no error.
pub fn subagent_of_result(failed: bool, task_id: Option<String>, session_id: Option<String>) -> (r:
    Option<(TaskId, SessionId)>)
    ensures
        r == dispatched(failed, text_of(task_id), text_of(session_id)),
{
    if failed {
        return None;
    }
    match (task_id, session_id) {
        (Some(t), Some(s)) => match (parse_id(t.as_str()), parse_id(s.as_str())) {
            (Some(task), Some(session)) => Some((task, session)),
            _ => None,
        },
        _ => None,
    }
}

/// A record is the result of a named tool.
pub open spec fn result_of(record: ToolCallRecord, tool: Seq<char>) -> bool {
    record.role == ToolCallRole::Tool && text_of(record.tool_name) == Some(tool)
}

fn is_result_of(record: &ToolCallRecord, tool: &str) -> (r: bool)
    ensures
        r == result_of(*record, tool@),
{
    if record.role != ToolCallRole::Tool {
        return false;
    }
    match &record.tool_name {
        Some(name) => same_text(name.as_str(), tool),
        None => false,
    }
}

/// The conversation that a record shows to have been opened.
pub open spec fn dm_in(record: ToolCallRecord) -> Option<SessionId> {
    match record.result {
        Some(raw) => if result_of(record, "send_message"@) {
            delivered_to(json_flag(raw@, "delivered"@), json_text(raw@, "dm_session_id"@))
        } else {
            None
        },
        None => None,
    }
}

/// The subagent that a record shows to have been sent to the background.
pub open spec fn subagent_in(record: ToolCallRecord) -> Option<(TaskId, SessionId)> {
    match record.result {
        Some(raw) => if result_of(record, "invoke_agent"@) {
            dispatched(
                json_has(raw@, "error"@),
                json_text(raw@, "task_id"@),
                json_text(raw@, "session_id"@),
            )
        } else {
            None
        },
        None => None,
    }
}

/// The conversations that records show to have been opened, in order.
pub open spec fn dms_in(records: Seq<ToolCallRecord>) -> Seq<SessionId>
    decreases records.len(),
{
    if records.len() == 0 {
        seq![]
    } else {
        match dm_in(records.last()) {
            Some(dm) => dms_in(records.drop_last()).push(dm),
            None => dms_in(records.drop_last()),
        }
    }
}

/// The subagents that records show to have been sent to the background, in
/// order.
pub open spec fn subagents_in(records: Seq<ToolCallRecord>) -> Seq<(TaskId, SessionId)>
    decreases records.len(),
{
    if records.len() == 0 {
        seq![]
    } else {
        match subagent_in(records.last()) {
            Some(entry) => subagents_in(records.drop_last()).push(entry),
            None => subagents_in(records.drop_last()),
        }
    }
}

/// Lists the conversations that a run opened: results of `send_message` that
/// report a delivery. Folded and failed sends report none.
pub fn dms_opened(records: &Vec<ToolCallRecord>) -> (r: Vec<SessionId>)
    ensures
        r@ == dms_in(records@),
        r@.len() <= records@.len(),
{
    let mut out: Vec<SessionId> = Vec::new();
    let mut i: usize = 0;
    while i < records.len()
        invariant
            i <= records@.len(),
            out@ == dms_in(records@.subrange(0, i as int)),
            out@.len() <= i,
        decreases records@.len() - i,
    {
        let record: &ToolCallRecord = &records[i];
        proof {
            let seen = records@.subrange(0, i + 1);
            assert(seen.drop_last() =~= records@.subrange(0, i as int));
        }
        if is_result_of(record, "send_message") {
            if let Some(raw) = &record.result {
                let delivered: Option<bool> = read_flag(raw.as_str(), "delivered");
                let session: Option<String> = read_text(raw.as_str(), "dm_session_id");
                if let Some(dm) = dm_of_result(delivered, session) {
                    out.push(dm);
                }
            }
        }
        i = i + 1;
    }
    assert(records@.subrange(0, i as int) =~= records@);
    out
}

/// Lists the subagents that a run sent to the background: results of
/// `invoke_agent` that name a task and a session. Foreground results name no
/// task, and failures carry an error.
pub fn subagents_spawned(records: &Vec<ToolCallRecord>) -> (r: Vec<(TaskId, SessionId)>)
    ensures
        r@ == subagents_in(records@),
        r@.len() <= records@.len(),
{
    let mut out: Vec<(TaskId, SessionId)> = Vec::new();
    let mut i: usize = 0;
    while i < records.len()
        invariant
            i <= records@.len(),
            out@ == subagents_in(records@.subrange(0, i as int)),
            out@.len() <= i,
        decreases records@.len() - i,
    {
        let record: &ToolCallRecord = &records[i];
        proof {
            let seen = records@.subrange(0, i + 1);
            assert(seen.drop_last() =~= records@.subrange(0, i as int));
        }
        if is_result_of(record, "invoke_agent") {
            if let Some(raw) = &record.result {
                let failed: bool = read_has(raw.as_str(), "error");
                let task: Option<String> = read_text(raw.as_str(), "task_id");
                let session: Option<String> = read_text(raw.as_str(), "session_id");
                if let Some(entry) = subagent_of_result(failed, task, session) {
                    out.push(entry);
                }
            }
        }
        i = i + 1;
    }
    assert(records@.subrange(0, i as int) =~= records@);
    out
}

/// The call side of a tool call proves nothing: only results are read.
pub proof fn law_calls_are_ignored(record: ToolCallRecord)
    requires
        record.role != ToolCallRole::Tool,
    ensures
        dm_in(record) is None,
        subagent_in(record) is None,
{
}

/// The conversation named by an identifier's own text is that conversation.
pub proof fn law_delivered_session_is_read_back(session: SessionId)
    ensures
        delivered_to(Some(true), Some(crate::ids::uuid_text(session))) == Some(session),
        delivered_to(Some(false), Some(crate::ids::uuid_text(session))) is None,
        delivered_to(None, Some(crate::ids::uuid_text(session))) is None,
{
    crate::ids::law_id_text_reads_back(session);
}

} // verus!
