//! Context ids: what kind of session a context id names, and which of an
//! agent's sessions a person is looking at.

use crate::ids::{AgentId, SessionId};
use crate::text::{after, begins_with, chars_of, same_text, starts_with, strip_prefix};
use vstd::prelude::*;
use vstd::string::*;

verus! {

/// A context id whose session is internal: a job's, a subagent's, a direct
/// message conversation, a notification inbox or an episodic memory.
pub open spec fn internal_context(context_id: Seq<char>) -> bool {
    ||| begins_with(context_id, "job_"@)
    ||| begins_with(context_id, "subagent_"@)
    ||| begins_with(context_id, "dm:"@)
    ||| begins_with(context_id, "notifications:"@)
    ||| begins_with(context_id, "episodic:"@)
}

/// Tells whether a context id belongs to an internal session, which
/// user-facing notifications must not target.
pub fn is_internal_context_id(context_id: &str) -> (r: bool)
    ensures
        r == internal_context(context_id@),
{
    starts_with(context_id, "job_") || starts_with(context_id, "subagent_") || starts_with(
        context_id,
        "dm:",
    ) || starts_with(context_id, "notifications:") || starts_with(context_id, "episodic:")
}

/// The type of session that a context id names, by its prefix.
pub open spec fn session_type(context_id: Seq<char>) -> Seq<char> {
    if begins_with(context_id, "dm:"@) {
        "dm"@
    } else if begins_with(context_id, "notifications:"@) {
        "notification"@
    } else if begins_with(context_id, "job_"@) {
        "job"@
    } else if begins_with(context_id, "subagent_"@) {
        "subagent"@
    } else if begins_with(context_id, "telegram_"@) {
        "telegram"@
    } else if begins_with(context_id, "episodic:"@) {
        "episodic"@
    } else {
        "chat"@
    }
}

/// Classifies a session by its context id.
pub fn classify_session_type(context_id: &str) -> (r: &'static str)
    ensures
        r@ == session_type(context_id@),
{
    if starts_with(context_id, "dm:") {
        "dm"
    } else if starts_with(context_id, "notifications:") {
        "notification"
    } else if starts_with(context_id, "job_") {
        "job"
    } else if starts_with(context_id, "subagent_") {
        "subagent"
    } else if starts_with(context_id, "telegram_") {
        "telegram"
    } else if starts_with(context_id, "episodic:") {
        "episodic"
    } else {
        "chat"
    }
}

/// The position of the first colon, or the length when there is none.
pub open spec fn colon_at(text: Seq<char>) -> int
    decreases text.len(),
{
    if text.len() == 0 || text[0] == ':' {
        0
    } else {
        1 + colon_at(after(text, 1))
    }
}

/// The first colon stands where `colon_at` says.
pub proof fn lemma_colon_at(text: Seq<char>, n: int)
    requires
        0 <= n <= text.len(),
        forall|j: int| 0 <= j < n ==> text[j] != ':',
        n < text.len() ==> text[n] == ':',
    ensures
        colon_at(text) == n,
    decreases n,
{
    if n > 0 {
        let rest = after(text, 1);
        lemma_colon_at(rest, n - 1);
    }
}

/// The two names in a `dm:{name}:{name}` context id.
pub open spec fn dm_names(context_id: Seq<char>) -> Option<(Seq<char>, Seq<char>)> {
    let names = after(context_id, "dm:"@.len() as int);
    if begins_with(context_id, "dm:"@) && colon_at(names) < names.len() {
        Some((names.subrange(0, colon_at(names)), after(names, colon_at(names) + 1)))
    } else {
        None
    }
}

/// The other party of a direct message conversation, seen from `agent`.
pub open spec fn dm_peer_of(context_id: Seq<char>, agent: Seq<char>) -> Option<Seq<char>> {
    match dm_names(context_id) {
        Some((first, second)) => if first == agent {
            Some(second)
        } else if second == agent {
            Some(first)
        } else {
            None
        },
        None => None,
    }
}

/// The view of an optional string.
pub open spec fn text_of(s: Option<String>) -> Option<Seq<char>> {
    match s {
        Some(t) => Some(t@),
        None => None,
    }
}

/// Extracts the peer's name from a `dm:{name}:{name}` context id; `None` when
/// the context id has another form or neither name is the agent's.
pub fn extract_peer_from_dm_context(context_id: &str, agent_name: &str) -> (r: Option<String>)
    ensures
        text_of(r) == dm_peer_of(context_id@, agent_name@),
{
    let names: &str = match strip_prefix(context_id, "dm:") {
        Some(names) => names,
        None => return None,
    };
    let chars: Vec<char> = chars_of(names);
    let mut i: usize = 0;
    while i < chars.len() && chars[i] != ':'
        invariant
            i <= chars@.len(),
            forall|j: int| 0 <= j < i ==> chars@[j] != ':',
        decreases chars@.len() - i,
    {
        i = i + 1;
    }
    proof {
        lemma_colon_at(names@, i as int);
    }
    if i == chars.len() {
        return None;
    }
    let first: &str = names.substring_char(0, i);
    let second: &str = names.substring_char(i + 1, chars.len());
    if same_text(first, agent_name) {
        Some(second.to_owned())
    } else if same_text(second, agent_name) {
        Some(first.to_owned())
    } else {
        None
    }
}

/// What is read of a session when a notification looks for its target.
#[derive(Debug, Clone)]
pub struct Session {
    /// The session's identifier.
    pub id: SessionId,
    /// The agent that owns it.
    pub agent_id: AgentId,
    /// The context id it was opened under.
    pub context_id: String,
}

/// A session of `agent` that a person looks at.
pub open spec fn faces_user(session: Session, agent: AgentId) -> bool {
    session.agent_id == agent && !internal_context(session.context_id@)
}

/// The first session in the list that a user of `agent` looks at.
pub open spec fn user_facing(sessions: Seq<Session>, agent: AgentId) -> Option<SessionId>
    decreases sessions.len(),
{
    if sessions.len() == 0 {
        None
    } else if faces_user(sessions[0], agent) {
        Some(sessions[0].id)
    } else {
        user_facing(sessions.subrange(1, sessions.len() as int), agent)
    }
}

/// `user_facing` finds the session at `n` when none before it qualifies.
pub proof fn lemma_user_facing(sessions: Seq<Session>, agent: AgentId, n: int)
    requires
        0 <= n <= sessions.len(),
        forall|j: int| 0 <= j < n ==> !faces_user(#[trigger] sessions[j], agent),
        n < sessions.len() ==> faces_user(sessions[n], agent),
    ensures
        user_facing(sessions, agent) == if n < sessions.len() {
            Some(sessions[n].id)
        } else {
            None
        },
    decreases n,
{
    if n > 0 {
        let rest = sessions.subrange(1, sessions.len() as int);
        lemma_user_facing(rest, agent, n - 1);
    }
}

/// Finds an agent's most recent user-facing session in a list that is ordered
/// by last activity, most recent first.
pub fn find_user_facing_session(sessions: &Vec<Session>, agent_id: AgentId) -> (r: Option<&Session>)
    ensures
        user_facing(sessions@, agent_id) == match r {
            Some(s) => Some(s.id),
            None => None,
        },
        r matches Some(s) ==> sessions@.contains(*s) && faces_user(*s, agent_id),
{
    let mut i: usize = 0;
    while i < sessions.len()
        invariant
            i <= sessions@.len(),
            forall|j: int| 0 <= j < i ==> !faces_user(#[trigger] sessions@[j], agent_id),
        decreases sessions@.len() - i,
    {
        if sessions[i].agent_id == agent_id && !is_internal_context_id(
            sessions[i].context_id.as_str(),
        ) {
            proof {
                lemma_user_facing(sessions@, agent_id, i as int);
            }
            return Some(&sessions[i]);
        }
        i = i + 1;
    }
    proof {
        lemma_user_facing(sessions@, agent_id, i as int);
    }
    None
}

/// The session a notification targets is never an internal one.
pub proof fn law_user_facing_is_never_internal(sessions: Seq<Session>, agent: AgentId)
    ensures
        user_facing(sessions, agent) matches Some(id) ==> exists|i: int|
            0 <= i < sessions.len() && (#[trigger] sessions[i]).id == id
                && sessions[i].agent_id == agent && !internal_context(sessions[i].context_id@),
    decreases sessions.len(),
{
    if sessions.len() > 0 && !faces_user(sessions[0], agent) {
        let rest = sessions.subrange(1, sessions.len() as int);
        law_user_facing_is_never_internal(rest, agent);
    }
}

/// Exactly the chat and telegram session types are user-facing.
pub proof fn law_internal_types(context_id: Seq<char>)
    ensures
        internal_context(context_id) <==> session_type(context_id) != "chat"@ && session_type(
            context_id,
        ) != "telegram"@,
{
    reveal_strlit("dm");
    reveal_strlit("notification");
    reveal_strlit("job");
    reveal_strlit("subagent");
    reveal_strlit("telegram");
    reveal_strlit("episodic");
    reveal_strlit("chat");
    reveal_strlit("telegram_");
    reveal_strlit("episodic:");
    assert("job"@[0] != "chat"@[0] && "job"@[0] != "telegram"@[0]);
    if begins_with(context_id, "telegram_"@) {
        assert(context_id.subrange(0, 9)[0] == 't');
    }
}

} // verus!
