//! Notices about direct message conversations: the banner and the marker on
//! the user-facing session, and the prompt that tells an agent how a
//! conversation ended.

use crate::context::{
    find_user_facing_session, text_of, user_facing, Session,
};
use crate::ids::{AgentId, SessionId};
use crate::markers::{lifecycle_base, marker_message, persist_lifecycle_marker, ExtraMetadata};
use crate::messages::Message;
use crate::metadata::{text_value, MetaView, Metadata};
use crate::peer::{ConversationEndReason, EndReason};
use crate::text::{
    concat, concat3, holds_text, lemma_piece_survives, lemma_plain_piece_survives,
    lemma_replacement_appears, replace_all, replaced, same_text, stands_at, without_braces,
};
use vstd::prelude::*;
use vstd::string::*;

verus! {

/// The words for the end of a conversation, by its wire name.
pub open spec fn reason_words(reason: Seq<char>) -> Seq<char> {
    if reason == "ignored"@ {
        "no further replies"@
    } else if reason == "depth_exceeded"@ {
        "message limit reached"@
    } else if reason == "user_cancelled"@ {
        "cancelled by user"@
    } else if reason == "errored"@ {
        "run failed"@
    } else {
        reason
    }
}

fn words_for(reason: &str) -> (r: String)
    ensures
        r@ == reason_words(reason@),
{
    if same_text(reason, "ignored") {
        "no further replies".to_owned()
    } else if same_text(reason, "depth_exceeded") {
        "message limit reached".to_owned()
    } else if same_text(reason, "user_cancelled") {
        "cancelled by user".to_owned()
    } else if same_text(reason, "errored") {
        "run failed".to_owned()
    } else {
        reason.to_owned()
    }
}

/// The text of the marker that a conversation has ended.
pub open spec fn ended_text(
    peer: Seq<char>,
    reason: Seq<char>,
    detail: Option<Seq<char>>,
) -> Seq<char> {
    "[DM conversation ended] Conversation with "@ + peer + " ended ("@ + reason_words(reason) + (
    match detail {
        Some(d) => ": "@ + d,
        None => seq![],
    }) + ")."@
}

/// The entries of that marker; the detail only when there is one.
pub open spec fn ended_entries(
    peer: Seq<char>,
    reason: Seq<char>,
    detail: Option<Seq<char>>,
    context_id: Seq<char>,
) -> Map<Seq<char>, MetaView> {
    let base = Map::empty().insert("peer"@, text_value(peer)).insert(
        "reason"@,
        text_value(reason),
    ).insert("context_id"@, text_value(context_id));
    match detail {
        Some(d) => base.insert("detail"@, text_value(d)),
        None => base,
    }
}

/// What the user-facing session is told about the end of a conversation.
#[derive(Debug)]
pub struct WebchatNotice {
    /// The session.
    pub target: SessionId,
    /// Who the live event comes from.
    pub from_agent: String,
    /// The other party.
    pub to_agent: String,
    /// Why the conversation ended, by its wire name.
    pub reason: String,
    /// The conversation.
    pub context_id: String,
    /// What else is known about the end.
    pub detail: Option<String>,
    /// The live banner is left out.
    pub suppress_banner: bool,
    /// The marker for the history, unless it is left out too.
    pub marker: Option<Message>,
}

/// `notice` tells `target` about the end of a conversation. Banner and marker
/// are left out together, and only when the run that follows the end appears
/// on that very session.
pub open spec fn announces(
    notice: WebchatNotice,
    target: SessionId,
    peer: Seq<char>,
    reason: Seq<char>,
    detail: Option<Seq<char>>,
    context_id: Seq<char>,
    run_targets: Seq<SessionId>,
    at: i64,
) -> bool {
    &&& notice.target == target
    &&& notice.from_agent@ == "system"@
    &&& notice.to_agent@ == peer
    &&& notice.reason@ == reason
    &&& notice.context_id@ == context_id
    &&& text_of(notice.detail) == detail
    &&& notice.suppress_banner == run_targets.contains(target)
    &&& notice.marker is None <==> run_targets.contains(target)
    &&& notice.marker matches Some(m) ==> marker_message(
        m,
        ended_text(peer, reason, detail),
        lifecycle_base("dm_ended_notification"@).union_prefer_right(
            ended_entries(peer, reason, detail, context_id),
        ),
        at,
    )
}

fn holds(list: &Vec<SessionId>, wanted: SessionId) -> (r: bool)
    ensures
        r == list@.contains(wanted),
{
    let mut i: usize = 0;
    while i < list.len()
        invariant
            i <= list@.len(),
            forall|j: int| 0 <= j < i ==> list@[j] != wanted,
        decreases list@.len() - i,
    {
        if list[i] == wanted {
            return true;
        }
        i = i + 1;
    }
    false
}

/// Decides what the agent's user-facing session is told when a conversation
/// has ended; nothing when the agent has no such session.
pub fn notify_dm_ended_to_webchat(
    sessions: &Vec<Session>,
    agent_id: AgentId,
    peer_name: &str,
    reason: &str,
    detail: Option<&str>,
    context_id: &str,
    run_target_session_ids: &Vec<SessionId>,
    at: i64,
) -> (r: Option<WebchatNotice>)
    ensures
        match user_facing(sessions@, agent_id) {
            Some(target) => r matches Some(notice) && announces(
                notice,
                target,
                peer_name@,
                reason@,
                match detail {
                    Some(d) => Some(d@),
                    None => None,
                },
                context_id@,
                run_target_session_ids@,
                at,
            ),
            None => r is None,
        },
{
    let target: SessionId = match find_user_facing_session(sessions, agent_id) {
        Some(session) => session.id,
        None => return None,
    };
    let mut notice: WebchatNotice = WebchatNotice {
        target,
        from_agent: "system".to_owned(),
        to_agent: peer_name.to_owned(),
        reason: reason.to_owned(),
        context_id: context_id.to_owned(),
        detail: match detail {
            Some(d) => Some(d.to_owned()),
            None => None,
        },
        suppress_banner: true,
        marker: None,
    };
    if holds(run_target_session_ids, target) {
        return Some(notice);
    }
    let words: String = words_for(reason);
    let head: String = concat3("[DM conversation ended] Conversation with ", peer_name, " ended (");
    let stem: String = concat(head.as_str(), words.as_str());
    let body: String = match detail {
        Some(d) => {
            let tail: String = concat(": ", d);
            concat3(stem.as_str(), tail.as_str(), ").")
        },
        None => {
            let body: String = concat(stem.as_str(), ").");
            body
        },
    };
    let mut meta: Metadata = Metadata::new();
    meta.set_text("peer", peer_name);
    meta.set_text("reason", reason);
    meta.set_text("context_id", context_id);
    if let Some(d) = detail {
        meta.set_text("detail", d);
    }
    let marker: Message = persist_lifecycle_marker(
        "dm_ended_notification",
        body,
        ExtraMetadata::Object(meta),
        at,
    );
    notice.suppress_banner = false;
    notice.marker = Some(marker);
    Some(notice)
}

/// The prompts that tell an agent about a conversation's end.
#[derive(Debug)]
pub struct EndedTemplates {
    /// With a transcript: `{reason}` and `{history}` are filled in.
    pub with_history: String,
    /// Without one: `{reason}` and `{from}` are filled in.
    pub no_history: String,
}

/// Why a conversation ended, in words for the agent that is told. An agent
/// that ended it itself is not told that its peer did.
pub open spec fn ended_because(
    from: Seq<char>,
    reason: EndReason<Seq<char>>,
    own_end: bool,
) -> Seq<char> {
    if own_end {
        match reason {
            EndReason::Ignored => "Your DM conversation with agent \""@ + from
                + "\" has ended (you chose not to reply)."@,
            EndReason::DepthExceeded => "Your DM conversation with agent \""@ + from
                + "\" ended because the maximum message depth was reached."@,
            EndReason::UserCancelled => "Your DM conversation was cancelled by the user."@,
            EndReason::Errored { message, interrupted } => "Your DM conversation with agent \""@
                + from + "\" ended because the run failed: "@ + message,
        }
    } else {
        match reason {
            EndReason::Ignored => "Agent \""@ + from
                + "\" ended the conversation (chose not to reply)."@,
            EndReason::DepthExceeded => "The conversation with agent \""@ + from
                + "\" was terminated because the maximum message depth was reached."@,
            EndReason::UserCancelled => "The DM conversation was cancelled by the user."@,
            EndReason::Errored { message, interrupted } => "The conversation with agent \""@ + from
                + "\" ended because the run failed: "@ + message,
        }
    }
}

fn because_text(from: &str, reason: &ConversationEndReason, own_end: bool) -> (r: String)
    ensures
        r@ == ended_because(from@, reason@, own_end),
{
    if own_end {
        match reason {
            EndReason::Ignored => concat3(
                "Your DM conversation with agent \"",
                from,
                "\" has ended (you chose not to reply).",
            ),
            EndReason::DepthExceeded => concat3(
                "Your DM conversation with agent \"",
                from,
                "\" ended because the maximum message depth was reached.",
            ),
            EndReason::UserCancelled => "Your DM conversation was cancelled by the user.".to_owned(),
            EndReason::Errored { message, interrupted: _ } => {
                let head: String = concat3(
                    "Your DM conversation with agent \"",
                    from,
                    "\" ended because the run failed: ",
                );
                concat(head.as_str(), message.as_str())
            },
        }
    } else {
        match reason {
            EndReason::Ignored => concat3(
                "Agent \"",
                from,
                "\" ended the conversation (chose not to reply).",
            ),
            EndReason::DepthExceeded => concat3(
                "The conversation with agent \"",
                from,
                "\" was terminated because the maximum message depth was reached.",
            ),
            EndReason::UserCancelled => "The DM conversation was cancelled by the user.".to_owned(),
            EndReason::Errored { message, interrupted: _ } => {
                let head: String = concat3(
                    "The conversation with agent \"",
                    from,
                    "\" ended because the run failed: ",
                );
                concat(head.as_str(), message.as_str())
            },
        }
    }
}

/// The prompt that tells an agent about a conversation's end: with the
/// transcript when there is one, else with a hint where to find it.
pub open spec fn ended_prompt(
    with_history: Seq<char>,
    no_history: Seq<char>,
    from: Seq<char>,
    reason: EndReason<Seq<char>>,
    history: Option<Seq<char>>,
    own_end: bool,
) -> Seq<char> {
    let why = ended_because(from, reason, own_end);
    match history {
        Some(h) => if h.len() > 0 {
            replaced(replaced(with_history, "{reason}"@, why), "{history}"@, h)
        } else {
            replaced(replaced(no_history, "{reason}"@, why), "{from}"@, from)
        },
        None => replaced(replaced(no_history, "{reason}"@, why), "{from}"@, from),
    }
}

/// Writes the prompt that tells an agent how a conversation ended.
pub fn format_dm_ended_notification(
    templates: &EndedTemplates,
    from_name: &str,
    reason: &ConversationEndReason,
    conversation_history: Option<&str>,
    self_notification: bool,
) -> (r: String)
    ensures
        r@ == ended_prompt(
            templates.with_history@,
            templates.no_history@,
            from_name@,
            reason@,
            match conversation_history {
                Some(h) => Some(h@),
                None => None,
            },
            self_notification,
        ),
{
    proof {
        reveal_strlit("{reason}");
        reveal_strlit("{history}");
        reveal_strlit("{from}");
    }
    let why: String = because_text(from_name, reason, self_notification);
    if let Some(history) = conversation_history {
        if !history.is_empty() {
            let text: String = replace_all(
                templates.with_history.as_str(),
                "{reason}",
                why.as_str(),
            );
            return replace_all(text.as_str(), "{history}", history);
        }
    }
    let text: String = replace_all(templates.no_history.as_str(), "{reason}", why.as_str());
    replace_all(text.as_str(), "{from}", from_name)
}

/// An agent that ended a conversation itself is never told in the words that
/// blame its peer: what it is told begins with "Your".
pub proof fn law_own_end_does_not_blame_the_peer(from: Seq<char>, reason: EndReason<Seq<char>>)
    ensures
        crate::text::begins_with(ended_because(from, reason, true), "Your DM conversation"@),
        !crate::text::begins_with(ended_because(from, reason, false), "Your DM conversation"@),
{
    reveal_strlit("Your DM conversation");
    reveal_strlit("Your DM conversation with agent \"");
    reveal_strlit("Your DM conversation was cancelled by the user.");
    reveal_strlit("Agent \"");
    reveal_strlit("The conversation with agent \"");
    reveal_strlit("The DM conversation was cancelled by the user.");
    let own = ended_because(from, reason, true);
    assert(own.subrange(0, "Your DM conversation"@.len() as int) =~= "Your DM conversation"@);
    let other = ended_because(from, reason, false);
    if crate::text::begins_with(other, "Your DM conversation"@) {
        assert(other.subrange(0, "Your DM conversation"@.len() as int)[0] == 'Y');
    }
}

/// An empty transcript counts as none.
pub proof fn law_empty_transcript_counts_as_none(
    with_history: Seq<char>,
    no_history: Seq<char>,
    from: Seq<char>,
    reason: EndReason<Seq<char>>,
    own_end: bool,
)
    ensures
        ended_prompt(
            with_history,
            no_history,
            from,
            reason,
            Some(Seq::<char>::empty()),
            own_end,
        ) == ended_prompt(with_history, no_history, from, reason, None, own_end),
{
}

/// A transcript that is not empty stands in the prompt, whose template has a
/// place for it; the text that points at a tool in its stead has no part in it.
pub proof fn law_transcript_is_shown(
    with_history: Seq<char>,
    no_history: Seq<char>,
    other_no_history: Seq<char>,
    from: Seq<char>,
    reason: EndReason<Seq<char>>,
    history: Seq<char>,
    own_end: bool,
)
    requires
        history.len() > 0,
        holds_text(with_history, "{history}"@),
    ensures
        holds_text(
            ended_prompt(with_history, no_history, from, reason, Some(history), own_end),
            history,
        ),
        ended_prompt(with_history, no_history, from, reason, Some(history), own_end)
            == ended_prompt(with_history, other_no_history, from, reason, Some(history), own_end),
{
    reveal_strlit("{reason}");
    reveal_strlit("{history}");
    let why = ended_because(from, reason, own_end);
    let at = choose|at: int| stands_at(with_history, at, "{history}"@);
    lemma_piece_survives(with_history, "{reason}"@, why, "{history}"@, at);
    let text = replaced(with_history, "{reason}"@, why);
    let then_at = choose|at: int| stands_at(text, at, "{history}"@);
    lemma_replacement_appears(text, "{history}"@, history, then_at);
}

/// The words of the template for an absent transcript reach the prompt: any
/// piece of it that holds no brace, and is not the name of one of its slots,
/// stands in the prompt. So a tool that the template names is named there.
pub proof fn law_fallback_keeps_its_words(
    with_history: Seq<char>,
    no_history: Seq<char>,
    from: Seq<char>,
    reason: EndReason<Seq<char>>,
    history: Option<Seq<char>>,
    own_end: bool,
    piece: Seq<char>,
)
    requires
        history is None || history == Some(Seq::<char>::empty()),
        piece.len() > 0,
        without_braces(piece),
        !holds_text("{reason}"@, piece),
        !holds_text("{from}"@, piece),
        holds_text(no_history, piece),
    ensures
        holds_text(
            ended_prompt(with_history, no_history, from, reason, history, own_end),
            piece,
        ),
{
    reveal_strlit("{reason}");
    reveal_strlit("{from}");
    let why = ended_because(from, reason, own_end);
    let at = choose|at: int| stands_at(no_history, at, piece);
    lemma_plain_piece_survives(no_history, "{reason}"@, why, piece, at);
    let text = replaced(no_history, "{reason}"@, why);
    let then_at = choose|at: int| stands_at(text, at, piece);
    lemma_plain_piece_survives(text, "{from}"@, from, piece, then_at);
}

/// A conversation's end always leaves a trace on the user-facing session: a
/// marker there, or a run there.
pub proof fn law_end_is_always_visible(
    notice: WebchatNotice,
    target: SessionId,
    peer: Seq<char>,
    reason: Seq<char>,
    detail: Option<Seq<char>>,
    context_id: Seq<char>,
    run_targets: Seq<SessionId>,
    at: i64,
)
    requires
        announces(notice, target, peer, reason, detail, context_id, run_targets, at),
    ensures
        notice.marker is Some || run_targets.contains(target),
        notice.marker is Some <==> !notice.suppress_banner,
        run_targets.len() == 0 ==> notice.marker is Some,
{
}

} // verus!
