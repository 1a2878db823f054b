//! What the message bus's requests come to, what peers are told, and how a
//! panic is cleaned up after, stated of the operations and their results.

use crate::context::{internal_context, lemma_user_facing, text_of, Session};
use crate::dm_notice::{format_dm_ended_notification, EndedTemplates};
use crate::execution::{Effect, Effects, Event};
use crate::guard::{panic_reason_text, reconcile_panic, GuardPhase};
use crate::ids::{job_for_context, AgentId, JobId, SessionId};
use crate::job_episode::{awaits_dm, ContinuationRoute, JobEpisodeTracker};
use crate::launch::RunRequest;
use crate::messages::{format_dm_conversation_history, Message};
use crate::notice_laws::opt_text;
use crate::peer::{
    lifecycle_persistence_error_for_peer, peer_error_with_prefix, peer_text,
    truncate_error_for_peer, ConversationEndReason, EndReason, RunVerdict,
};
use crate::text::{byte_len, lemma_longest_prefix};
use crate::text_laws::{lemma_last_that_fits, within_bytes};
use crate::triggers::{
    dm_ended_peer_for_source, notify_dm_started_to_webchat, operator_cancelled_job_for_context,
    plan_trigger, plan_triggered_runs, planned, requested_runs, target_sessions, trigger_routes,
    EndedConversation, MessageSource, RunTrigger, TriggerPlan, TriggeredRunTarget,
};
use std::collections::HashSet;
use vstd::prelude::*;

verus! {

/// The wire names of the four reasons.
pub open spec fn wire_name(reason: ConversationEndReason) -> Seq<char> {
    match reason {
        EndReason::Ignored => "ignored"@,
        EndReason::DepthExceeded => "depth_exceeded"@,
        EndReason::UserCancelled => "user_cancelled"@,
        EndReason::Errored { .. } => "errored"@,
    }
}

/// A reason travels under its own name, carries a detail exactly when a run
/// failed, and cut the last turn short exactly when the user cancelled or the
/// failed run died before its turn was over.
pub proof fn law_reason_speaks_for_itself(
    reason: ConversationEndReason,
    label: &'static str,
    detail: Option<String>,
    cut_short: bool,
)
    requires
        call_ensures(ConversationEndReason::label, (&reason,), label),
        call_ensures(ConversationEndReason::detail, (&reason,), detail),
        call_ensures(ConversationEndReason::is_interrupted, (&reason,), cut_short),
    ensures
        label@ == wire_name(reason),
        reason matches EndReason::Errored { message, .. } ==> text_of(detail) == Some(message@),
        !(reason is Errored) ==> detail is None,
        cut_short <==> reason is UserCancelled || (reason matches EndReason::Errored {
            interrupted,
            ..
        } && interrupted),
{
    assert(reason@ == match reason {
        EndReason::Ignored => EndReason::Ignored,
        EndReason::DepthExceeded => EndReason::DepthExceeded,
        EndReason::UserCancelled => EndReason::UserCancelled,
        EndReason::Errored { message, interrupted } => EndReason::Errored {
            message: message@,
            interrupted,
        },
    });
}

/// The end of a conversation bars its runs from the other party; no other
/// trigger bars anyone.
pub proof fn law_only_ends_bar_a_peer(source: MessageSource, r: Option<String>)
    requires
        call_ensures(dm_ended_peer_for_source, (&source,), r),
    ensures
        source matches MessageSource::ConversationEnded { from_name, .. } ==> text_of(r) == Some(
            from_name@,
        ),
        !(source is ConversationEnded) ==> r is None,
{
}

/// The end of a conversation whose last turn was cut short.
pub open spec fn cut_short(source: MessageSource) -> bool {
    source matches MessageSource::ConversationEnded { reason, .. } && (reason is UserCancelled || (
    reason matches EndReason::Errored { interrupted, .. } && interrupted))
}

/// A trigger starts one run for each episode that waited for it, on the session
/// of that episode's job. If none waited, it starts one run on its own session,
/// unless the conversation was cut short: then it starts none. The end of a
/// conversation bars every one of them from the other party.
pub proof fn law_trigger_starts_what_waited(
    source: MessageSource,
    session: SessionId,
    context_id: &str,
    routes: Vec<ContinuationRoute>,
    r: Vec<TriggeredRunTarget>,
    i: int,
    barred: Option<String>,
)
    requires
        call_ensures(plan_triggered_runs, (&source, session, context_id, routes), r),
        call_ensures(dm_ended_peer_for_source, (&source,), barred),
    ensures
        routes@.len() > 0 ==> r@.len() == routes@.len(),
        routes@.len() == 0 ==> r@.len() == if cut_short(source) {
            0nat
        } else {
            1nat
        },
        0 <= i < r@.len() ==> text_of(r@[i].dm_ended_peer) == text_of(barred),
        0 <= i < r@.len() && routes@.len() > 0 ==> r@[i].job_id == Some(routes@[i].job_id)
            && r@[i].session_id == routes@[i].job_session_id && r@[i].context_id@
            == routes@[i].context_id@,
        0 <= i < r@.len() && routes@.len() == 0 ==> r@[i].job_id is None && r@[i].session_id
            == session && r@[i].context_id@ == context_id@,
{
}

/// A peer's message and the completion of a subagent start one run each, on
/// their own session and with their own text, and touch no episode; only the
/// peer's message shows that the agent is talking, and to whom.
pub proof fn law_plain_triggers_start_one_run(
    tracker: &mut JobEpisodeTracker,
    templates: EndedTemplates,
    trigger: RunTrigger,
    conversation: Option<EndedConversation>,
    sessions: Vec<Session>,
    at: i64,
    r: TriggerPlan,
)
    requires
        call_ensures(
            plan_trigger,
            (tracker, &templates, trigger, conversation, &sessions, at),
            r,
        ),
        !(trigger.source is ConversationEnded),
    ensures
        final(tracker)@ == old(tracker)@,
        r.conversation_ended is None,
        r.notice is None,
        r.targets@.len() == 1,
        r.targets@[0].session_id == trigger.session_id,
        r.targets@[0].context_id@ == trigger.context_id@,
        r.targets@[0].job_id is None,
        r.targets@[0].dm_ended_peer is None,
        r.input@ == trigger.input@,
        r.is_peer <==> trigger.source is Agent,
        trigger.source matches MessageSource::Agent { from_name, .. } ==> r.source_label@
            == "peer:"@ + from_name@ && text_of(r.activity_with) == Some(from_name@),
        trigger.source is SubagentCompletion ==> r.source_label@ == "subagent"@ && r.activity_with
            is None,
{
}

/// The end of a conversation is no peer's message. Its runs are labelled by the
/// other party, and every one of them is barred from that party; those that are
/// no job's run on the trigger's own session, and there is none of them when
/// the conversation was cut short.
pub proof fn law_end_bars_every_run_from_the_other_party(
    tracker: &mut JobEpisodeTracker,
    templates: EndedTemplates,
    trigger: RunTrigger,
    conversation: Option<EndedConversation>,
    sessions: Vec<Session>,
    at: i64,
    r: TriggerPlan,
    i: int,
)
    requires
        call_ensures(
            plan_trigger,
            (tracker, &templates, trigger, conversation, &sessions, at),
            r,
        ),
        trigger.source is ConversationEnded,
    ensures
        !r.is_peer,
        r.activity_with is None,
        trigger.source matches MessageSource::ConversationEnded { from_name, .. } ==> {
            &&& r.source_label@ == "notification:dm_ended:"@ + from_name@
            &&& 0 <= i < r.targets@.len() ==> text_of(r.targets@[i].dm_ended_peer) == Some(
                from_name@,
            )
        },
        0 <= i < r.targets@.len() && r.targets@[i].job_id is None ==> {
            &&& !cut_short(trigger.source)
            &&& r.targets@.len() == 1
            &&& r.targets@[i].session_id == trigger.session_id
            &&& r.targets@[i].context_id@ == trigger.context_id@
        },
        0 <= i < r.targets@.len() && r.targets@[i].job_id is Some ==> {
            let job = r.targets@[i].job_id->0;
            &&& conversation is Some
            &&& old(tracker)@.contains_key(job)
            &&& old(tracker)@[job].agent_id == trigger.agent_id
            &&& old(tracker)@[job].pending_dms.contains(conversation->0.dm_session_id)
            &&& r.targets@[i].session_id == old(tracker)@[job].session_id
        },
        r.targets@.len() == 0 ==> cut_short(trigger.source),
        conversation is None ==> final(tracker)@ == old(tracker)@,
{
}

/// The episodes that a trigger continues are those that the registry gives up
/// for the end of that conversation: the plan leaves the registry as resolving
/// the conversation there does.
pub proof fn law_end_is_resolved_in_the_registry(
    tracker: &mut JobEpisodeTracker,
    other: &mut JobEpisodeTracker,
    templates: EndedTemplates,
    trigger: RunTrigger,
    conversation: EndedConversation,
    sessions: Vec<Session>,
    at: i64,
    r: TriggerPlan,
    routes: Vec<ContinuationRoute>,
    job: JobId,
)
    requires
        trigger.source is ConversationEnded,
        call_ensures(
            plan_trigger,
            (tracker, &templates, trigger, Some(conversation), &sessions, at),
            r,
        ),
        old(other)@ == old(tracker)@,
        call_ensures(
            JobEpisodeTracker::resolve_dm,
            (other, conversation.dm_session_id, trigger.agent_id),
            routes,
        ),
    ensures
        final(tracker)@ == final(other)@,
        old(tracker)@.contains_key(job) && old(tracker)@[job].agent_id == trigger.agent_id && old(
            tracker,
        )@[job].pending_dms.contains(conversation.dm_session_id) ==> exists|i: int|
            0 <= i < r.targets@.len() && (#[trigger] r.targets@[i]).job_id == Some(job),
{
    let told = choose|told: Seq<ContinuationRoute>|
        #![trigger trigger_routes(old(tracker)@, final(tracker)@, trigger, Some(conversation), told)]
        trigger_routes(old(tracker)@, final(tracker)@, trigger, Some(conversation), told)
            && planned(
            r.targets@,
            trigger.source,
            trigger.session_id,
            trigger.context_id@,
            told,
        );
    if awaits_dm(old(tracker)@, job, conversation.dm_session_id, trigger.agent_id) {
        let i = choose|i: int| 0 <= i < told.len() && (#[trigger] told[i]).job_id == job;
        assert(r.targets@[i].job_id == Some(job));
    }
}

/// The session of a conversation is told of its end exactly when it ended at
/// its maximum depth and is known: from the other party, to the recipient.
pub proof fn law_depth_end_is_told_on_the_spot(
    tracker: &mut JobEpisodeTracker,
    templates: EndedTemplates,
    trigger: RunTrigger,
    conversation: Option<EndedConversation>,
    sessions: Vec<Session>,
    at: i64,
    r: TriggerPlan,
)
    requires
        call_ensures(
            plan_trigger,
            (tracker, &templates, trigger, conversation, &sessions, at),
            r,
        ),
    ensures
        r.conversation_ended is Some <==> conversation is Some && (trigger.source matches
            MessageSource::ConversationEnded { reason, .. } && reason is DepthExceeded),
        r.conversation_ended matches Some(e) ==> {
            &&& e.dm_session_id == conversation->0.dm_session_id
            &&& e.context_id@ == conversation->0.dm_context_id@
            &&& e.to_agent@ == conversation->0.recipient@
            &&& e.reason@ == "depth_exceeded"@
            &&& trigger.source matches MessageSource::ConversationEnded { from_name, .. }
                && e.from_agent@ == from_name@
        },
{
    if let MessageSource::ConversationEnded { reason, .. } = trigger.source {
        assert(reason is DepthExceeded <==> reason@ is DepthExceeded);
    }
}

/// What the agent's user-facing session is told of the end of a conversation is
/// what the notification of such an end says, for that party, reason, detail
/// and conversation, and for the sessions that the planned runs appear on.
pub proof fn law_end_is_told_to_the_user(
    tracker: &mut JobEpisodeTracker,
    templates: EndedTemplates,
    trigger: RunTrigger,
    conversation: Option<EndedConversation>,
    sessions: Vec<Session>,
    at: i64,
    r: TriggerPlan,
    n: int,
)
    requires
        call_ensures(
            plan_trigger,
            (tracker, &templates, trigger, conversation, &sessions, at),
            r,
        ),
        0 <= n <= sessions@.len(),
        forall|j: int|
            0 <= j < n ==> (#[trigger] sessions@[j]).agent_id != trigger.agent_id
                || internal_context(sessions@[j].context_id@),
        n < sessions@.len() ==> sessions@[n].agent_id == trigger.agent_id && !internal_context(
            sessions@[n].context_id@,
        ),
    ensures
        r.notice is Some <==> trigger.source is ConversationEnded && n < sessions@.len(),
        r.notice matches Some(notice) ==> (trigger.source matches
            MessageSource::ConversationEnded { from_name, reason, .. } && {
            let follows = exists|k: int|
                0 <= k < r.targets@.len() && (#[trigger] r.targets@[k]).session_id
                    == sessions@[n].id;
            &&& notice.target == sessions@[n].id
            &&& notice.to_agent@ == from_name@
            &&& notice.reason@ == wire_name(reason)
            &&& reason matches EndReason::Errored { message, .. } ==> text_of(notice.detail)
                == Some(message@)
            &&& !(reason is Errored) ==> notice.detail is None
            &&& notice.context_id@ == match conversation {
                Some(c) => c.dm_context_id@,
                None => Seq::<char>::empty(),
            }
            &&& notice.suppress_banner <==> follows
            &&& notice.marker is None <==> follows
        }),
{
    assert forall|j: int| 0 <= j < n implies !crate::context::faces_user(
        #[trigger] sessions@[j],
        trigger.agent_id,
    ) by {}
    lemma_user_facing(sessions@, trigger.agent_id, n);
    if let MessageSource::ConversationEnded { reason, .. } = trigger.source {
        assert(reason@ == match reason {
            EndReason::Ignored => EndReason::Ignored,
            EndReason::DepthExceeded => EndReason::DepthExceeded,
            EndReason::UserCancelled => EndReason::UserCancelled,
            EndReason::Errored { message, interrupted } => EndReason::Errored {
                message: message@,
                interrupted,
            },
        });
        if n < sessions@.len() {
            let listed = target_sessions(r.targets@);
            let target = sessions@[n].id;
            if listed.contains(target) {
                let k = choose|k: int| 0 <= k < listed.len() && listed[k] == target;
                assert(r.targets@[k].session_id == target);
            }
            if exists|k: int|
                0 <= k < r.targets@.len() && (#[trigger] r.targets@[k]).session_id == target {
                let k = choose|k: int|
                    0 <= k < r.targets@.len() && (#[trigger] r.targets@[k]).session_id == target;
                assert(listed[k] == target);
            }
        }
    }
}

/// The input that follows the end of a conversation is the prompt about that
/// end: with the transcript of the conversation, where it could be read and is
/// not empty.
pub proof fn law_end_is_put_into_words(
    tracker: &mut JobEpisodeTracker,
    templates: EndedTemplates,
    trigger: RunTrigger,
    conversation: Option<EndedConversation>,
    sessions: Vec<Session>,
    at: i64,
    r: TriggerPlan,
    from: &str,
    reason: ConversationEndReason,
    own_end: bool,
    messages: Vec<Message>,
    written: String,
    history: Option<&str>,
    prompt: String,
)
    requires
        call_ensures(
            plan_trigger,
            (tracker, &templates, trigger, conversation, &sessions, at),
            r,
        ),
        trigger.source matches MessageSource::ConversationEnded {
            from_name,
            reason: why,
            self_notification,
            ..
        } && from_name@ == from@ && why == reason && self_notification == own_end,
        call_ensures(format_dm_conversation_history, (&messages,), written),
        conversation is Some && conversation->0.history == Some(messages) ==> opt_text(history)
            == if written@.len() > 0 {
            Some(written@)
        } else {
            None
        },
        conversation is None || conversation->0.history is None ==> history is None,
        conversation is Some && conversation->0.history is Some ==> conversation->0.history == Some(
            messages,
        ),
        call_ensures(
            format_dm_ended_notification,
            (&templates, from, &reason, history, own_end),
            prompt,
        ),
    ensures
        r.input@ == prompt@,
{
}

/// A plan is written out one request per planned run, in order: each runs where
/// and for whom the target says, with the input and the label of the plan.
pub proof fn law_requests_carry_the_plan(
    agent: AgentId,
    plan: TriggerPlan,
    r: Vec<RunRequest<String>>,
    i: int,
)
    requires
        call_ensures(requested_runs, (agent, &plan), r),
    ensures
        r@.len() == plan.targets@.len(),
        0 <= i < r@.len() ==> {
            let request = r@[i];
            let target = plan.targets@[i];
            &&& request.agent_id == agent
            &&& request.session_id == target.session_id
            &&& request.context_id@ == target.context_id@
            &&& request.job_id == target.job_id
            &&& text_of(request.dm_ended_peer) == text_of(target.dm_ended_peer)
            &&& request.input@ == plan.input@
            &&& request.source_label@ == plan.source_label@
            &&& request.is_peer_message == plan.is_peer
        },
{
    assert(r.len() == r@.len());
    if 0 <= i < r@.len() {
        let read = r@[i]@;
        assert(read.input == plan.input@);
        assert(read.source_label == plan.source_label@);
        assert(read.context_id == plan.targets@[i].context_id@);
    }
}

/// Whom the agent is talking to is shown on the session that a person looks at:
/// the agent's first in the list that is not internal.
pub proof fn law_talk_is_shown_where_the_user_looks(
    sessions: Vec<Session>,
    agent: AgentId,
    r: Option<SessionId>,
    n: int,
)
    requires
        call_ensures(notify_dm_started_to_webchat, (&sessions, agent), r),
        0 <= n <= sessions@.len(),
        forall|j: int|
            0 <= j < n ==> (#[trigger] sessions@[j]).agent_id != agent || internal_context(
                sessions@[j].context_id@,
            ),
        n < sessions@.len() ==> sessions@[n].agent_id == agent && !internal_context(
            sessions@[n].context_id@,
        ),
    ensures
        n < sessions@.len() ==> r == Some(sessions@[n].id),
        n == sessions@.len() ==> r is None,
{
    assert forall|j: int| 0 <= j < n implies !crate::context::faces_user(
        #[trigger] sessions@[j],
        agent,
    ) by {}
    lemma_user_facing(sessions@, agent, n);
}

/// A result is dropped for a cancelled job exactly when its context id is that
/// job's and the operator cancelled it.
pub proof fn law_only_the_operators_cancellation_counts(
    cancelled: HashSet<JobId>,
    context_id: &str,
    r: Option<JobId>,
    job: Option<JobId>,
)
    requires
        call_ensures(operator_cancelled_job_for_context, (&cancelled, context_id), r),
        call_ensures(job_for_context, (context_id,), job),
    ensures
        r is Some ==> r == job,
        r is Some <==> job is Some && cancelled@.contains(job->0),
{
}

/// A text cut for a peer is fitted to its budget.
pub proof fn lemma_cut_for_peer(text: Seq<char>)
    ensures
        within_bytes(text, 300, peer_text(text)),
{
    if byte_len(text) > 300 {
        assert(text.subrange(0, 0) =~= Seq::<char>::empty());
        let n = lemma_last_that_fits(text, 0, 300);
        lemma_longest_prefix(text, n, 300);
        assert(peer_text(text) =~= text.subrange(0, n) + seq!['.', '.', '.']);
    }
}

/// What a peer is shown of an error is the text fitted to its budget, behind
/// the gateway's own words where there are any: those are never cut.
pub proof fn law_peer_text_is_fitted(sanitised: &str, prefix: &str, r: String, behind: String)
    requires
        call_ensures(truncate_error_for_peer, (sanitised,), r),
        call_ensures(peer_error_with_prefix, (prefix, sanitised), behind),
    ensures
        within_bytes(sanitised@, 300, r@),
        behind@ == prefix@ + r@,
{
    lemma_cut_for_peer(sanitised@);
}

/// The record decides: a run that was put away because its end could not be
/// stored reports what the record holds, or that persistence failed; any other
/// reports what the caller saw.
pub proof fn law_record_names_the_cause(
    verdict: Option<RunVerdict<String>>,
    observed: Option<String>,
    r: Option<String>,
)
    requires
        call_ensures(lifecycle_persistence_error_for_peer, (verdict, observed), r),
    ensures
        ({
            let failed = verdict is Some && text_of(verdict->0.terminal_reason) == Some(
                "persistence_failed"@,
            );
            &&& !failed ==> text_of(r) == text_of(observed)
            &&& failed && verdict->0.error is Some ==> text_of(r) == text_of(verdict->0.error)
            &&& failed && verdict->0.error is None ==> text_of(r) == Some(
                "lifecycle persistence failed"@,
            )
        }),
{
}

/// From `at` on, everything that a run holds is let go: the session's activity,
/// its event senders, its cancellation token, its approvals and its part in a
/// job's episode; the queue advances last.
pub open spec fn lets_all_go(effects: Seq<Effect<String>>, at: int) -> bool {
    &&& effects.len() == at + 7
    &&& effects[at] is ActivityEnded
    &&& effects[at + 1] is RemoveSenders
    &&& effects[at + 2] is PurgeTerminalSenders
    &&& effects[at + 3] is RemoveCancelToken
    &&& effects[at + 4] is ClearApprovals
    &&& effects[at + 5] matches Effect::FinishEpisode { tool_calls } && tool_calls is None
    &&& effects[at + 6] is AdvanceQueue
}

/// The effect ends the conversation because its run was cut short by a failure
/// with this text.
pub open spec fn cut_off_with(effect: Effect<String>, text: Seq<char>) -> bool {
    effect matches Effect::EndConversation(EndReason::Errored { message, interrupted })
        && message@ == text && interrupted
}

/// A panic that the record now shows is told to subscribers and to the peer in
/// the gateway's own words; one that came after the run's end is told to nobody;
/// one that could not be stored is told to subscribers with its cause, and to
/// the peer with the sanitised cause. In each case all that the run held is let
/// go.
pub proof fn law_panic_is_told_and_cleaned_up(
    phase: GuardPhase<String>,
    event: Event<String>,
    next: GuardPhase<String>,
    effects: Effects,
)
    requires
        call_ensures(reconcile_panic, (phase, event), (next, effects)),
    ensures
        phase is Marking ==> (event matches Event::Marked(Ok(true)) ==> {
            &&& next is Done
            &&& lets_all_go(effects.list@, 2)
            &&& effects.list@[0] matches Effect::RunError(m) && m@
                == "Run panicked during execution"@
            &&& cut_off_with(effects.list@[1], "Run panicked during execution"@)
        }),
        phase is Marking ==> (event matches Event::Marked(Ok(false)) ==> next is Done
            && lets_all_go(effects.list@, 0)),
        phase is Marking ==> (event matches Event::Marked(Err(e)) ==> {
            &&& next matches GuardPhase::TellingPeer(kept) && kept@ == e@
            &&& effects.list@.len() == 1
            &&& effects.list@[0] matches Effect::RunError(m) && m@
                == "Run panic could not be persisted: "@ + e@
        }),
        phase is TellingPeer ==> (event matches Event::Sanitised(t) ==> {
            &&& next is Done
            &&& lets_all_go(effects.list@, 1)
            &&& exists|shown: Seq<char>| #[trigger]
                within_bytes(t@, 300, shown) && cut_off_with(
                    effects.list@[0],
                    "Run panic could not be persisted: "@ + shown,
                )
        }),
{
    let seen = effects@;
    assert(seen.len() == effects.list@.len());
    assert forall|i: int| 0 <= i < seen.len() implies seen[i] == (#[trigger] effects.list@[i])@ by {
    }
    if let Event::Sanitised(t) = event {
        lemma_cut_for_peer(t@);
        assert(within_bytes(t@, 300, peer_text(t@)));
    }
    if phase is Marking && event matches Event::Marked(Err(e)) {
        assert(next@ == GuardPhase::TellingPeer(event->Marked_0->Err_0@));
        assert(next is TellingPeer);
    }
}

/// A panic is recorded in the gateway's own words.
pub proof fn law_panic_is_recorded_as_one(r: String)
    requires
        call_ensures(panic_reason_text, (), r),
    ensures
        r@ == "Run panicked during execution"@,
{
}

/// An answer that nobody waits for leaves the clean-up after a panic as it is.
pub proof fn law_stray_answers_leave_the_clean_up(
    phase: GuardPhase<String>,
    event: Event<String>,
    next: GuardPhase<String>,
    effects: Effects,
)
    requires
        call_ensures(reconcile_panic, (phase, event), (next, effects)),
        !(phase is Marking && event is Marked),
        !(phase is TellingPeer && event is Sanitised),
    ensures
        next@ == phase@,
        effects.list@.len() == 0,
{
    assert(effects@.len() == effects.list@.len());
}

} // verus!
