//! Runs that the message bus asks for: a peer's message, the completion of a
//! subagent, or the end of a direct message conversation.

use crate::context::{
    find_user_facing_session, internal_context, law_user_facing_is_never_internal, text_of,
    user_facing, Session,
};
use crate::dm_notice::{
    announces, ended_prompt, format_dm_ended_notification, notify_dm_ended_to_webchat,
    EndedTemplates, WebchatNotice,
};
use crate::ids::{job_context, job_for_context, job_of_context, AgentId, JobId, RunId, SessionId};
use crate::job_episode::{
    dm_resolved, dm_routes, have_room, well_formed, ContinuationRoute, Episodes, JobEpisodeTracker,
};
use crate::launch::{triggered_launch, RunRequest};
use crate::messages::{format_dm_conversation_history, transcript, valid_timestamp, Message};
use crate::peer::{detail_of, interrupted, reason_label, ConversationEndReason, EndReason};
use crate::runtime_plan::{plans_runtime, AgentSetup, RuntimePlan, SendFold};
use crate::text::concat;
use std::collections::HashSet;
use vstd::prelude::*;
use vstd::string::*;

verus! {

broadcast use vstd::std_specs::hash::group_hash_axioms;

/// What made the message bus ask for a run.
#[derive(Debug)]
pub enum MessageSource {
    /// A peer agent sent a message.
    Agent {
        /// The sender.
        from_agent: AgentId,
        /// The sender's name.
        from_name: String,
    },
    /// A background subagent finished.
    SubagentCompletion,
    /// A direct message conversation ended. The recipient of the trigger is
    /// one party; the other is named here, whoever ended it.
    ConversationEnded {
        /// The other party.
        from_agent: AgentId,
        /// The other party's name.
        from_name: String,
        /// Why it ended.
        reason: ConversationEndReason,
        /// The recipient ended it itself.
        self_notification: bool,
        /// The session that the conversation was started from.
        source_session_id: Option<SessionId>,
    },
}

/// A request of the message bus for a run.
#[derive(Debug)]
pub struct RunTrigger {
    /// The session to run on.
    pub session_id: SessionId,
    /// The agent to run.
    pub agent_id: AgentId,
    /// The context id of the session.
    pub context_id: String,
    /// The input.
    pub input: String,
    /// What the request is about.
    pub source: MessageSource,
}

/// The other party of a conversation whose end is announced.
pub open spec fn ended_with(source: MessageSource) -> Option<Seq<char>> {
    match source {
        MessageSource::ConversationEnded { from_name, .. } => Some(from_name@),
        _ => None,
    }
}

/// The trigger announces the end of a conversation whose last turn was cut
/// short.
pub open spec fn interrupted_end(source: MessageSource) -> bool {
    match source {
        MessageSource::ConversationEnded { reason, .. } => interrupted(reason@),
        _ => false,
    }
}

/// Names the peer that the runs of a trigger may not message: the other party
/// of the conversation that has just ended.
pub fn dm_ended_peer_for_source(source: &MessageSource) -> (r: Option<String>)
    ensures
        text_of(r) == ended_with(*source),
{
    match source {
        MessageSource::ConversationEnded { from_name, .. } => Some(from_name.clone()),
        MessageSource::Agent { .. } => None,
        MessageSource::SubagentCompletion => None,
    }
}

/// One run that a trigger asks for.
#[derive(Debug, Clone, PartialEq, Eq)]
pub struct TriggeredRunTarget {
    /// The session to run on.
    pub session_id: SessionId,
    /// The context id of the session.
    pub context_id: String,
    /// The job whose episode the run continues.
    pub job_id: Option<JobId>,
    /// The peer that the run may not message.
    pub dm_ended_peer: Option<String>,
}

/// `target` is a run with these parameters.
pub open spec fn targets(
    target: TriggeredRunTarget,
    session: SessionId,
    context: Seq<char>,
    job: Option<JobId>,
    peer: Option<Seq<char>>,
) -> bool {
    &&& target.session_id == session
    &&& target.context_id@ == context
    &&& target.job_id == job
    &&& text_of(target.dm_ended_peer) == peer
}

/// `plan` is what a trigger asks for. Episodes that waited for the event are
/// continued, each on the session of its job. Else an interrupted end asks for
/// nothing, and any other trigger for one run on its own session.
pub open spec fn planned(
    plan: Seq<TriggeredRunTarget>,
    source: MessageSource,
    session: SessionId,
    context: Seq<char>,
    routes: Seq<ContinuationRoute>,
) -> bool {
    if routes.len() > 0 {
        plan.len() == routes.len() && forall|i: int|
            0 <= i < plan.len() ==> targets(
                #[trigger] plan[i],
                routes[i].job_session_id,
                routes[i].context_id@,
                Some(routes[i].job_id),
                ended_with(source),
            )
    } else if interrupted_end(source) {
        plan.len() == 0
    } else {
        plan.len() == 1 && targets(plan[0], session, context, None, ended_with(source))
    }
}

/// Decides which runs a trigger asks for, and which peer each of them may not
/// message.
pub fn plan_triggered_runs(
    source: &MessageSource,
    trigger_session_id: SessionId,
    trigger_context_id: &str,
    episode_routes: Vec<ContinuationRoute>,
) -> (r: Vec<TriggeredRunTarget>)
    ensures
        planned(r@, *source, trigger_session_id, trigger_context_id@, episode_routes@),
{
    let mut plan: Vec<TriggeredRunTarget> = Vec::new();
    if episode_routes.len() > 0 {
        let mut i: usize = 0;
        while i < episode_routes.len()
            invariant
                i <= episode_routes@.len(),
                plan@.len() == i,
                forall|k: int|
                    0 <= k < i ==> targets(
                        #[trigger] plan@[k],
                        episode_routes@[k].job_session_id,
                        episode_routes@[k].context_id@,
                        Some(episode_routes@[k].job_id),
                        ended_with(*source),
                    ),
            decreases episode_routes@.len() - i,
        {
            let route: &ContinuationRoute = &episode_routes[i];
            plan.push(
                TriggeredRunTarget {
                    session_id: route.job_session_id,
                    context_id: route.context_id.clone(),
                    job_id: Some(route.job_id),
                    dm_ended_peer: dm_ended_peer_for_source(source),
                },
            );
            i = i + 1;
        }
        return plan;
    }
    let cut_short: bool = match source {
        MessageSource::ConversationEnded { reason, .. } => reason.is_interrupted(),
        _ => false,
    };
    if !cut_short {
        plan.push(
            TriggeredRunTarget {
                session_id: trigger_session_id,
                context_id: trigger_context_id.to_owned(),
                job_id: None,
                dm_ended_peer: dm_ended_peer_for_source(source),
            },
        );
    }
    plan
}

/// What is known of the conversation whose end a trigger announces, once the
/// recipient's own name has been looked up.
#[derive(Debug)]
pub struct EndedConversation {
    /// The recipient's name.
    pub recipient: String,
    /// The session of the conversation.
    pub dm_session_id: SessionId,
    /// The context id of that session.
    pub dm_context_id: String,
    /// The messages of that session, if they could be read.
    pub history: Option<Vec<Message>>,
}

/// Every message that the history holds, if it is known, has a timestamp in
/// range.
pub open spec fn readable(conversation: Option<EndedConversation>) -> bool {
    match conversation {
        Some(c) => match c.history {
            Some(messages) => forall|i: int|
                0 <= i < messages@.len() ==> valid_timestamp((#[trigger] messages@[i]).timestamp),
            None => true,
        },
        None => true,
    }
}

/// The transcript that goes into the prompt, if there is one.
pub open spec fn known_history(conversation: Option<EndedConversation>) -> Option<Seq<char>> {
    match conversation {
        Some(c) => match c.history {
            Some(messages) => if transcript(messages@).len() > 0 {
                Some(transcript(messages@))
            } else {
                None
            },
            None => None,
        },
        None => None,
    }
}

/// The label of the runs that a trigger asks for.
pub open spec fn source_label(source: MessageSource) -> Seq<char> {
    match source {
        MessageSource::Agent { from_name, .. } => "peer:"@ + from_name@,
        MessageSource::SubagentCompletion => "subagent"@,
        MessageSource::ConversationEnded { from_name, .. } => "notification:dm_ended:"@
            + from_name@,
    }
}

/// The input of the runs that a trigger asks for. The end of a conversation is
/// put into words here; every other trigger brings its own text.
pub open spec fn run_input(
    templates: EndedTemplates,
    trigger: RunTrigger,
    conversation: Option<EndedConversation>,
) -> Seq<char> {
    match trigger.source {
        MessageSource::ConversationEnded { from_name, reason, self_notification, .. } => {
            ended_prompt(
                templates.with_history@,
                templates.no_history@,
                from_name@,
                reason@,
                known_history(conversation),
                self_notification,
            )
        },
        _ => trigger.input@,
    }
}

/// The event on a conversation's own session that it has ended.
#[derive(Debug)]
pub struct ConversationEndedEvent {
    /// The session of the conversation.
    pub dm_session_id: SessionId,
    /// The party that the trigger names.
    pub from_agent: String,
    /// The recipient.
    pub to_agent: String,
    /// The wire name of the reason.
    pub reason: String,
    /// The context id of the session.
    pub context_id: String,
}

/// `event` is due on the conversation's own session: only for an end at the
/// maximum depth, which nobody else announces there, and only when the
/// conversation is known.
pub open spec fn announces_end(
    event: Option<ConversationEndedEvent>,
    source: MessageSource,
    conversation: Option<EndedConversation>,
) -> bool {
    match (source, conversation) {
        (MessageSource::ConversationEnded { from_name, reason, .. }, Some(c)) => {
            if reason@ == EndReason::<Seq<char>>::DepthExceeded {
                event matches Some(e) && e.dm_session_id == c.dm_session_id && e.from_agent@
                    == from_name@ && e.to_agent@ == c.recipient@ && e.reason@
                    == "depth_exceeded"@ && e.context_id@ == c.dm_context_id@
            } else {
                event is None
            }
        },
        _ => event is None,
    }
}

/// The context id that a notice about the conversation names.
pub open spec fn known_context(conversation: Option<EndedConversation>) -> Seq<char> {
    match conversation {
        Some(c) => c.dm_context_id@,
        None => seq![],
    }
}

/// The sessions of planned runs.
pub open spec fn target_sessions(plan: Seq<TriggeredRunTarget>) -> Seq<SessionId> {
    Seq::new(plan.len(), |i: int| plan[i].session_id)
}

/// `notice` is due on the agent's user-facing session: for every end of a
/// conversation, with the marker left out only when one of the planned runs
/// appears on that session.
pub open spec fn notifies_webchat(
    notice: Option<WebchatNotice>,
    trigger: RunTrigger,
    conversation: Option<EndedConversation>,
    sessions: Seq<Session>,
    plan: Seq<TriggeredRunTarget>,
    at: i64,
) -> bool {
    match (trigger.source, user_facing(sessions, trigger.agent_id)) {
        (MessageSource::ConversationEnded { from_name, reason, .. }, Some(target)) => {
            notice matches Some(n) && announces(
                n,
                target,
                from_name@,
                reason_label(reason@),
                detail_of(reason@),
                known_context(conversation),
                target_sessions(plan),
                at,
            )
        },
        _ => notice is None,
    }
}

/// What a trigger leads to, in the order in which it is to be done.
#[derive(Debug)]
pub struct TriggerPlan {
    /// Publish this on the conversation's own session.
    pub conversation_ended: Option<ConversationEndedEvent>,
    /// Tell the agent's user-facing session this.
    pub notice: Option<WebchatNotice>,
    /// Start these runs.
    pub targets: Vec<TriggeredRunTarget>,
    /// The label of the runs.
    pub source_label: String,
    /// Their input is a peer's message, which is stored already.
    pub is_peer: bool,
    /// Their input.
    pub input: String,
    /// Show the user-facing session that the agent is talking to this peer.
    pub activity_with: Option<String>,
}

/// The routes of a trigger: the end of a known conversation is resolved
/// against the open episodes, every other trigger has none.
pub open spec fn trigger_routes(
    before: Episodes,
    after: Episodes,
    trigger: RunTrigger,
    conversation: Option<EndedConversation>,
    routes: Seq<ContinuationRoute>,
) -> bool {
    match (ended_with(trigger.source), conversation) {
        (Some(_), Some(c)) => after == dm_resolved(before, c.dm_session_id, trigger.agent_id)
            && dm_routes(before, c.dm_session_id, trigger.agent_id, routes),
        _ => after == before && routes.len() == 0,
    }
}

fn session_ids(plan: &Vec<TriggeredRunTarget>) -> (r: Vec<SessionId>)
    ensures
        r@ == target_sessions(plan@),
{
    let mut ids: Vec<SessionId> = Vec::new();
    let mut i: usize = 0;
    while i < plan.len()
        invariant
            i <= plan@.len(),
            ids@.len() == i,
            forall|k: int| 0 <= k < i ==> ids@[k] == plan@[k].session_id,
        decreases plan@.len() - i,
    {
        ids.push(plan[i].session_id);
        i = i + 1;
    }
    ids
}

fn history_text(conversation: &Option<EndedConversation>) -> (r: Option<String>)
    requires
        readable(*conversation),
    ensures
        text_of(r) == known_history(*conversation),
{
    match conversation {
        Some(c) => match &c.history {
            Some(messages) => {
                let text: String = format_dm_conversation_history(messages);
                if text.as_str().is_empty() {
                    None
                } else {
                    Some(text)
                }
            },
            None => None,
        },
        None => None,
    }
}

/// Decides what a trigger leads to. `conversation` is the conversation whose
/// end is announced, when the recipient's name could be looked up; `sessions`
/// are the sessions of the gateway, the most recent ones first.
pub fn plan_trigger(
    tracker: &mut JobEpisodeTracker,
    templates: &EndedTemplates,
    trigger: RunTrigger,
    conversation: Option<EndedConversation>,
    sessions: &Vec<Session>,
    at: i64,
) -> (r: TriggerPlan)
    requires
        well_formed(old(tracker)@),
        have_room(old(tracker)@, 1),
        readable(conversation),
    ensures
        well_formed(final(tracker)@),
        final(tracker).deadline == old(tracker).deadline,
        exists|routes: Seq<ContinuationRoute>|
            #![trigger trigger_routes(old(tracker)@, final(tracker)@, trigger, conversation, routes)]
            trigger_routes(old(tracker)@, final(tracker)@, trigger, conversation, routes)
                && planned(
                r.targets@,
                trigger.source,
                trigger.session_id,
                trigger.context_id@,
                routes,
            ),
        announces_end(r.conversation_ended, trigger.source, conversation),
        notifies_webchat(r.notice, trigger, conversation, sessions@, r.targets@, at),
        r.source_label@ == source_label(trigger.source),
        r.is_peer == (trigger.source is Agent),
        r.input@ == run_input(*templates, trigger, conversation),
        text_of(r.activity_with) == match trigger.source {
            MessageSource::Agent { from_name, .. } => Some(from_name@),
            _ => None,
        },
{
    let ghost before = tracker@;
    match &trigger.source {
        MessageSource::Agent { from_agent: _, from_name } => {
            let targets: Vec<TriggeredRunTarget> = plan_triggered_runs(
                &trigger.source,
                trigger.session_id,
                trigger.context_id.as_str(),
                Vec::new(),
            );
            let label: String = concat("peer:", from_name.as_str());
            let peer: String = from_name.clone();
            assert(trigger_routes(before, tracker@, trigger, conversation, Seq::empty()));
            TriggerPlan {
                conversation_ended: None,
                notice: None,
                targets,
                source_label: label,
                is_peer: true,
                input: trigger.input.clone(),
                activity_with: Some(peer),
            }
        },
        MessageSource::SubagentCompletion => {
            let targets: Vec<TriggeredRunTarget> = plan_triggered_runs(
                &trigger.source,
                trigger.session_id,
                trigger.context_id.as_str(),
                Vec::new(),
            );
            assert(trigger_routes(before, tracker@, trigger, conversation, Seq::empty()));
            TriggerPlan {
                conversation_ended: None,
                notice: None,
                targets,
                source_label: "subagent".to_owned(),
                is_peer: false,
                input: trigger.input.clone(),
                activity_with: None,
            }
        },
        MessageSource::ConversationEnded {
            from_agent: _,
            from_name,
            reason,
            self_notification,
            source_session_id: _,
        } => {
            let at_depth: bool = match reason {
                EndReason::DepthExceeded => true,
                _ => false,
            };
            let conversation_ended: Option<ConversationEndedEvent> = match &conversation {
                Some(c) => if at_depth {
                    Some(
                        ConversationEndedEvent {
                            dm_session_id: c.dm_session_id,
                            from_agent: from_name.clone(),
                            to_agent: c.recipient.clone(),
                            reason: reason.label().to_owned(),
                            context_id: c.dm_context_id.clone(),
                        },
                    )
                } else {
                    None
                },
                None => None,
            };
            let history: Option<String> = history_text(&conversation);
            let routes: Vec<ContinuationRoute> = match &conversation {
                Some(c) => tracker.resolve_dm(c.dm_session_id, trigger.agent_id),
                None => Vec::new(),
            };
            let ghost resolved = routes@;
            assert(trigger_routes(before, tracker@, trigger, conversation, resolved));
            let targets: Vec<TriggeredRunTarget> = plan_triggered_runs(
                &trigger.source,
                trigger.session_id,
                trigger.context_id.as_str(),
                routes,
            );
            let input: String = format_dm_ended_notification(
                templates,
                from_name.as_str(),
                reason,
                match &history {
                    Some(h) => Some(h.as_str()),
                    None => None,
                },
                *self_notification,
            );
            let detail: Option<String> = reason.detail();
            let context: String = match &conversation {
                Some(c) => c.dm_context_id.clone(),
                None => String::new(),
            };
            let ids: Vec<SessionId> = session_ids(&targets);
            let notice: Option<WebchatNotice> = notify_dm_ended_to_webchat(
                sessions,
                trigger.agent_id,
                from_name.as_str(),
                reason.label(),
                match &detail {
                    Some(d) => Some(d.as_str()),
                    None => None,
                },
                context.as_str(),
                &ids,
                at,
            );
            let label: String = concat("notification:dm_ended:", from_name.as_str());
            TriggerPlan {
                conversation_ended,
                notice,
                targets,
                source_label: label,
                is_peer: false,
                input,
                activity_with: None,
            }
        },
    }
}

/// The run that a planned target asks for: the target says where it runs, for
/// which job, and whom it may not message; the plan says the rest.
pub open spec fn target_request(
    agent: AgentId,
    plan: TriggerPlan,
    target: TriggeredRunTarget,
) -> RunRequest<Seq<char>> {
    RunRequest {
        agent_id: agent,
        session_id: target.session_id,
        context_id: target.context_id@,
        input: plan.input@,
        source_label: plan.source_label@,
        is_peer_message: plan.is_peer,
        job_id: target.job_id,
        dm_ended_peer: text_of(target.dm_ended_peer),
    }
}

/// Writes out the runs that a plan asks for, one for each target, in order.
pub fn requested_runs(agent_id: AgentId, plan: &TriggerPlan) -> (r: Vec<RunRequest<String>>)
    ensures
        r@.len() == plan.targets@.len(),
        forall|i: int|
            0 <= i < r@.len() ==> (#[trigger] r@[i])@ == target_request(
                agent_id,
                *plan,
                plan.targets@[i],
            ),
{
    let mut requests: Vec<RunRequest<String>> = Vec::new();
    let mut i: usize = 0;
    while i < plan.targets.len()
        invariant
            i <= plan.targets@.len(),
            requests@.len() == i,
            forall|k: int|
                0 <= k < i ==> (#[trigger] requests@[k])@ == target_request(
                    agent_id,
                    *plan,
                    plan.targets@[k],
                ),
        decreases plan.targets@.len() - i,
    {
        let target: &TriggeredRunTarget = &plan.targets[i];
        requests.push(
            RunRequest {
                agent_id,
                session_id: target.session_id,
                context_id: target.context_id.clone(),
                input: plan.input.clone(),
                source_label: plan.source_label.clone(),
                is_peer_message: plan.is_peer,
                job_id: target.job_id,
                dm_ended_peer: match &target.dm_ended_peer {
                    Some(peer) => Some(peer.clone()),
                    None => None,
                },
            },
        );
        i = i + 1;
    }
    requests
}

/// Finds the session that is shown whom the agent is talking to.
pub fn notify_dm_started_to_webchat(sessions: &Vec<Session>, agent_id: AgentId) -> (r: Option<
    SessionId,
>)
    ensures
        r == user_facing(sessions@, agent_id),
{
    match find_user_facing_session(sessions, agent_id) {
        Some(session) => Some(session.id),
        None => None,
    }
}

/// The job that a context id addresses, when the operator cancelled it.
pub open spec fn cancelled_job(cancelled: Set<JobId>, context_id: Seq<char>) -> Option<JobId> {
    match job_of_context(context_id) {
        Some(job) => if cancelled.contains(job) {
            Some(job)
        } else {
            None
        },
        None => None,
    }
}

/// Finds the job that a context id addresses, when the operator cancelled it.
/// Jobs that ended in any other way are not in `cancelled`: late results of
/// theirs are still delivered.
pub fn operator_cancelled_job_for_context(cancelled: &HashSet<JobId>, context_id: &str) -> (r:
    Option<JobId>)
    ensures
        r == cancelled_job(cancelled@, context_id@),
{
    match job_for_context(context_id) {
        Some(job) => if cancelled.contains(&job) {
            Some(job)
        } else {
            None
        },
        None => None,
    }
}

/// Every run that follows the end of a conversation is barred from messaging
/// the other party, on whatever session it runs.
pub proof fn law_every_run_of_an_ended_conversation_is_barred(
    plan: Seq<TriggeredRunTarget>,
    source: MessageSource,
    session: SessionId,
    context: Seq<char>,
    routes: Seq<ContinuationRoute>,
    i: int,
)
    requires
        planned(plan, source, session, context, routes),
        0 <= i < plan.len(),
    ensures
        text_of(plan[i].dm_ended_peer) == ended_with(source),
{
}

/// The bar travels with the run: what a run that follows the end of a
/// conversation executes with names the other party, and the runtime that is
/// planned from it may not message that party, whatever the agent is called
/// and wherever the run executes.
pub proof fn law_ended_peer_reaches_the_runtime(
    agent: AgentId,
    plan: TriggerPlan,
    trigger: RunTrigger,
    routes: Seq<ContinuationRoute>,
    i: int,
    run: RunId,
    setup: AgentSetup,
    runtime: RuntimePlan,
)
    requires
        ended_with(trigger.source) is Some,
        planned(
            plan.targets@,
            trigger.source,
            trigger.session_id,
            trigger.context_id@,
            routes,
        ),
        plan.is_peer == (trigger.source is Agent),
        0 <= i < plan.targets@.len(),
        plans_runtime(
            triggered_launch(run, target_request(agent, plan, plan.targets@[i])).params,
            setup,
            runtime,
        ),
    ensures
        setup.agent_name is Some ==> runtime.send_fold is Some && runtime.send_fold->0@
            == SendFold::EndedPeer(ended_with(trigger.source)),
        setup.agent_name is None ==> runtime.send_fold is None,
{
}

/// An interrupted end starts no run of its own: every run that follows it
/// continues the episode of a job.
pub proof fn law_interrupted_end_only_continues_jobs(
    plan: Seq<TriggeredRunTarget>,
    source: MessageSource,
    session: SessionId,
    context: Seq<char>,
    routes: Seq<ContinuationRoute>,
)
    requires
        planned(plan, source, session, context, routes),
        interrupted_end(source),
    ensures
        plan.len() == routes.len(),
        forall|i: int|
            0 <= i < plan.len() ==> (#[trigger] plan[i]).job_id == Some(routes[i].job_id),
{
}

/// The sessions that planned runs execute on are listed, if at all, under the
/// context ids of those runs: a session has one context id.
pub open spec fn contexts_agree(sessions: Seq<Session>, plan: Seq<TriggeredRunTarget>) -> bool {
    forall|i: int, k: int|
        0 <= i < sessions.len() && 0 <= k < plan.len() && (#[trigger] sessions[i]).id == (
        #[trigger] plan[k]).session_id ==> sessions[i].context_id@ == plan[k].context_id@
}

/// An interrupted end always leaves a marker on the agent's user-facing
/// session. The runs that may follow it continue jobs, and a job's session is
/// an internal one, so none of them appears there in the marker's place.
pub proof fn law_interrupted_end_leaves_a_marker(
    before: Episodes,
    after: Episodes,
    notice: Option<WebchatNotice>,
    trigger: RunTrigger,
    conversation: Option<EndedConversation>,
    sessions: Seq<Session>,
    plan: Seq<TriggeredRunTarget>,
    routes: Seq<ContinuationRoute>,
    at: i64,
)
    requires
        interrupted_end(trigger.source),
        user_facing(sessions, trigger.agent_id) is Some,
        trigger_routes(before, after, trigger, conversation, routes),
        planned(plan, trigger.source, trigger.session_id, trigger.context_id@, routes),
        notifies_webchat(notice, trigger, conversation, sessions, plan, at),
        contexts_agree(sessions, plan),
    ensures
        notice is Some,
        notice->0.marker is Some,
        !notice->0.suppress_banner,
{
    let target = user_facing(sessions, trigger.agent_id)->0;
    law_user_facing_is_never_internal(sessions, trigger.agent_id);
    if target_sessions(plan).contains(target) {
        let k = choose|k: int| 0 <= k < plan.len() && target_sessions(plan)[k] == target;
        let i = choose|i: int|
            0 <= i < sessions.len() && (#[trigger] sessions[i]).id == target
                && !internal_context(sessions[i].context_id@);
        let route = routes[k];
        assert(plan[k].context_id@ == job_context(route.job_id));
        assert(sessions[i].context_id@ == plan[k].context_id@);
        assert(job_context(route.job_id).subrange(0, "job_"@.len() as int) =~= "job_"@);
    }
}

} // verus!
