use alms_runs::context::Session;
use alms_runs::dm_notice::EndedTemplates;
use alms_runs::ids::{job_context_id, JobId};
use alms_runs::job_episode::{ContinuationRoute, JobEpisodeTracker, RunCompletion};
use alms_runs::messages::{Content, Message, Role};
use alms_runs::metadata::Metadata;
use alms_runs::peer::ConversationEndReason;
use alms_runs::triggers::{
    dm_ended_peer_for_source, notify_dm_started_to_webchat, operator_cancelled_job_for_context,
    plan_trigger, plan_triggered_runs, requested_runs, EndedConversation, MessageSource,
    RunTrigger,
};
use std::collections::HashSet;
use uuid::Uuid;

fn fresh() -> u128 {
    Uuid::new_v4().as_u128()
}

fn ended(from_name: &str, interrupted: bool) -> MessageSource {
    MessageSource::ConversationEnded {
        from_agent: fresh(),
        from_name: from_name.to_string(),
        reason: if interrupted {
            ConversationEndReason::UserCancelled
        } else {
            ConversationEndReason::Ignored
        },
        self_notification: false,
        source_session_id: None,
    }
}

fn job_route(job_id: JobId) -> ContinuationRoute {
    ContinuationRoute {
        job_id,
        job_session_id: fresh(),
        context_id: format!("job_{}", Uuid::from_u128(job_id)),
    }
}

fn templates() -> EndedTemplates {
    EndedTemplates {
        with_history: "{reason}|{history}".to_string(),
        no_history: "{reason}|{from}".to_string(),
    }
}

#[test]
fn dm_ended_peer_is_the_ender_on_the_peer_notification() {
    let peer_notification = MessageSource::ConversationEnded {
        from_agent: fresh(),
        from_name: "alice".to_string(),
        reason: ConversationEndReason::Ignored,
        self_notification: false,
        source_session_id: None,
    };
    assert_eq!(
        dm_ended_peer_for_source(&peer_notification).as_deref(),
        Some("alice"),
        "bob's post-end turn must not be able to message alice back"
    );
}

#[test]
fn dm_ended_peer_is_the_peer_on_the_ender_self_notification() {
    let self_notification = MessageSource::ConversationEnded {
        from_agent: fresh(),
        from_name: "bob".to_string(),
        self_notification: true,
        reason: ConversationEndReason::Ignored,
        source_session_id: None,
    };
    assert_eq!(
        dm_ended_peer_for_source(&self_notification).as_deref(),
        Some("bob"),
        "the ender's own turn must not be able to re-open with the peer it just stopped talking to"
    );
}

#[test]
fn non_dm_end_triggers_fold_nothing() {
    assert_eq!(
        dm_ended_peer_for_source(&MessageSource::Agent {
            from_agent: fresh(),
            from_name: "alice".to_string(),
        }),
        None,
        "a live DM turn folds on its own `is_peer_message` arm"
    );
    assert_eq!(
        dm_ended_peer_for_source(&MessageSource::SubagentCompletion),
        None
    );
}

#[test]
fn plan_stamps_the_ended_peer_on_the_triggers_own_target() {
    let session_id = fresh();
    let plan = plan_triggered_runs(
        &ended("alice", false),
        session_id,
        "notifications:bob",
        Vec::new(),
    );
    assert_eq!(plan.len(), 1);
    assert_eq!(plan[0].session_id, session_id);
    assert_eq!(plan[0].context_id, "notifications:bob");
    assert_eq!(plan[0].job_id, None);
    assert_eq!(
        plan[0].dm_ended_peer.as_deref(),
        Some("alice"),
        "the post-end turn must be handed the peer it may not message"
    );
}

#[test]
fn plan_carries_the_ended_peer_onto_every_job_episode_continuation() {
    let routes = vec![job_route(fresh()), job_route(fresh())];
    let job_sessions: Vec<u128> = routes.iter().map(|r| r.job_session_id).collect();
    let plan = plan_triggered_runs(
        &ended("alice", false),
        fresh(),
        "notifications:bob",
        routes,
    );
    assert_eq!(plan.len(), 2, "one continuation per resolved episode");
    for (target, job_session) in plan.iter().zip(job_sessions) {
        assert_eq!(
            target.session_id, job_session,
            "the continuation is pinned to its own job session"
        );
        assert!(target.job_id.is_some());
        assert_eq!(
            target.dm_ended_peer.as_deref(),
            Some("alice"),
            "a job continuation of an ended DM must be folded like any other post-end turn"
        );
    }
}

#[test]
fn plan_suppresses_only_the_triggers_own_target_when_the_end_was_interrupted() {
    let interrupted = ended("alice", true);
    assert!(
        plan_triggered_runs(&interrupted, fresh(), "web-chat-bob", Vec::new()).is_empty(),
        "an interrupted end puts no unrequested run on the operator's session"
    );
    let surviving = plan_triggered_runs(
        &interrupted,
        fresh(),
        "web-chat-bob",
        vec![job_route(fresh())],
    );
    assert_eq!(
        surviving.len(),
        1,
        "the episode override still wins — dropping it would stall the job until its deadline"
    );
    assert_eq!(
        surviving[0].dm_ended_peer.as_deref(),
        Some("alice"),
        "the one run an interrupted end still produces must be folded"
    );
}

#[test]
fn plan_folds_nothing_for_non_dm_end_sources() {
    let peer_dm = plan_triggered_runs(
        &MessageSource::Agent {
            from_agent: fresh(),
            from_name: "alice".to_string(),
        },
        fresh(),
        "dm:alice:bob",
        Vec::new(),
    );
    assert_eq!(peer_dm.len(), 1);
    assert_eq!(
        peer_dm[0].dm_ended_peer, None,
        "a live DM turn folds on its own `is_peer_message` arm"
    );
    let subagent = plan_triggered_runs(
        &MessageSource::SubagentCompletion,
        fresh(),
        "web-chat-bob",
        Vec::new(),
    );
    assert_eq!(subagent.len(), 1);
    assert_eq!(subagent[0].dm_ended_peer, None);
}

fn session(id: u128, agent_id: u128, context_id: &str) -> Session {
    Session {
        id,
        agent_id,
        context_id: context_id.to_string(),
    }
}

fn trigger(agent_id: u128, session_id: u128, context_id: &str, source: MessageSource) -> RunTrigger {
    RunTrigger {
        session_id,
        agent_id,
        context_id: context_id.to_string(),
        input: "as it came".to_string(),
        source,
    }
}

fn conversation(dm_session_id: u128) -> EndedConversation {
    let mut metadata = Metadata::new();
    metadata.set_text("from_agent", "alice");
    EndedConversation {
        recipient: "bob".to_string(),
        dm_session_id,
        dm_context_id: "dm:alice:bob".to_string(),
        history: Some(vec![Message {
            role: Role::User,
            content: Content::Text("hi".to_string()),
            timestamp: 0,
            metadata: Some(metadata),
        }]),
    }
}

#[test]
fn test_conversation_ended_no_reroute_when_source_session_none() {
    let agent = fresh();
    let notifications = fresh();
    let sessions = vec![session(1, agent, "web")];
    let mut t = JobEpisodeTracker::new(1_000);
    let plan = plan_trigger(
        &mut t,
        &templates(),
        trigger(
            agent,
            notifications,
            "notifications:bob",
            ended("alice", false),
        ),
        None,
        &sessions,
        0,
    );
    assert_eq!(plan.targets.len(), 1);
    assert_eq!(plan.targets[0].session_id, notifications);
    assert_eq!(plan.targets[0].context_id, "notifications:bob");
    let notice = plan.notice.expect("the web chat is told");
    assert_eq!(notice.target, 1);
    assert!(notice.marker.is_some());
}

#[test]
fn a_peer_message_passes_through() {
    let mut t = JobEpisodeTracker::new(1_000);
    let plan = plan_trigger(
        &mut t,
        &templates(),
        trigger(
            7,
            8,
            "dm:alice:bob",
            MessageSource::Agent {
                from_agent: 9,
                from_name: "alice".to_string(),
            },
        ),
        None,
        &vec![session(1, 7, "web")],
        0,
    );
    assert_eq!(plan.source_label, "peer:alice");
    assert!(plan.is_peer);
    assert_eq!(plan.input, "as it came");
    assert_eq!(plan.activity_with.as_deref(), Some("alice"));
    assert!(plan.notice.is_none());
    assert!(plan.conversation_ended.is_none());
}

#[test]
fn a_subagent_trigger_passes_through() {
    let mut t = JobEpisodeTracker::new(1_000);
    let plan = plan_trigger(
        &mut t,
        &templates(),
        trigger(7, 8, "web", MessageSource::SubagentCompletion),
        None,
        &vec![],
        0,
    );
    assert_eq!(plan.source_label, "subagent");
    assert!(!plan.is_peer);
    assert_eq!(plan.input, "as it came");
    assert_eq!(plan.activity_with, None);
}

#[test]
fn an_end_carries_the_transcript() {
    let mut t = JobEpisodeTracker::new(1_000);
    let plan = plan_trigger(
        &mut t,
        &templates(),
        trigger(7, 8, "web", ended("alice", false)),
        Some(conversation(5)),
        &vec![session(8, 7, "web")],
        0,
    );
    assert_eq!(plan.source_label, "notification:dm_ended:alice");
    assert!(!plan.is_peer);
    assert_eq!(
        plan.input,
        "Agent \"alice\" ended the conversation (chose not to reply).|[00:00] alice: hi"
    );
    assert!(plan.conversation_ended.is_none());
    let notice = plan.notice.expect("a notice");
    assert!(notice.marker.is_none(), "the run itself shows on that session");
}

#[test]
fn an_end_without_a_known_conversation_names_the_peer() {
    let mut t = JobEpisodeTracker::new(1_000);
    let plan = plan_trigger(
        &mut t,
        &templates(),
        trigger(7, 8, "web", ended("alice", false)),
        None,
        &vec![],
        0,
    );
    assert_eq!(
        plan.input,
        "Agent \"alice\" ended the conversation (chose not to reply).|alice"
    );
}

#[test]
fn an_end_at_the_maximum_depth_is_announced_on_the_conversation() {
    let source = || MessageSource::ConversationEnded {
        from_agent: 9,
        from_name: "alice".to_string(),
        reason: ConversationEndReason::DepthExceeded,
        self_notification: false,
        source_session_id: None,
    };
    let mut t = JobEpisodeTracker::new(1_000);
    let plan = plan_trigger(
        &mut t,
        &templates(),
        trigger(7, 8, "web", source()),
        Some(conversation(5)),
        &vec![],
        0,
    );
    let event = plan.conversation_ended.expect("an event");
    assert_eq!(event.dm_session_id, 5);
    assert_eq!(event.from_agent, "alice");
    assert_eq!(event.to_agent, "bob");
    assert_eq!(event.reason, "depth_exceeded");
    assert_eq!(event.context_id, "dm:alice:bob");
    let unknown = plan_trigger(
        &mut t,
        &templates(),
        trigger(7, 8, "web", source()),
        None,
        &vec![],
        0,
    );
    assert!(unknown.conversation_ended.is_none());
}

#[test]
fn an_end_that_an_episode_waited_for_runs_on_the_job_session() {
    let (job, job_session, agent, run, dm) = (fresh(), fresh(), fresh(), fresh(), fresh());
    let mut t = JobEpisodeTracker::new(1_000);
    t.open(job, job_session, agent, run, 0, 0);
    assert!(matches!(
        t.on_run_complete(job, run, vec![dm], vec![]),
        RunCompletion::Open
    ));
    let plan = plan_trigger(
        &mut t,
        &templates(),
        trigger(agent, 8, "web", ended("alice", true)),
        Some(conversation(dm)),
        &vec![session(8, agent, "web")],
        0,
    );
    assert_eq!(plan.targets.len(), 1);
    assert_eq!(plan.targets[0].session_id, job_session);
    assert_eq!(plan.targets[0].context_id, job_context_id(job));
    assert_eq!(plan.targets[0].job_id, Some(job));
    assert!(
        plan.notice.expect("a notice").marker.is_some(),
        "the web chat sees no run, so it gets the marker"
    );
}

#[test]
fn only_the_operators_cancellations_suppress_a_job() {
    let job = fresh();
    let context = job_context_id(job);
    let mut cancelled = HashSet::new();
    assert_eq!(
        operator_cancelled_job_for_context(&cancelled, &context),
        None
    );
    cancelled.insert(job);
    assert_eq!(
        operator_cancelled_job_for_context(&cancelled, &context),
        Some(job)
    );
    assert_eq!(operator_cancelled_job_for_context(&cancelled, "web"), None);
}

#[test]
fn activity_shows_on_the_user_facing_session() {
    let sessions = vec![session(1, 7, "dm:alice:bob"), session(2, 7, "web")];
    assert_eq!(notify_dm_started_to_webchat(&sessions, 7), Some(2));
    assert_eq!(notify_dm_started_to_webchat(&sessions, 8), None);
}

#[test]
fn every_target_of_a_plan_becomes_a_run() {
    let (job, job_session, agent, run, dm) = (fresh(), fresh(), fresh(), fresh(), fresh());
    let mut t = JobEpisodeTracker::new(1_000);
    t.open(job, job_session, agent, run, 0, 0);
    assert!(matches!(
        t.on_run_complete(job, run, vec![dm], vec![]),
        RunCompletion::Open
    ));
    let plan = plan_trigger(
        &mut t,
        &templates(),
        trigger(agent, 8, "web", ended("alice", false)),
        Some(conversation(dm)),
        &vec![session(8, agent, "web")],
        0,
    );
    let requests = requested_runs(agent, &plan);
    assert_eq!(requests.len(), plan.targets.len());
    assert!(!requests.is_empty());
    for (request, target) in requests.iter().zip(&plan.targets) {
        assert_eq!(request.agent_id, agent);
        assert_eq!(request.session_id, target.session_id);
        assert_eq!(request.context_id, target.context_id);
        assert_eq!(request.input, plan.input);
        assert_eq!(request.source_label, "notification:dm_ended:alice");
        assert!(!request.is_peer_message);
        assert_eq!(request.job_id, target.job_id);
        assert_eq!(request.dm_ended_peer.as_deref(), Some("alice"));
    }
    assert!(requests.iter().any(|request| request.job_id == Some(job)));
}

#[test]
fn an_unread_history_is_no_transcript() {
    let mut t = JobEpisodeTracker::new(1_000);
    let mut unread = conversation(5);
    unread.history = None;
    let plan = plan_trigger(
        &mut t,
        &templates(),
        trigger(7, 8, "web", ended("alice", false)),
        Some(unread),
        &vec![],
        0,
    );
    assert_eq!(
        plan.input,
        "Agent \"alice\" ended the conversation (chose not to reply).|alice"
    );
}
