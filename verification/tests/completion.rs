use alms_runs::completion::{
    format_completion_notification, on_subagent_completion, CompletionAction, SubagentCompleted,
    SubagentCompletion, TaskStatus, TokenUsage,
};
use alms_runs::job_episode::{JobEpisodeTracker, RunCompletion};
use alms_runs::messages::{Content, Message};
use alms_runs::metadata::{MetaValue, Scalar};
use uuid::Uuid;

const TEMPLATE: &str = "[Subagent {status}] {label}: {summary}\n{follow_up}";

fn fresh() -> u128 {
    Uuid::new_v4().as_u128()
}

fn tracker() -> JobEpisodeTracker {
    JobEpisodeTracker::new(1_000)
}

fn completion(name: Option<&str>, status: TaskStatus) -> SubagentCompletion {
    SubagentCompletion {
        task_id: fresh(),
        subagent_name: name.map(str::to_string),
        status,
        summary: "All done.".to_string(),
        parent_session_id: fresh(),
        parent_agent_id: fresh(),
        subagent_session_id: fresh(),
        task_description: None,
        tool_count: None,
        duration_ms: None,
        token_usage: None,
        parent_tool_invocation_id: None,
    }
}

fn usage(prompt_tokens: u64, completion_tokens: u64, reasoning: Option<u64>) -> TokenUsage {
    TokenUsage {
        prompt_tokens,
        completion_tokens,
        reasoning_tokens: reasoning,
        cache_creation_input_tokens: None,
        cache_read_input_tokens: None,
    }
}

fn marker(action: &CompletionAction) -> &Message {
    match action {
        CompletionAction::PersistMarker(m) => m,
        other => panic!("expected the marker first, got {other:?}"),
    }
}

fn published(action: &CompletionAction) -> &SubagentCompleted<String> {
    match action {
        CompletionAction::PublishCompleted(event) => event,
        other => panic!("expected the event, got {other:?}"),
    }
}

fn entry(message: &Message, key: &str) -> Option<MetaValue> {
    message.metadata.as_ref().unwrap().get(key).cloned()
}

fn text(value: &str) -> Option<MetaValue> {
    Some(MetaValue::Single(Scalar::Text(value.to_string())))
}

fn count(value: u64) -> Option<MetaValue> {
    Some(MetaValue::Single(Scalar::Count(value)))
}

fn group(message: &Message, key: &str) -> Vec<(String, Scalar)> {
    match entry(message, key) {
        Some(MetaValue::Group(entries)) => entries,
        other => panic!("{key}: {other:?}"),
    }
}

fn field(entries: &[(String, Scalar)], key: &str) -> Option<Scalar> {
    entries
        .iter()
        .find(|(k, _)| k == key)
        .map(|(_, v)| v.clone())
}

#[test]
fn test_subagent_completion_marker_persisted_before_sse_event() {
    let parent_inv_id = Uuid::new_v4();
    let mut c = completion(Some("researcher"), TaskStatus::Completed);
    c.task_description = Some("investigate the thing".to_string());
    c.tool_count = Some(3);
    c.duration_ms = Some(1200);
    c.parent_tool_invocation_id = Some(parent_inv_id.as_u128());
    let mut t = tracker();
    let actions = on_subagent_completion(&mut t, TEMPLATE, &c, Some("web".to_string()), 4);
    let first = marker(&actions[0]);
    let event = published(&actions[1]);
    assert_eq!(event.status, "done");
    assert_eq!(event.tool_invocation_id, Some(parent_inv_id.as_u128()));
    assert_eq!(entry(first, "type"), text("subagent_completion"));
    assert_eq!(entry(first, "subagent_name"), text("researcher"));
    assert_eq!(entry(first, "status"), text("done"));
    assert_eq!(
        entry(first, "session_id"),
        text(&Uuid::from_u128(c.subagent_session_id).to_string())
    );
    assert_eq!(
        entry(first, "tool_invocation_id"),
        text(&parent_inv_id.to_string())
    );
}

#[test]
fn subagent_completion_propagates_session_id() {
    let mut c = completion(Some("researcher"), TaskStatus::Completed);
    c.summary = "Found 3 relevant papers on the topic.".to_string();
    c.task_description = Some("Research quantum computing advances".to_string());
    c.tool_count = Some(5);
    c.duration_ms = Some(12000);
    c.token_usage = Some(usage(3000, 800, None));
    let mut t = tracker();
    let actions = on_subagent_completion(&mut t, TEMPLATE, &c, Some("parent-chat".to_string()), 4);
    assert_eq!(actions.len(), 3);
    assert_eq!(
        entry(marker(&actions[0]), "session_id"),
        text(&Uuid::from_u128(c.subagent_session_id).to_string())
    );
    let event = published(&actions[1]);
    assert_eq!(event.session_id, c.parent_session_id);
    assert_eq!(event.subagent_session_id, c.subagent_session_id);
    assert_eq!(event.subagent_name.as_deref(), Some("researcher"));
    assert_eq!(event.status, "done");
    assert_eq!(event.summary, "Found 3 relevant papers on the topic.");
    match &actions[2] {
        CompletionAction::EnqueueRun(request) => {
            assert_eq!(request.agent_id, c.parent_agent_id);
            assert_eq!(request.session_id, c.parent_session_id);
            assert_eq!(request.context_id, "parent-chat");
            assert_eq!(request.source_label, "subagent");
            assert!(!request.is_peer_message);
            assert_eq!(request.job_id, None);
            assert_eq!(request.dm_ended_peer, None);
            assert_eq!(
                request.input,
                "[Subagent completed] \"researcher\": Found 3 relevant papers on the topic.\n\
                 Use read_subagent_session(\"researcher\") for the full conversation history."
            );
        }
        other => panic!("expected a run, got {other:?}"),
    }
}

#[test]
fn the_event_says_what_the_marker_says() {
    let mut c = completion(None, TaskStatus::Failed);
    c.summary = "Ran out of memory.".to_string();
    c.parent_tool_invocation_id = Some(77);
    let mut t = tracker();
    let actions = on_subagent_completion(&mut t, TEMPLATE, &c, Some("web".to_string()), 4);
    assert_eq!(
        published(&actions[1]),
        &SubagentCompleted {
            session_id: c.parent_session_id,
            tool_invocation_id: Some(77),
            subagent_name: None,
            status: "fail".to_string(),
            summary: "Ran out of memory.".to_string(),
            subagent_session_id: c.subagent_session_id,
        }
    );
    assert_eq!(entry(marker(&actions[0]), "status"), text("fail"));
}

#[test]
fn subagent_completion_with_missing_parent_session_is_skipped() {
    let mut t = tracker();
    let c = completion(Some("ghost"), TaskStatus::Completed);
    assert!(on_subagent_completion(&mut t, TEMPLATE, &c, None, 4).is_empty());
}

#[test]
fn subagent_completion_marker_includes_rich_metadata() {
    let mut c = completion(Some("analyzer"), TaskStatus::Failed);
    c.summary = "OOM after processing large dataset".to_string();
    c.task_description = Some("Analyze the 10GB dataset".to_string());
    c.tool_count = Some(42);
    c.duration_ms = Some(300_000);
    c.token_usage = Some(usage(50_000, 15_000, None));
    let mut t = tracker();
    let actions = on_subagent_completion(&mut t, TEMPLATE, &c, Some("web".to_string()), 4);
    let meta = marker(&actions[0]);
    assert_eq!(entry(meta, "status"), text("fail"));
    assert_eq!(
        entry(meta, "task_description"),
        text("Analyze the 10GB dataset")
    );
    assert_eq!(entry(meta, "tool_count"), count(42));
    assert_eq!(entry(meta, "duration_ms"), count(300_000));
    let used = group(meta, "token_usage");
    assert_eq!(field(&used, "prompt_tokens"), Some(Scalar::Count(50_000)));
    assert_eq!(
        field(&used, "completion_tokens"),
        Some(Scalar::Count(15_000))
    );
    assert!(
        field(&used, "reasoning_tokens").is_none(),
        "reasoning_tokens should be absent from token_usage when None"
    );
    assert_eq!(
        meta.content,
        Content::Text("Subagent 'analyzer' failed.".to_string())
    );
}

#[test]
fn subagent_completion_marker_includes_reasoning_tokens() {
    let mut c = completion(Some("reasoner"), TaskStatus::Completed);
    c.token_usage = Some(usage(1_200, 300, Some(2_048)));
    let mut t = tracker();
    let actions = on_subagent_completion(&mut t, TEMPLATE, &c, Some("web".to_string()), 4);
    let used = group(marker(&actions[0]), "token_usage");
    assert_eq!(field(&used, "prompt_tokens"), Some(Scalar::Count(1_200)));
    assert_eq!(field(&used, "completion_tokens"), Some(Scalar::Count(300)));
    assert_eq!(
        field(&used, "reasoning_tokens"),
        Some(Scalar::Count(2_048)),
        "reasoning_tokens must be propagated into the subagent completion marker"
    );
}

#[test]
fn a_completion_that_an_episode_waited_for_continues_its_job() {
    let mut t = tracker();
    let (job, session, agent, run) = (fresh(), fresh(), fresh(), fresh());
    let c = completion(None, TaskStatus::Cancelled);
    t.open(job, session, agent, run, 0, 0);
    assert!(matches!(
        t.on_run_complete(job, run, vec![], vec![(c.task_id, c.subagent_session_id)]),
        RunCompletion::Open
    ));
    let actions = on_subagent_completion(&mut t, TEMPLATE, &c, Some("job_x".to_string()), 4);
    assert!(matches!(
        &actions[2],
        CompletionAction::EnqueueRun(request) if request.job_id == Some(job)
    ));
    assert_eq!(t.snapshot(job, 0).unwrap().in_flight_runs, 1);
    let again = on_subagent_completion(&mut t, TEMPLATE, &c, Some("job_x".to_string()), 4);
    assert!(matches!(
        &again[2],
        CompletionAction::EnqueueRun(request) if request.job_id.is_none()
    ));
}

#[test]
fn an_unnamed_subagent_is_named_by_its_task() {
    let c = completion(None, TaskStatus::Other);
    let prompt = format_completion_notification(TEMPLATE, &c);
    assert_eq!(
        prompt,
        format!(
            "[Subagent finished] (task {}): All done.\nUse read_subagent_session(session_id=\"{}\") \
             for the full conversation history.",
            Uuid::from_u128(c.task_id),
            Uuid::from_u128(c.subagent_session_id)
        )
    );
    let mut t = tracker();
    let actions = on_subagent_completion(&mut t, TEMPLATE, &c, Some("web".to_string()), 4);
    assert_eq!(
        marker(&actions[0]).content,
        Content::Text("Subagent 'subagent' completed.".to_string())
    );
}
