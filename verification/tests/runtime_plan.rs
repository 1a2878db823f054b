use alms_runs::launch::RunParams;
use alms_runs::messages::{Content, Role};
use alms_runs::metadata::{MetaValue, Scalar};
use alms_runs::runtime_plan::{
    apply_send_message_fold, begin_notification_input, choose_input_mode, init_failure_marker,
    notification_message, persist_notification_input, plan_runtime, resolve_posture_for_run,
    run_boundary_marker, run_facts, AgentSetup, InputMode, InputStore, Posture, Sandbox, SendFold,
};

#[test]
fn test_system_triggered_overrides_guarded_to_autonomous() {
    let result = resolve_posture_for_run(Posture::Guarded, true);
    assert_eq!(
        result,
        Posture::Autonomous,
        "Guarded posture should be overridden to Autonomous for system-triggered runs"
    );
}

#[test]
fn test_system_triggered_does_not_override_full_control() {
    let result = resolve_posture_for_run(Posture::FullControl, true);
    assert_eq!(
        result,
        Posture::FullControl,
        "FullControl posture should NOT be overridden for system-triggered runs"
    );
}

#[test]
fn test_system_triggered_does_not_override_autonomous() {
    let result = resolve_posture_for_run(Posture::Autonomous, true);
    assert_eq!(
        result,
        Posture::Autonomous,
        "Autonomous posture should remain unchanged for system-triggered runs"
    );
}

#[test]
fn test_user_initiated_keeps_guarded() {
    let result = resolve_posture_for_run(Posture::Guarded, false);
    assert_eq!(
        result,
        Posture::Guarded,
        "Guarded posture should be preserved for user-initiated runs"
    );
}

fn params(context_id: &str) -> RunParams<String> {
    RunParams {
        run_id: 1,
        session_id: 2,
        agent_id: 3,
        input: "hello".to_string(),
        context_id: context_id.to_string(),
        is_peer_message: false,
        is_system_triggered: false,
        input_pre_persisted: false,
        dm_ended_peer: None,
    }
}

fn setup() -> AgentSetup {
    AgentSetup {
        agent_name: Some("alice".to_string()),
        posture: Posture::Guarded,
        workspace_configured: true,
        needs_bootstrap: false,
        full_os_access: false,
        git_worktree: false,
        summary_provider: None,
        summary_model: None,
        agent_model: "agent-model".to_string(),
        summaries_on: true,
        has_source_label: true,
    }
}

#[test]
fn a_peer_message_folds_the_peer_named_by_the_context() {
    assert_eq!(
        apply_send_message_fold(true, "dm:alice:bob", "alice", Some("carol".to_string())),
        SendFold::CurrentPeer(Some("bob".to_string()))
    );
    assert_eq!(
        apply_send_message_fold(false, "job_1", "alice", Some("bob".to_string())),
        SendFold::EndedPeer(Some("bob".to_string()))
    );
    assert_eq!(
        apply_send_message_fold(false, "web", "alice", None),
        SendFold::EndedPeer(None)
    );
}

#[test]
fn input_modes_follow_the_trigger() {
    assert_eq!(
        choose_input_mode(true, false, true, "dm:alice:bob"),
        InputMode::OnSession
    );
    assert_eq!(
        choose_input_mode(false, true, false, "web"),
        InputMode::OnSession
    );
    assert_eq!(
        choose_input_mode(false, false, true, "web"),
        InputMode::StoreThenOnSession
    );
    assert_eq!(
        choose_input_mode(false, false, true, "notifications:alice"),
        InputMode::EnsureSessionThenRun
    );
    assert_eq!(choose_input_mode(false, false, false, "web"), InputMode::Run);
}

#[test]
fn a_plain_run_is_confined_to_the_project() {
    let plan = plan_runtime(&params("web"), setup());
    assert_eq!(plan.posture, Posture::Guarded);
    assert_eq!(plan.sandbox, Sandbox::ProjectRoot);
    assert!(plan.attach_workspace);
    assert!(!plan.bootstrap_prompt);
    assert!(!plan.implicit_dm_reply);
    assert!(!plan.ignore_tool);
    assert!(plan.summarise);
    assert_eq!(plan.summary_model.as_deref(), Some("agent-model"));
    assert_eq!(plan.send_fold, Some(SendFold::EndedPeer(None)));
    assert_eq!(plan.webchat_peer, None);
    assert_eq!(plan.input_mode, InputMode::Run);
}

#[test]
fn full_access_goes_before_the_worktree() {
    let mut given = setup();
    given.git_worktree = true;
    assert_eq!(plan_runtime(&params("web"), given).sandbox, Sandbox::Worktree);
    let mut given = setup();
    given.git_worktree = true;
    given.full_os_access = true;
    assert_eq!(plan_runtime(&params("web"), given).sandbox, Sandbox::Unrestricted);
    let mut given = setup();
    given.full_os_access = true;
    given.agent_name = None;
    let plan = plan_runtime(&params("web"), given);
    assert_eq!(plan.sandbox, Sandbox::ProjectRoot);
    assert_eq!(plan.send_fold, None);
}

#[test]
fn a_dedicated_summary_provider_never_gets_the_agents_model() {
    let mut given = setup();
    given.summary_provider = Some("other".to_string());
    let plan = plan_runtime(&params("web"), given);
    assert!(plan.dedicated_summary_client);
    assert_eq!(plan.summary_model, None);
    let mut given = setup();
    given.summary_provider = Some("other".to_string());
    given.summary_model = Some("small".to_string());
    assert_eq!(plan_runtime(&params("web"), given).summary_model.as_deref(), Some("small"));
}

#[test]
fn a_peer_run_answers_with_its_final_text() {
    let mut run = params("dm:alice:bob");
    run.is_peer_message = true;
    run.is_system_triggered = true;
    let plan = plan_runtime(&run, setup());
    assert_eq!(plan.posture, Posture::Autonomous);
    assert!(plan.implicit_dm_reply);
    assert!(plan.ignore_tool);
    assert_eq!(
        plan.send_fold,
        Some(SendFold::CurrentPeer(Some("bob".to_string())))
    );
    assert_eq!(plan.webchat_peer.as_deref(), Some("bob"));
    assert_eq!(plan.input_mode, InputMode::OnSession);
}

#[test]
fn an_execution_knows_its_summary_and_its_peer() {
    let plain = run_facts(&plan_runtime(&params("web"), setup()));
    assert!(plain.summarise);
    assert!(!plain.dm_peer);
    let mut given = setup();
    given.summaries_on = false;
    let in_dm = run_facts(&plan_runtime(&params("dm:alice:bob"), given));
    assert!(!in_dm.summarise);
    assert!(in_dm.dm_peer);
}

#[test]
fn the_ended_peer_is_folded_wherever_the_run_executes() {
    let mut run = params("job_1");
    run.dm_ended_peer = Some("bob".to_string());
    assert_eq!(
        plan_runtime(&run, setup()).send_fold,
        Some(SendFold::EndedPeer(Some("bob".to_string())))
    );
    let mut unnamed = setup();
    unnamed.agent_name = None;
    assert_eq!(plan_runtime(&run, unnamed).send_fold, None);
}

#[test]
fn markers_of_a_run_name_it() {
    let done = run_boundary_marker(1, 5);
    assert_eq!(done.content, Content::Text("(run completed)".to_string()));
    assert_eq!(
        done.metadata.as_ref().unwrap().get("run_id"),
        Some(&MetaValue::Single(Scalar::Text(
            "00000000-0000-0000-0000-000000000001".to_string()
        )))
    );
    let failed = init_failure_marker(1, "bad config", 5);
    assert_eq!(
        failed.content,
        Content::Text("(runtime initialization failed) bad config".to_string())
    );
    assert_eq!(
        failed.metadata.as_ref().unwrap().get("error_kind"),
        Some(&MetaValue::Single(Scalar::Text("runtime_init".to_string())))
    );
}

#[test]
fn a_notification_is_flagged_as_such() {
    let message = notification_message("wake up".to_string(), 9);
    assert_eq!(message.role, Role::User);
    assert_eq!(message.content, Content::Text("wake up".to_string()));
    assert_eq!(
        message.metadata.as_ref().unwrap().get("notification_input"),
        Some(&MetaValue::Single(Scalar::Flag(true)))
    );
}

#[test]
fn a_notification_is_written_before_it_is_seen() {
    let step = begin_notification_input(true);
    assert_eq!(step, InputStore::SaveMessage);
    let step = persist_notification_input(step, Ok(()));
    assert_eq!(step, InputStore::AppendPersisted);
    let step = persist_notification_input(step, Ok(()));
    assert_eq!(step, InputStore::SaveSession);
    let step = persist_notification_input(step, Err("late".to_string()));
    assert_eq!(step, InputStore::Stored);
    assert_eq!(
        persist_notification_input(InputStore::SaveMessage, Err("disk".to_string())),
        InputStore::Failed("disk".to_string())
    );
    assert_eq!(
        persist_notification_input(begin_notification_input(false), Ok(())),
        InputStore::Stored
    );
}
