use alms_runs::ids::job_context_id;
use alms_runs::job_card::RunStatus;
use alms_runs::launch::{launch_job, launch_requested, launch_triggered, run_setting, RunRequest};

fn request() -> RunRequest<String> {
    RunRequest {
        agent_id: 3,
        session_id: 2,
        context_id: "dm:alice:bob".to_string(),
        input: "hello".to_string(),
        source_label: "peer:alice".to_string(),
        is_peer_message: true,
        job_id: Some(9),
        dm_ended_peer: Some("carol".to_string()),
    }
}

#[test]
fn a_requested_run_belongs_to_the_user() {
    let launch = launch_requested(1, 2, 3, "web".to_string(), "hello".to_string());
    assert_eq!(launch.record.run_id, 1);
    assert_eq!(launch.record.session_id, 2);
    assert_eq!(launch.record.agent_id, 3);
    assert_eq!(launch.record.input, "hello");
    assert_eq!(launch.record.job_id, None);
    assert_eq!(launch.record.status, RunStatus::Queued);
    assert_eq!(launch.params.context_id, "web");
    assert_eq!(launch.params.input, "hello");
    assert!(!launch.params.is_peer_message);
    assert!(!launch.params.is_system_triggered);
    assert!(launch.params.input_pre_persisted);
    assert_eq!(launch.params.dm_ended_peer, None);
    assert_eq!(launch.created.run_id, 1);
    assert_eq!(launch.created.session_id, 2);
    assert!(!launch.created.system);
    assert_eq!(launch.created.source, "user");
}

#[test]
fn a_triggered_run_keeps_what_was_asked_for() {
    let launch = launch_triggered(1, request());
    assert_eq!(launch.record.run_id, 1);
    assert_eq!(launch.record.job_id, Some(9));
    assert_eq!(launch.record.status, RunStatus::Queued);
    assert_eq!(launch.params.run_id, 1);
    assert_eq!(launch.params.session_id, 2);
    assert_eq!(launch.params.agent_id, 3);
    assert_eq!(launch.params.input, "hello");
    assert_eq!(launch.params.context_id, "dm:alice:bob");
    assert!(launch.params.is_peer_message);
    assert!(launch.params.is_system_triggered);
    assert!(!launch.params.input_pre_persisted);
    assert_eq!(launch.params.dm_ended_peer.as_deref(), Some("carol"));
    assert!(launch.created.system);
    assert_eq!(launch.created.source, "peer:alice");
}

#[test]
fn a_job_fires_in_its_own_context() {
    let launch = launch_job(1, 2, 3, 4, "tick".to_string());
    assert_eq!(launch.record.job_id, Some(4));
    assert_eq!(launch.record.input, "tick");
    assert_eq!(launch.params.context_id, job_context_id(4));
    assert!(launch.params.is_system_triggered);
    assert!(!launch.params.is_peer_message);
    assert!(!launch.params.input_pre_persisted);
    assert_eq!(launch.params.dm_ended_peer, None);
    assert!(launch.created.system);
    assert_eq!(launch.created.source, "job");
}

#[test]
fn the_setting_of_a_run_follows_its_parameters() {
    let requested = launch_requested(1, 2, 3, "web".to_string(), "hello".to_string());
    let setting = run_setting(&requested.params);
    assert!(setting.input_pre_persisted);
    assert!(!setting.internal);
    assert!(!setting.is_system_triggered);
    let setting = run_setting(&launch_triggered(1, request()).params);
    assert!(!setting.input_pre_persisted);
    assert!(setting.internal);
    assert!(setting.is_system_triggered);
}
