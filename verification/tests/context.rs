use alms_runs::context::{
    classify_session_type, extract_peer_from_dm_context, find_user_facing_session,
    is_internal_context_id, Session,
};

#[test]
fn test_internal_prefixes_detected() {
    for prefix in &["job_", "subagent_", "dm:", "notifications:", "episodic:"] {
        let context_id = format!("{prefix}something");
        assert!(
            is_internal_context_id(&context_id),
            "context_id '{context_id}' should be classified as internal"
        );
    }
}

#[test]
fn test_user_facing_context_ids() {
    for ctx in &["web", "default", "telegram_123", "my-custom-context"] {
        assert!(
            !is_internal_context_id(ctx),
            "context_id '{ctx}' should NOT be classified as internal"
        );
    }
}

#[test]
fn test_extract_peer_agent_name_is_first() {
    let peer = extract_peer_from_dm_context("dm:alice:bob", "alice");
    assert_eq!(peer.as_deref(), Some("bob"));
}

#[test]
fn test_extract_peer_agent_name_is_second() {
    let peer = extract_peer_from_dm_context("dm:alice:bob", "bob");
    assert_eq!(peer.as_deref(), Some("alice"));
}

#[test]
fn test_extract_peer_agent_name_not_found() {
    let peer = extract_peer_from_dm_context("dm:alice:bob", "charlie");
    assert!(peer.is_none());
}

#[test]
fn test_extract_peer_non_dm_context() {
    let peer = extract_peer_from_dm_context("notifications:alice", "alice");
    assert!(peer.is_none());
}

#[test]
fn test_extract_peer_malformed_context() {
    let peer = extract_peer_from_dm_context("dm:alice", "alice");
    assert!(peer.is_none());
}

#[test]
fn test_extract_peer_empty_context() {
    let peer = extract_peer_from_dm_context("", "alice");
    assert!(peer.is_none());
}

fn session(id: u128, agent_id: u128, context_id: &str) -> Session {
    Session { id, agent_id, context_id: context_id.to_string() }
}

#[test]
fn test_find_user_facing_session_excludes_internal() {
    let agent_id = 7;
    let mut sessions = vec![
        session(1, agent_id, "dm:alice:bob"),
        session(2, agent_id, "subagent_task_1"),
        session(3, agent_id, "job_abc"),
        session(4, agent_id, "notifications:alice"),
        session(5, agent_id, "episodic:main"),
    ];
    assert!(
        find_user_facing_session(&sessions, agent_id).is_none(),
        "should return None when only internal sessions exist"
    );

    sessions.push(session(6, agent_id, "web"));
    let found = find_user_facing_session(&sessions, agent_id);
    assert!(found.is_some(), "should find the user-facing session");
    assert_eq!(found.unwrap().id, 6);
}

#[test]
fn test_find_user_facing_session_ignores_other_agents() {
    let sessions = vec![session(1, 2, "web")];
    assert!(
        find_user_facing_session(&sessions, 1).is_none(),
        "should not return sessions belonging to a different agent"
    );
}

#[test]
fn test_find_user_facing_session_no_sessions() {
    assert!(
        find_user_facing_session(&vec![], 1).is_none(),
        "should return None when no sessions exist at all"
    );
}

#[test]
fn the_most_recent_user_facing_session_wins() {
    let sessions = vec![session(1, 9, "job_x"), session(2, 9, "web"), session(3, 9, "default")];
    assert_eq!(find_user_facing_session(&sessions, 9).map(|s| s.id), Some(2));
}

#[test]
fn session_types_follow_the_prefix() {
    assert_eq!(classify_session_type("web"), "chat");
    assert_eq!(classify_session_type("dm:a:b"), "dm");
    assert_eq!(classify_session_type("notifications:a"), "notification");
    assert_eq!(classify_session_type("job_1"), "job");
    assert_eq!(classify_session_type("subagent_1"), "subagent");
    assert_eq!(classify_session_type("telegram_1"), "telegram");
    assert_eq!(classify_session_type("episodic:main"), "episodic");
    for ctx in ["web", "telegram_5", "dm:a:b", "notifications:x", "job_1", "subagent_1"] {
        let kind = classify_session_type(ctx);
        assert_eq!(is_internal_context_id(ctx), kind != "chat" && kind != "telegram");
    }
}
