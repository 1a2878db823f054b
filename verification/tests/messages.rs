use alms_runs::dm_notice::{
    format_dm_ended_notification, notify_dm_ended_to_webchat, EndedTemplates,
};
use alms_runs::context::Session;
use alms_runs::messages::{
    format_dm_conversation_history, Content, Message, Role, DM_HISTORY_MAX_CHARS,
};
use alms_runs::metadata::{MetaValue, Metadata, Scalar};
use alms_runs::peer::ConversationEndReason;

fn templates() -> EndedTemplates {
    EndedTemplates {
        with_history: "[DM conversation ended] {reason}\n\nThe full conversation history:\n\
                       {history}\n\nThis is the full conversation history."
            .to_string(),
        no_history: "[DM conversation ended] {reason}\n\nUse read_messages(\"{from}\") to see \
                     what was said."
            .to_string(),
    }
}

fn said(from: &str, text: &str, timestamp: i64) -> Message {
    let mut metadata = Metadata::new();
    metadata.set_text("from_agent", from);
    Message {
        role: Role::User,
        content: Content::Text(text.to_string()),
        timestamp,
        metadata: Some(metadata),
    }
}

#[test]
fn test_dm_ended_notification_ignored_no_history() {
    let msg = format_dm_ended_notification(
        &templates(),
        "alice",
        &ConversationEndReason::Ignored,
        None,
        false,
    );
    assert!(msg.starts_with("[DM conversation ended]"));
    assert!(msg.contains("alice"));
    assert!(msg.contains("chose not to reply"));
    assert!(msg.contains("read_messages"));
}

#[test]
fn the_pointer_at_the_tool_is_kept_whatever_ended_the_conversation() {
    let message = "a {from} {reason} {history}".to_string();
    let reason = ConversationEndReason::Errored {
        message,
        interrupted: true,
    };
    for own in [false, true] {
        let msg = format_dm_ended_notification(&templates(), "{reason}", &reason, None, own);
        assert!(msg.contains("read_messages"), "{msg}");
        assert!(msg.starts_with("[DM conversation ended]"), "{msg}");
    }
}

#[test]
fn test_dm_ended_notification_depth_exceeded_no_history() {
    let msg = format_dm_ended_notification(
        &templates(),
        "bob",
        &ConversationEndReason::DepthExceeded,
        None,
        false,
    );
    assert!(msg.starts_with("[DM conversation ended]"));
    assert!(msg.contains("bob"));
    assert!(msg.contains("maximum message depth"));
    assert!(msg.contains("read_messages"));
}

#[test]
fn test_dm_ended_notification_is_not_empty() {
    let msg = format_dm_ended_notification(
        &templates(),
        "x",
        &ConversationEndReason::Ignored,
        None,
        false,
    );
    assert!(
        msg.len() > 50,
        "notification should be a substantive message, not a stub"
    );
}

#[test]
fn test_dm_ended_notification_with_history() {
    let history = "[10:00] alice: Hello Bob\n[10:01] bob: Hi Alice, what's up?";
    let msg = format_dm_ended_notification(
        &templates(),
        "alice",
        &ConversationEndReason::Ignored,
        Some(history),
        false,
    );
    assert!(msg.starts_with("[DM conversation ended]"));
    assert!(msg.contains("Hello Bob"));
    assert!(msg.contains("Hi Alice"));
    assert!(msg.contains("full conversation history"));
    assert!(!msg.contains("read_messages"));
}

#[test]
fn test_dm_ended_notification_empty_history_falls_back() {
    let msg = format_dm_ended_notification(
        &templates(),
        "alice",
        &ConversationEndReason::Ignored,
        Some(""),
        false,
    );
    assert!(
        msg.contains("read_messages"),
        "empty history string should fall back to read_messages hint"
    );
}

#[test]
fn test_dm_ended_self_notification_ignored_does_not_blame_peer() {
    let msg = format_dm_ended_notification(
        &templates(),
        "alice",
        &ConversationEndReason::Ignored,
        None,
        true,
    );
    assert!(!msg.contains("Agent \"alice\" ended the conversation"));
    assert!(msg.contains("Your DM conversation with agent \"alice\""));
    assert!(msg.starts_with("[DM conversation ended]"));
}

#[test]
fn test_dm_ended_self_notification_depth_does_not_blame_peer() {
    let msg = format_dm_ended_notification(
        &templates(),
        "bob",
        &ConversationEndReason::DepthExceeded,
        None,
        true,
    );
    assert!(!msg.contains("Agent \"bob\" ended"));
    assert!(msg.contains("Your DM conversation with agent \"bob\""));
}

#[test]
fn test_dm_ended_peer_notification_still_names_ender() {
    let ignored = format_dm_ended_notification(
        &templates(),
        "alice",
        &ConversationEndReason::Ignored,
        None,
        false,
    );
    assert!(
        ignored.contains("Agent \"alice\" ended the conversation (chose not to reply)"),
        "peer notification must still say the ender (alice) ended it; got: {ignored}"
    );
}

#[test]
fn a_transcript_replaces_the_pointer_at_the_tool() {
    let history = "[10:00] alice: {reason} and {from}";
    let told = |history: Option<&str>| {
        format_dm_ended_notification(
            &templates(),
            "alice",
            &ConversationEndReason::Ignored,
            history,
            false,
        )
    };
    let with = told(Some(history));
    assert!(with.contains(history));
    assert!(!with.contains("read_messages"));
    assert_eq!(told(Some("")), told(None));
    assert!(told(None).contains("read_messages(\"alice\")"));
}

#[test]
fn a_failed_run_is_named_in_the_prompt() {
    let reason = ConversationEndReason::Errored {
        message: "rate limited".to_string(),
        interrupted: false,
    };
    let own = format_dm_ended_notification(&templates(), "bob", &reason, None, true);
    assert!(own.contains(
        "Your DM conversation with agent \"bob\" ended because the run failed: rate limited"
    ));
    let other = format_dm_ended_notification(&templates(), "bob", &reason, None, false);
    assert!(other
        .contains("The conversation with agent \"bob\" ended because the run failed: rate limited"));
    let cancelled = format_dm_ended_notification(
        &templates(),
        "bob",
        &ConversationEndReason::UserCancelled,
        None,
        false,
    );
    assert!(cancelled.contains("The DM conversation was cancelled by the user."));
}

#[test]
fn test_format_dm_history_basic() {
    let messages = vec![
        said("alice", "Hello from alice", 1_700_000_000),
        said("bob", "Hi alice, I got your message", 1_700_000_060),
    ];
    let result = format_dm_conversation_history(&messages);
    assert!(
        result.contains("alice: Hello from alice"),
        "should include alice's message with sender label"
    );
    assert!(
        result.contains("bob: Hi alice"),
        "should include bob's message with sender label"
    );
    // 1_700_000_000 is 22:13:20 UTC.
    assert_eq!(
        result,
        "[22:13] alice: Hello from alice\n[22:14] bob: Hi alice, I got your message"
    );
}

#[test]
fn a_time_before_the_epoch_still_has_a_clock() {
    let messages = vec![said("alice", "early", -60)];
    assert_eq!(
        format_dm_conversation_history(&messages),
        "[23:59] alice: early"
    );
}

#[test]
fn test_format_dm_history_skips_empty_and_markers() {
    let mut ended = Metadata::new();
    ended.set_text("message_type", "dm_ended");
    let mut synthetic = Metadata::new();
    synthetic.set_flag("synthetic", true);
    let messages = vec![
        said("alice", "Real message", 0),
        Message {
            role: Role::User,
            content: Content::Text(String::new()),
            timestamp: 0,
            metadata: Some(ended),
        },
        Message {
            role: Role::Tool,
            content: Content::Other,
            timestamp: 0,
            metadata: None,
        },
        Message {
            role: Role::System,
            content: Content::Text("synthetic marker".to_string()),
            timestamp: 0,
            metadata: Some(synthetic),
        },
    ];
    let result = format_dm_conversation_history(&messages);
    assert!(
        result.contains("Real message"),
        "should include the real message"
    );
    assert!(!result.contains("dm_ended"), "should skip dm_ended markers");
    assert!(!result.contains("Tool result"), "should skip tool results");
    assert!(
        !result.contains("synthetic marker"),
        "should skip synthetic markers"
    );
}

#[test]
fn test_format_dm_history_empty_session() {
    let result = format_dm_conversation_history(&vec![]);
    assert!(
        result.is_empty(),
        "empty session should produce empty string"
    );
}

#[test]
fn test_format_dm_history_truncation() {
    let messages: Vec<Message> = (0..200)
        .map(|i| {
            said(
                "alice",
                &format!("Message number {i} with some padding text to make it longer and ensure truncation kicks in properly"),
                0,
            )
        })
        .collect();
    let result = format_dm_conversation_history(&messages);
    assert!(
        result.len() <= DM_HISTORY_MAX_CHARS,
        "truncated output should be within budget (got {} chars, max {})",
        result.len(),
        DM_HISTORY_MAX_CHARS,
    );
    assert!(
        result.contains("earlier message(s) omitted"),
        "truncated output should indicate messages were omitted"
    );
    assert!(
        result.contains("Message number 199"),
        "truncated output should include the most recent message"
    );
}

#[test]
fn a_transcript_is_measured_in_characters() {
    let long = "\u{e9}".repeat(2000);
    let result = format_dm_conversation_history(&vec![said("alice", &long, 36_000)]);
    assert_eq!(result, format!("[10:00] alice: {long}"));
}

#[test]
fn the_newest_message_outlasts_the_older_ones() {
    let newest = "a".repeat(3945);
    let result = format_dm_conversation_history(&vec![
        said("bob", &"b".repeat(30), 36_000),
        said("alice", &newest, 36_060),
    ]);
    assert!(result.contains(&newest));
    assert!(result.contains("earlier message(s) omitted"));
    assert!(!result.contains("bbb"));
    assert!(result.chars().count() <= DM_HISTORY_MAX_CHARS);
}

#[test]
fn a_transcript_leaves_room_for_its_note() {
    let result = format_dm_conversation_history(&vec![
        said("alice", &"a".repeat(45), 36_000),
        said("alice", &"b".repeat(3885), 36_060),
        said("alice", &"c".repeat(34), 36_120),
    ]);
    assert!(result.ends_with(&format!("[10:02] alice: {}", "c".repeat(34))));
    assert!(result.contains("2 earlier message(s) omitted"), "{result}");
    assert!(!result.contains('b'));
}

#[test]
fn a_message_without_sender_is_labelled_by_its_role() {
    let message = Message {
        role: Role::Assistant,
        content: Content::Text("hello".to_string()),
        timestamp: 0,
        metadata: None,
    };
    assert_eq!(
        format_dm_conversation_history(&vec![message]),
        "[00:00] assistant: hello"
    );
}

fn session(id: u128, agent_id: u128, context_id: &str) -> Session {
    Session {
        id,
        agent_id,
        context_id: context_id.to_string(),
    }
}

#[test]
fn the_end_of_a_conversation_shows_on_the_user_facing_session() {
    let sessions = vec![session(1, 7, "dm:alice:bob"), session(2, 7, "web")];
    let notice = notify_dm_ended_to_webchat(
        &sessions,
        7,
        "bob",
        "errored",
        Some("rate limited"),
        "dm:alice:bob",
        &vec![1],
        3,
    )
    .expect("a user-facing session");
    assert_eq!(notice.target, 2);
    assert_eq!(notice.from_agent, "system");
    assert_eq!(notice.to_agent, "bob");
    assert_eq!(notice.reason, "errored");
    assert_eq!(notice.context_id, "dm:alice:bob");
    assert_eq!(notice.detail.as_deref(), Some("rate limited"));
    assert!(!notice.suppress_banner);
    let marker = notice.marker.expect("a marker");
    assert_eq!(
        marker.content,
        Content::Text(
            "[DM conversation ended] Conversation with bob ended (run failed: rate limited)."
                .to_string()
        )
    );
    assert_eq!(
        marker.metadata.as_ref().unwrap().get("detail"),
        Some(&MetaValue::Single(Scalar::Text("rate limited".to_string())))
    );
}

#[test]
fn a_run_on_the_session_itself_replaces_the_marker() {
    let sessions = vec![session(2, 7, "web")];
    let notice = notify_dm_ended_to_webchat(
        &sessions,
        7,
        "bob",
        "ignored",
        None,
        "",
        &vec![5, 2],
        3,
    )
    .expect("a user-facing session");
    assert!(notice.suppress_banner);
    assert!(notice.marker.is_none());
}

#[test]
fn an_agent_without_a_user_facing_session_gets_no_notice() {
    let sessions = vec![session(1, 7, "job_1"), session(2, 8, "web")];
    assert!(
        notify_dm_ended_to_webchat(&sessions, 7, "bob", "ignored", None, "", &vec![], 3).is_none()
    );
}

#[test]
fn every_reason_has_its_words() {
    let sessions = vec![session(2, 7, "web")];
    for (reason, words) in [
        ("ignored", "no further replies"),
        ("depth_exceeded", "message limit reached"),
        ("user_cancelled", "cancelled by user"),
        ("errored", "run failed"),
        ("elsewhere", "elsewhere"),
    ] {
        let notice =
            notify_dm_ended_to_webchat(&sessions, 7, "bob", reason, None, "", &vec![], 3).unwrap();
        assert_eq!(
            notice.marker.unwrap().content,
            Content::Text(format!(
                "[DM conversation ended] Conversation with bob ended ({words})."
            ))
        );
    }
}
