use alms_runs::peer::{
    lifecycle_persistence_error_for_peer, peer_error_with_prefix, truncate_error_for_peer,
    ConversationEndReason, RunVerdict, PEER_ERROR_MESSAGE_MAX_LEN,
};

#[test]
fn test_truncate_error_for_peer_short_label_unchanged() {
    let out = truncate_error_for_peer("LLM rate limit exceeded");
    assert_eq!(out, "LLM rate limit exceeded");
    assert!(!out.ends_with("..."));
    assert!(out.len() <= PEER_ERROR_MESSAGE_MAX_LEN);
}

#[test]
fn test_truncate_error_for_peer_cancelled_passes_through() {
    assert_eq!(
        truncate_error_for_peer("Run cancelled by user"),
        "Run cancelled by user"
    );
}

#[test]
fn test_truncate_error_for_peer_oversize_ascii_tool_truncates_with_ellipsis() {
    let sanitised = format!("Tool execution failed: {}", "a".repeat(400));
    let out = truncate_error_for_peer(&sanitised);
    assert!(
        out.ends_with("..."),
        "oversize sanitiser output must be truncated and ellipsis-terminated, got {out:?}"
    );
    assert_eq!(out.len(), PEER_ERROR_MESSAGE_MAX_LEN + 3);
    assert!(out.starts_with("Tool execution failed: "));
}

#[test]
fn test_truncate_error_for_peer_multibyte_walks_back_to_char_boundary() {
    let sanitised = format!("Tool execution failed: xx{}", "あ".repeat(200));
    let out = truncate_error_for_peer(&sanitised);
    assert!(out.ends_with("..."));
    let body = out.trim_end_matches("...");
    assert!(
        body.is_char_boundary(body.len()),
        "truncated body must end on a UTF-8 char boundary"
    );
    assert!(body.len() <= PEER_ERROR_MESSAGE_MAX_LEN);
    assert_eq!(body.len(), 298);
}

#[test]
fn an_error_that_just_fits_is_kept_whole() {
    let exact = "a".repeat(300);
    assert_eq!(truncate_error_for_peer(&exact), exact);
    let over = "a".repeat(301);
    assert_eq!(
        truncate_error_for_peer(&over),
        format!("{}...", "a".repeat(300))
    );
}

#[test]
fn peer_error_with_prefix_does_not_collapse_the_whole_message() {
    let out = peer_error_with_prefix(
        "Run panic could not be persisted: ",
        "LLM rate limit exceeded",
    );
    assert_eq!(
        out,
        "Run panic could not be persisted: LLM rate limit exceeded"
    );
}

#[test]
fn only_the_tail_of_a_prefixed_error_is_bounded() {
    let prefix = "reply delivery failed: ";
    let out = peer_error_with_prefix(prefix, &"b".repeat(500));
    assert!(out.starts_with(prefix));
    assert_eq!(out.len(), prefix.len() + PEER_ERROR_MESSAGE_MAX_LEN + 3);
}

#[test]
fn end_reasons_say_whether_a_turn_was_cut_short() {
    let died = ConversationEndReason::Errored {
        message: "boom".to_string(),
        interrupted: true,
    };
    let unusable = ConversationEndReason::Errored {
        message: "no reply".to_string(),
        interrupted: false,
    };
    assert!(died.is_interrupted());
    assert!(!unusable.is_interrupted());
    assert!(ConversationEndReason::UserCancelled.is_interrupted());
    assert!(!ConversationEndReason::Ignored.is_interrupted());
    assert!(!ConversationEndReason::DepthExceeded.is_interrupted());
    assert_eq!(died.detail().as_deref(), Some("boom"));
    assert_eq!(ConversationEndReason::Ignored.detail(), None);
    assert_eq!(ConversationEndReason::Ignored.label(), "ignored");
    assert_eq!(
        ConversationEndReason::DepthExceeded.label(),
        "depth_exceeded"
    );
    assert_eq!(
        ConversationEndReason::UserCancelled.label(),
        "user_cancelled"
    );
    assert_eq!(died.label(), "errored");
}

#[test]
fn the_run_record_names_the_persistence_failure() {
    let record = |reason: Option<&str>, error: Option<&str>| {
        Some(RunVerdict {
            terminal_reason: reason.map(str::to_string),
            error: error.map(str::to_string),
        })
    };
    assert_eq!(
        lifecycle_persistence_error_for_peer(
            record(Some("persistence_failed"), Some("disk full")),
            Some("seen".to_string()),
        )
        .as_deref(),
        Some("disk full")
    );
    assert_eq!(
        lifecycle_persistence_error_for_peer(record(Some("persistence_failed"), None), None)
            .as_deref(),
        Some("lifecycle persistence failed")
    );
    assert_eq!(
        lifecycle_persistence_error_for_peer(
            record(Some("user_cancelled"), Some("x")),
            Some("seen".to_string()),
        )
        .as_deref(),
        Some("seen")
    );
    assert_eq!(lifecycle_persistence_error_for_peer(None, None), None);
}
