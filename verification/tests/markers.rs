use alms_runs::markers::{persist_error_marker, persist_lifecycle_marker, ExtraMetadata};
use alms_runs::messages::{is_synthetic_marker, Content, Message, Role};
use alms_runs::metadata::{MetaValue, Metadata, Scalar};

fn extra(entries: &[(&str, &str)]) -> ExtraMetadata {
    let mut meta = Metadata::new();
    for (key, value) in entries {
        meta.set_text(key, value);
    }
    ExtraMetadata::Object(meta)
}

fn text(message: &Message, key: &str) -> String {
    match message.metadata.as_ref().expect("metadata").get(key) {
        Some(MetaValue::Single(Scalar::Text(t))) => t.clone(),
        other => panic!("{key}: {other:?}"),
    }
}

fn synthetic(message: &Message) -> bool {
    message.metadata.as_ref().expect("metadata").get("synthetic")
        == Some(&MetaValue::Single(Scalar::Flag(true)))
}

#[test]
fn marker_is_persisted_with_correct_shape() {
    let msg = persist_lifecycle_marker(
        "job_notification",
        "[Scheduled job completed] test-job".to_string(),
        extra(&[("job_status", "success")]),
        7,
    );
    assert_eq!(msg.role, Role::System);
    if let Content::Text(ref text) = msg.content {
        assert!(text.contains("test-job"));
    } else {
        panic!("expected text content");
    }
    assert!(synthetic(&msg));
    assert_eq!(text(&msg, "type"), "job_notification");
    assert_eq!(text(&msg, "job_status"), "success");
    assert_eq!(msg.timestamp, 7);
}

#[test]
fn marker_with_empty_extra_metadata() {
    let msg = persist_lifecycle_marker(
        "test_marker",
        "Test display text".to_string(),
        extra(&[]),
        0,
    );
    assert!(synthetic(&msg));
    assert_eq!(text(&msg, "type"), "test_marker");
}

#[test]
fn marker_with_null_extra_metadata() {
    let msg = persist_lifecycle_marker("test_marker", "Test".to_string(), ExtraMetadata::Null, 0);
    assert!(synthetic(&msg));
    assert_eq!(text(&msg, "type"), "test_marker");
}

#[test]
fn extra_metadata_that_is_no_object_is_ignored() {
    let msg = persist_error_marker(
        "test_marker",
        "Test".to_string(),
        ExtraMetadata::NotAnObject,
        0,
    );
    let meta = msg.metadata.as_ref().unwrap();
    assert_eq!(meta.entries.len(), 3);
    assert!(meta.get("status").is_none());
}

#[test]
fn multiple_extra_fields_are_merged() {
    let msg = persist_lifecycle_marker(
        "dm_ended_notification",
        "DM ended".to_string(),
        extra(&[
            ("peer", "bob"),
            ("reason", "ignored"),
            ("context_id", "dm:alice:bob"),
        ]),
        0,
    );
    assert!(synthetic(&msg));
    assert_eq!(text(&msg, "type"), "dm_ended_notification");
    assert_eq!(text(&msg, "peer"), "bob");
    assert_eq!(text(&msg, "reason"), "ignored");
    assert_eq!(text(&msg, "context_id"), "dm:alice:bob");
}

#[test]
fn callers_entries_win_over_canonical_ones() {
    let msg = persist_lifecycle_marker(
        "test_marker",
        "Test".to_string(),
        extra(&[("type", "other")]),
        0,
    );
    assert_eq!(text(&msg, "type"), "other");
}

#[test]
fn marker_filtered_by_is_synthetic_marker() {
    let msg = persist_lifecycle_marker(
        "subagent_completion",
        "Subagent 'researcher' completed.".to_string(),
        extra(&[("subagent_name", "researcher"), ("status", "done")]),
        0,
    );
    assert!(
        is_synthetic_marker(&msg),
        "lifecycle markers should be filtered by is_synthetic_marker"
    );
}

#[test]
fn error_marker_carries_kind_error() {
    let msg = persist_error_marker(
        "run_boundary",
        "(run failed) connection refused".to_string(),
        extra(&[
            ("run_id", "00000000-0000-0000-0000-000000000001"),
            ("status", "failed"),
            ("error", "connection refused"),
        ]),
        0,
    );
    assert_eq!(msg.role, Role::System);
    assert!(synthetic(&msg));
    assert_eq!(text(&msg, "kind"), "error");
    assert_eq!(text(&msg, "type"), "run_boundary");
    assert_eq!(text(&msg, "status"), "failed");
    assert_eq!(text(&msg, "error"), "connection refused");
}

#[test]
fn error_marker_with_empty_extras_still_has_kind() {
    let msg = persist_error_marker(
        "runtime_init_error",
        "(runtime initialization failed) bad config".to_string(),
        extra(&[]),
        0,
    );
    assert_eq!(text(&msg, "kind"), "error");
    assert_eq!(text(&msg, "type"), "runtime_init_error");
    assert!(synthetic(&msg));
}

#[test]
fn error_marker_filtered_by_is_synthetic_marker() {
    let msg = persist_error_marker(
        "run_boundary",
        "(run cancelled)".to_string(),
        extra(&[("status", "cancelled")]),
        0,
    );
    assert!(
        is_synthetic_marker(&msg),
        "error markers should still be filtered by is_synthetic_marker (DM hygiene)"
    );
}

#[test]
fn later_metadata_entries_replace_earlier_ones() {
    let mut meta = Metadata::new();
    meta.set_text("key", "first");
    meta.set_count("key", 2);
    assert_eq!(
        meta.get("key"),
        Some(&MetaValue::Single(Scalar::Count(2)))
    );
    assert_eq!(meta.get("other"), None);
}
