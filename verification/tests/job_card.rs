use alms_runs::ids::{job_context_id, job_for_context};
use alms_runs::job_card::{
    notify_job_completion, JobCard, RunResult, RunStatus, JOB_SUMMARY_MAX_CHARS,
};
use alms_runs::jobs::EpisodeCloseStats;
use alms_runs::messages::Content;
use alms_runs::metadata::{MetaValue, Scalar};
use uuid::Uuid;

fn completed(output: &str) -> Option<RunResult<String>> {
    Some(RunResult {
        status: RunStatus::Completed,
        output: Some(output.to_string()),
        error: None,
    })
}

fn marker_text(card: &JobCard) -> String {
    match &card.marker.content {
        Content::Text(t) => t.clone(),
        Content::Other => panic!("job marker should be text content"),
    }
}

fn entry(card: &JobCard, key: &str) -> MetaValue {
    card.marker
        .metadata
        .as_ref()
        .unwrap()
        .get(key)
        .unwrap_or_else(|| panic!("no entry {key}"))
        .clone()
}

fn text(value: &str) -> MetaValue {
    MetaValue::Single(Scalar::Text(value.to_string()))
}

fn flag(value: bool) -> MetaValue {
    MetaValue::Single(Scalar::Flag(value))
}

#[test]
fn job_completion_marker_carries_full_summary_and_ids() {
    let run_id = Uuid::new_v4();
    let job_id = Uuid::new_v4();
    let long_output = "a".repeat(JOB_SUMMARY_MAX_CHARS + 1000);
    let card = notify_job_completion(
        Some(1),
        completed(&long_output),
        "nightly digest",
        run_id.as_u128(),
        job_id.as_u128(),
        None,
        None,
        0,
    )
    .expect("a card");

    assert_eq!(entry(&card, "job_status"), text("success"));
    assert_eq!(entry(&card, "run_id"), text(&run_id.to_string()));
    assert_eq!(entry(&card, "job_id"), text(&job_id.to_string()));
    assert_eq!(
        entry(&card, "job_session_id"),
        text(&format!("job_{job_id}"))
    );
    assert_eq!(
        entry(&card, "job_session_uuid"),
        MetaValue::Single(Scalar::Null)
    );
    assert_eq!(entry(&card, "truncated"), flag(true));

    let text = marker_text(&card);
    let nl = text
        .find('\n')
        .expect("marker has a name/summary delimiter");
    let summary_part = &text[nl + 1..];
    assert!(
        summary_part.ends_with("..."),
        "an over-cap output must be truncated with an ellipsis"
    );
    assert_eq!(
        summary_part.chars().count(),
        JOB_SUMMARY_MAX_CHARS + 3,
        "summary must be capped at 4000 chars (+ ellipsis), not 200"
    );
    assert_eq!(card.summary, summary_part);
}

#[test]
fn job_completion_emits_resolvable_job_session_uuid() {
    let job_id = Uuid::new_v4();
    let job_ctx = format!("job_{job_id}");
    let real_job_session_id = Uuid::new_v4();
    let card = notify_job_completion(
        Some(1),
        completed("done"),
        "nightly digest",
        2,
        job_id.as_u128(),
        None,
        Some(real_job_session_id.as_u128()),
        0,
    )
    .expect("a card");
    assert_eq!(entry(&card, "job_session_id"), text(&job_ctx));
    let emitted = card.job_session_uuid.clone().expect("resident session");
    assert_eq!(emitted, real_job_session_id.to_string());
    assert_eq!(entry(&card, "job_session_uuid"), text(&emitted));
    assert_ne!(emitted, job_ctx);
    assert_eq!(Uuid::parse_str(&emitted).unwrap(), real_job_session_id);
    assert!(Uuid::parse_str(&job_ctx).is_err());
}

#[test]
fn job_completion_collapses_newline_in_prompt_name() {
    let prompt = "Line one of the prompt\nLine two continues on past the split point";
    let card = notify_job_completion(
        Some(1),
        completed("short summary"),
        prompt,
        2,
        3,
        None,
        None,
        0,
    )
    .expect("a card");
    let text = marker_text(&card);
    let nl = text
        .find('\n')
        .expect("marker has a name/summary delimiter");
    let header = &text[..nl];
    let summary_part = &text[nl + 1..];
    assert!(header.starts_with("[Scheduled job completed] "));
    assert!(
        header.contains("Line one of the prompt Line two"),
        "prompt newline must collapse to a space on the header line, got: {header}"
    );
    assert_eq!(
        summary_part, "short summary",
        "summary must be exactly the run output, with no prompt-line-2 leak"
    );
}

#[test]
fn job_completion_summary_is_char_based_not_byte_based() {
    let multibyte = "€".repeat(100);
    let card = notify_job_completion(
        Some(1),
        completed(&multibyte),
        "unicode job",
        2,
        3,
        None,
        None,
        0,
    )
    .expect("a card");
    let text = marker_text(&card);
    let nl = text
        .find('\n')
        .expect("marker has a name/summary delimiter");
    assert_eq!(
        &text[nl + 1..],
        multibyte,
        "a multi-byte summary under the char cap must be stored verbatim (no byte-vs-char ellipsis)"
    );
    assert_eq!(entry(&card, "truncated"), flag(false));
}

#[test]
fn deadline_note_is_applied_before_the_cap() {
    let at_cap_output = "a".repeat(JOB_SUMMARY_MAX_CHARS);
    let stats = EpisodeCloseStats {
        turns: 2,
        dm_count: 1,
        subagent_count: 0,
        timed_out: true,
        detached: 1,
    };
    let card = notify_job_completion(
        Some(1),
        completed(&at_cap_output),
        "slow job",
        2,
        3,
        Some(stats),
        None,
        0,
    )
    .expect("a card");
    let text = marker_text(&card);
    let nl = text.find('\n').expect("name/summary delimiter");
    let summary_part = &text[nl + 1..];
    assert!(
        summary_part.starts_with("[Episode deadline reached after 4h — 1 pending task(s) detached]"),
        "deadline note must lead the summary"
    );
    assert_eq!(
        summary_part.chars().count(),
        JOB_SUMMARY_MAX_CHARS + 3,
        "note + output must be capped ONCE at JOB_SUMMARY_MAX_CHARS (+ ellipsis)"
    );
    assert!(summary_part.ends_with("..."));
    assert_eq!(entry(&card, "truncated"), flag(true));
    match entry(&card, "episode") {
        MetaValue::Group(entries) => {
            assert!(entries.contains(&("timed_out".to_string(), Scalar::Flag(true))));
            assert!(entries.contains(&("turns".to_string(), Scalar::Count(2))));
            assert!(entries.contains(&("detached".to_string(), Scalar::Count(1))));
        }
        other => panic!("expected a group, got {other:?}"),
    }
}

#[test]
fn job_completion_failed_arm_caps_error_and_does_not_signal_fetch() {
    let card = notify_job_completion(
        Some(1),
        Some(RunResult {
            status: RunStatus::Failed,
            output: None,
            error: Some("boom ".repeat(JOB_SUMMARY_MAX_CHARS)),
        }),
        "flaky job",
        2,
        3,
        None,
        None,
        0,
    )
    .expect("a card");
    assert_eq!(entry(&card, "job_status"), text("error"));
    assert_eq!(entry(&card, "truncated"), flag(false));
    let text = marker_text(&card);
    let nl = text
        .find('\n')
        .expect("marker has a name/summary delimiter");
    let summary_part = &text[nl + 1..];
    assert!(
        summary_part.ends_with("..."),
        "an over-cap error must be truncated with an ellipsis in the marker"
    );
    assert_eq!(
        summary_part.chars().count(),
        JOB_SUMMARY_MAX_CHARS + 3,
        "the failed-arm error must be capped in the marker, not persisted whole"
    );
}

#[test]
fn every_outcome_has_its_words() {
    let outcome = |run: Option<RunResult<String>>| {
        let card = notify_job_completion(Some(1), run, "p", 2, 3, None, None, 0).expect("a card");
        (card.status.clone(), marker_text(&card))
    };
    let with = |status| {
        Some(RunResult {
            status,
            output: None,
            error: None,
        })
    };
    assert_eq!(
        outcome(None),
        (
            "error".to_string(),
            "[Scheduled job failed] p\nrun record not found".to_string()
        )
    );
    assert_eq!(
        outcome(with(RunStatus::Failed)),
        (
            "error".to_string(),
            "[Scheduled job failed] p\nunknown error".to_string()
        )
    );
    assert_eq!(
        outcome(with(RunStatus::Cancelled)),
        (
            "cancelled".to_string(),
            "[Scheduled job finished] p\nrun was cancelled".to_string()
        )
    );
    assert_eq!(
        outcome(with(RunStatus::Running)),
        (
            "unknown".to_string(),
            "[Scheduled job finished] p\nrun still in progress".to_string()
        )
    );
    assert_eq!(
        outcome(with(RunStatus::Completed)),
        (
            "success".to_string(),
            "[Scheduled job completed] p\n".to_string()
        )
    );
}

#[test]
fn without_a_user_facing_session_there_is_no_card() {
    assert!(notify_job_completion(None, None, "p", 2, 3, None, None, 0).is_none());
}

#[test]
fn a_job_is_found_again_by_its_context() {
    let job = Uuid::new_v4();
    let context = job_context_id(job.as_u128());
    assert_eq!(context, format!("job_{job}"));
    assert_eq!(job_for_context(&context), Some(job.as_u128()));
    assert_eq!(job_for_context("job_nonsense"), None);
    assert_eq!(job_for_context(&job.to_string()), None);
}
