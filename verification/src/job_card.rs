//! The card that tells a user that a scheduled job has finished: one event
//! for whoever is watching, and one marker in the history for later.

use crate::context::text_of;
use crate::ids::{id_text, job_context, job_context_id, uuid_text, JobId, RunId, SessionId};
use crate::job_episode::EPISODE_DEADLINE_SECS;
use crate::jobs::EpisodeCloseStats;
use crate::markers::{lifecycle_base, marker_message, persist_lifecycle_marker, ExtraMetadata};
use crate::messages::Message;
use crate::metadata::{
    flag_value, null_value, text_value, GroupBuilder, MetaValue, MetaView,
    Metadata, Scalar, ScalarView,
};
use crate::text::{
    capped, collapse_lines, concat, concat3, decimal, decimal_text, single_line, truncate_chars,
};
use vstd::prelude::*;
use vstd::string::*;

verus! {

/// The longest summary on a card, in characters.
pub const JOB_SUMMARY_MAX_CHARS: usize = 4000;

/// The longest job name on a card, in characters.
pub const JOB_NAME_MAX_CHARS: usize = 60;

/// The state of a run.
#[derive(Debug, Clone, Copy, PartialEq, Eq, Structural)]
pub enum RunStatus {
    /// It waits in the queue.
    Queued,
    /// It is under way.
    Running,
    /// It completed.
    Completed,
    /// It failed.
    Failed,
    /// It was cancelled.
    Cancelled,
}

/// What a run left behind.
#[derive(Debug, PartialEq, Eq)]
pub struct RunResult<S> {
    /// Its state.
    pub status: RunStatus,
    /// Its output.
    pub output: Option<S>,
    /// Its error.
    pub error: Option<S>,
}

impl RunResult<String> {
    /// The mathematical reading.
    pub open spec fn view(&self) -> RunResult<Seq<char>> {
        RunResult { status: self.status, output: text_of(self.output), error: text_of(self.error) }
    }
}

/// The outcome of a job: its status word, its text, and whether the text can
/// be fetched in full from the run record.
pub open spec fn job_outcome(run: Option<RunResult<Seq<char>>>) -> (Seq<char>, Seq<char>, bool) {
    match run {
        Some(r) => match r.status {
            RunStatus::Completed => (
                "success"@,
                match r.output {
                    Some(t) => t,
                    None => seq![],
                },
                true,
            ),
            RunStatus::Failed => (
                "error"@,
                match r.error {
                    Some(t) => t,
                    None => "unknown error"@,
                },
                false,
            ),
            RunStatus::Cancelled => ("cancelled"@, "run was cancelled"@, false),
            RunStatus::Queued | RunStatus::Running => (
                "unknown"@,
                "run still in progress"@,
                false,
            ),
        },
        None => ("error"@, "run record not found"@, false),
    }
}

/// The note in front of the summary of a job whose episode ran into its
/// deadline.
pub open spec fn deadline_note(detached: nat) -> Seq<char> {
    "[Episode deadline reached after "@ + decimal((EPISODE_DEADLINE_SECS / 3600) as nat) + "h — "@
        + decimal(detached) + " pending task(s) detached]\n"@
}

/// The text of a job's outcome with its deadline note, before it is capped.
pub open spec fn full_summary(
    run: Option<RunResult<Seq<char>>>,
    stats: Option<EpisodeCloseStats>,
) -> Seq<char> {
    let text = job_outcome(run).1;
    match stats {
        Some(s) => if s.timed_out {
            deadline_note(s.detached as nat) + text
        } else {
            text
        },
        None => text,
    }
}

/// The word for an outcome in the marker's headline.
pub open spec fn outcome_label(status: Seq<char>) -> Seq<char> {
    if status == "success"@ {
        "completed"@
    } else if status == "error"@ {
        "failed"@
    } else {
        "finished"@
    }
}

/// The name of a job on its card: its prompt on one line, capped.
pub open spec fn job_name(prompt: Seq<char>) -> Seq<char> {
    capped(single_line(prompt), JOB_NAME_MAX_CHARS as nat)
}

/// The figures of an episode as a metadata object.
pub open spec fn stats_group(stats: EpisodeCloseStats) -> Map<Seq<char>, ScalarView> {
    Map::empty().insert("turns"@, ScalarView::Count(stats.turns as u64)).insert(
        "dm_count"@,
        ScalarView::Count(stats.dm_count as u64),
    ).insert("subagent_count"@, ScalarView::Count(stats.subagent_count as u64)).insert(
        "timed_out"@,
        ScalarView::Flag(stats.timed_out),
    ).insert("detached"@, ScalarView::Count(stats.detached as u64))
}

/// The entries of a card's marker.
pub open spec fn card_entries(
    status: Seq<char>,
    run: RunId,
    job: JobId,
    job_session: Option<SessionId>,
    truncated: bool,
    stats: Option<EpisodeCloseStats>,
) -> Map<Seq<char>, MetaView> {
    let base = Map::empty().insert("job_status"@, text_value(status)).insert(
        "run_id"@,
        text_value(uuid_text(run)),
    ).insert("job_id"@, text_value(uuid_text(job))).insert(
        "job_session_id"@,
        text_value(job_context(job)),
    ).insert(
        "job_session_uuid"@,
        match job_session {
            Some(s) => text_value(uuid_text(s)),
            None => null_value(),
        },
    ).insert("truncated"@, flag_value(truncated));
    match stats {
        Some(s) => base.insert("episode"@, MetaView::Group(stats_group(s))),
        None => base,
    }
}

/// The card of a finished job.
#[derive(Debug)]
pub struct JobCard {
    /// The session that shows it.
    pub target_session: SessionId,
    /// The job's name.
    pub job_name: String,
    /// The outcome's status word.
    pub status: String,
    /// The outcome's text, capped.
    pub summary: String,
    /// The context id of the job's session.
    pub job_session_id: String,
    /// The identifier of the job's session, when it is resident.
    pub job_session_uuid: Option<String>,
    /// There is more to fetch from the run record.
    pub truncated: bool,
    /// The marker that goes into the history.
    pub marker: Message,
}

/// `card` reports the outcome of a job.
pub open spec fn reports(
    card: JobCard,
    run: Option<RunResult<Seq<char>>>,
    prompt: Seq<char>,
    run_id: RunId,
    job_id: JobId,
    stats: Option<EpisodeCloseStats>,
    job_session: Option<SessionId>,
    at: i64,
) -> bool {
    let (status, _, fetchable) = job_outcome(run);
    let full = full_summary(run, stats);
    let summary = capped(full, JOB_SUMMARY_MAX_CHARS as nat);
    let truncated = fetchable && full.len() > JOB_SUMMARY_MAX_CHARS;
    &&& card.job_name@ == job_name(prompt)
    &&& card.status@ == status
    &&& card.summary@ == summary
    &&& card.job_session_id@ == job_context(job_id)
    &&& text_of(card.job_session_uuid) == match job_session {
        Some(s) => Some(uuid_text(s)),
        None => None,
    }
    &&& card.truncated == truncated
    &&& marker_message(
        card.marker,
        headline(status, prompt) + "\n"@ + summary,
        lifecycle_base("job_notification"@).union_prefer_right(
            card_entries(status, run_id, job_id, job_session, truncated, stats),
        ),
        at,
    )
}

/// The first line of a card's marker.
pub open spec fn headline(status: Seq<char>, prompt: Seq<char>) -> Seq<char> {
    "[Scheduled job "@ + outcome_label(status) + "] "@ + job_name(prompt)
}

/// Reads the outcome off a run record.
fn read_outcome(run: Option<RunResult<String>>) -> (r: (&'static str, &'static str, String, bool))
    ensures
        ({
            let (status, text, fetchable) = job_outcome(
                match run {
                    Some(x) => Some(x@),
                    None => None,
                },
            );
            r.0@ == status && r.1@ == outcome_label(status) && r.2@ == text && r.3 == fetchable
        }),
{
    proof {
        reveal_strlit("success");
        reveal_strlit("error");
        reveal_strlit("cancelled");
        reveal_strlit("unknown");
        assert("unknown"@[0] != "success"@[0] && "unknown"@.len() != "error"@.len());
    }
    match run {
        Some(x) => match x.status {
            RunStatus::Completed => (
                "success",
                "completed",
                match x.output {
                    Some(t) => t,
                    None => String::new(),
                },
                true,
            ),
            RunStatus::Failed => (
                "error",
                "failed",
                match x.error {
                    Some(t) => t,
                    None => "unknown error".to_owned(),
                },
                false,
            ),
            RunStatus::Cancelled => (
                "cancelled",
                "finished",
                "run was cancelled".to_owned(),
                false,
            ),
            RunStatus::Queued | RunStatus::Running => (
                "unknown",
                "finished",
                "run still in progress".to_owned(),
                false,
            ),
        },
        None => ("error", "failed", "run record not found".to_owned(), false),
    }
}

fn note_text(detached: usize) -> (r: String)
    ensures
        r@ == deadline_note(detached as nat),
{
    let hours: String = decimal_text(EPISODE_DEADLINE_SECS / 3600);
    let count: String = decimal_text(detached as u64);
    let head: String = concat3("[Episode deadline reached after ", hours.as_str(), "h — ");
    concat3(head.as_str(), count.as_str(), " pending task(s) detached]\n")
}

fn stats_value(stats: &EpisodeCloseStats) -> (r: MetaValue)
    ensures
        r@ == MetaView::Group(stats_group(*stats)),
{
    let mut group: GroupBuilder = GroupBuilder::new();
    group.set("turns", Scalar::Count(stats.turns as u64));
    group.set("dm_count", Scalar::Count(stats.dm_count as u64));
    group.set("subagent_count", Scalar::Count(stats.subagent_count as u64));
    group.set("timed_out", Scalar::Flag(stats.timed_out));
    group.set("detached", Scalar::Count(stats.detached as u64));
    group.build()
}

fn card_metadata(
    status: &str,
    run_id: RunId,
    job_id: JobId,
    job_session: Option<SessionId>,
    truncated: bool,
    stats: Option<EpisodeCloseStats>,
) -> (r: Metadata)
    ensures
        r@ == card_entries(status@, run_id, job_id, job_session, truncated, stats),
{
    let mut meta: Metadata = Metadata::new();
    let run_text: String = id_text(run_id);
    let job_text: String = id_text(job_id);
    let context: String = job_context_id(job_id);
    meta.set_text("job_status", status);
    meta.set_text("run_id", run_text.as_str());
    meta.set_text("job_id", job_text.as_str());
    meta.set_text("job_session_id", context.as_str());
    match job_session {
        Some(s) => {
            let text: String = id_text(s);
            meta.set_text("job_session_uuid", text.as_str());
        },
        None => {
            meta.set("job_session_uuid", MetaValue::Single(Scalar::Null));
        },
    }
    meta.set_flag("truncated", truncated);
    if let Some(s) = stats {
        meta.set("episode", stats_value(&s));
    }
    meta
}

/// Makes the card of a finished job, or none when the agent has no user-facing
/// session to show it on. The deadline note is put in front before the text is
/// capped, and only once, so that the event and the marker say the same. Only
/// the text of a completed run can be fetched in full, so only that reports
/// that there is more.
pub fn notify_job_completion(
    target: Option<SessionId>,
    run: Option<RunResult<String>>,
    job_prompt: &str,
    run_id: RunId,
    job_id: JobId,
    episode: Option<EpisodeCloseStats>,
    job_session: Option<SessionId>,
    at: i64,
) -> (r: Option<JobCard>)
    ensures
        r is Some <==> target is Some,
        r matches Some(card) ==> card.target_session == target->0 && reports(
            card,
            match run {
                Some(x) => Some(x@),
                None => None,
            },
            job_prompt@,
            run_id,
            job_id,
            episode,
            job_session,
            at,
        ),
{
    let target_session: SessionId = match target {
        Some(s) => s,
        None => return None,
    };
    let (status, label, text, fetchable): (&str, &str, String, bool) = read_outcome(run);
    let full: String = match episode {
        Some(stats) => if stats.timed_out {
            let note: String = note_text(stats.detached);
            concat(note.as_str(), text.as_str())
        } else {
            text
        },
        None => text,
    };
    let (summary, was_capped): (String, bool) = truncate_chars(full.as_str(), JOB_SUMMARY_MAX_CHARS);
    let truncated: bool = fetchable && was_capped;
    let one_line: String = collapse_lines(job_prompt);
    let (name, _): (String, bool) = truncate_chars(one_line.as_str(), JOB_NAME_MAX_CHARS);
    let lead: String = concat3("[Scheduled job ", label, "] ");
    let head: String = concat(lead.as_str(), name.as_str());
    let body: String = concat3(head.as_str(), "\n", summary.as_str());
    let metadata: Metadata = card_metadata(status, run_id, job_id, job_session, truncated, episode);
    let marker: Message = persist_lifecycle_marker(
        "job_notification",
        body,
        ExtraMetadata::Object(metadata),
        at,
    );
    let job_session_uuid: Option<String> = match job_session {
        Some(s) => Some(id_text(s)),
        None => None,
    };
    Some(
        JobCard {
            target_session,
            job_name: name,
            status: status.to_owned(),
            summary,
            job_session_id: job_context_id(job_id),
            job_session_uuid,
            truncated,
            marker,
        },
    )
}

/// A text without line feeds.
pub open spec fn one_line(text: Seq<char>) -> bool {
    forall|i: int| 0 <= i < text.len() ==> #[trigger] text[i] != '\n'
}

/// The headline of a card's marker is a single line, whatever the prompt
/// holds, so the first line feed of the marker always divides the headline
/// from the summary.
pub proof fn law_headline_is_one_line(run: Option<RunResult<Seq<char>>>, prompt: Seq<char>)
    ensures
        one_line(headline(job_outcome(run).0, prompt)),
{
    reveal_strlit("[Scheduled job ");
    reveal_strlit("] ");
    reveal_strlit("completed");
    reveal_strlit("failed");
    reveal_strlit("finished");
    let name = job_name(prompt);
    assert(one_line(name));
}

/// Whoever caps the card's summary again at the same length gets the same
/// text, so the live event and the stored marker never differ.
pub proof fn law_event_and_marker_agree(
    run: Option<RunResult<Seq<char>>>,
    stats: Option<EpisodeCloseStats>,
)
    ensures
        ({
            let summary = capped(full_summary(run, stats), JOB_SUMMARY_MAX_CHARS as nat);
            &&& capped(summary, JOB_SUMMARY_MAX_CHARS as nat) == summary
            &&& summary.len() <= JOB_SUMMARY_MAX_CHARS + 3
        }),
{
    crate::text::law_capping_is_idempotent(
        full_summary(run, stats),
        JOB_SUMMARY_MAX_CHARS as nat,
    );
}

} // verus!
