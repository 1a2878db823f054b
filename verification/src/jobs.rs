//! Scheduled jobs: what a firing does, what the end of a turn means for the
//! job, and how a job is recorded and armed again when its episode closes.

use crate::execution::unit_view;
use crate::ids::{job_context, job_context_id, JobId, RunId};
use crate::job_episode::{
    have_room, turn_abandoned, turn_ended, well_formed, CompletionView, EpisodeView, Episodes,
    JobEpisode, JobEpisodeTracker, RunCompletion,
};
use crate::tool_calls::{
    dms_in, dms_opened, subagents_in, subagents_spawned,
    ToolCallRecord,
};
use vstd::prelude::*;
use vstd::string::*;

verus! {

/// How often dispatching a job's run is tried.
pub const JOB_DISPATCH_MAX_ATTEMPTS: u32 = 3;

/// The delay before the first new attempt to dispatch a job's run, in seconds.
pub const JOB_DISPATCH_RETRY_BASE_SECS: u64 = 5;

/// How often the write that closes an episode is tried.
pub const JOB_REARM_MAX_ATTEMPTS: u32 = 3;

/// The delay before the first repetition of that write, in milliseconds.
pub const JOB_REARM_RETRY_BASE_MS: u64 = 100;

/// What is read of a job before anything is done with it.
#[derive(Debug, Clone, Copy, PartialEq, Eq, Structural)]
pub struct JobState {
    /// The job is completed, failed or cancelled.
    pub terminal: bool,
    /// How often dispatching its run has failed in a row.
    pub retry_count: u32,
}

/// A job is there and can still run.
pub open spec fn live(job: Option<JobState>) -> bool {
    job matches Some(j) && !j.terminal
}

/// Tells whether a job is there and can still run.
pub fn is_live(job: Option<JobState>) -> (r: bool)
    ensures
        r == live(job),
{
    match job {
        Some(j) => !j.terminal,
        None => false,
    }
}

/// Two to the power of `n`.
pub open spec fn doubled(n: nat) -> nat
    decreases n,
{
    if n == 0 {
        1
    } else {
        2 * doubled((n - 1) as nat)
    }
}

/// The delay before a failed dispatch is tried again: it doubles with every
/// failure, six times at most.
pub open spec fn dispatch_delay(retry_count: u32) -> nat {
    JOB_DISPATCH_RETRY_BASE_SECS as nat * doubled(
        if retry_count < 6 {
            retry_count as nat
        } else {
            6
        },
    )
}

/// Computes the delay before a failed dispatch is tried again, in seconds.
pub fn dispatch_retry_delay_secs(retry_count: u32) -> (r: u64)
    ensures
        r == dispatch_delay(retry_count),
        JOB_DISPATCH_RETRY_BASE_SECS <= r <= 320,
{
    proof {
        reveal_with_fuel(doubled, 8);
    }
    let steps: u32 = if retry_count < 6 {
        retry_count
    } else {
        6
    };
    let mut factor: u64 = 1;
    let mut i: u32 = 0;
    while i < steps
        invariant
            i <= steps <= 6,
            factor == doubled(i as nat),
            1 <= factor <= 64,
            i == 0 ==> factor == 1,
            i <= 6,
            factor <= doubled(6),
            doubled(6) == 64,
        decreases steps - i,
    {
        proof {
            reveal_with_fuel(doubled, 8);
        }
        factor = factor * 2;
        i = i + 1;
    }
    JOB_DISPATCH_RETRY_BASE_SECS * factor
}

/// Decides what follows a failed dispatch: the delay of the next attempt, or
/// nothing when the job is gone or over.
pub fn retry_dispatch(job: Option<JobState>) -> (r: Option<u64>)
    ensures
        r is Some <==> live(job),
        r matches Some(delay) ==> delay == dispatch_delay(job->0.retry_count),
{
    match job {
        Some(j) => if j.terminal {
            None
        } else {
            Some(dispatch_retry_delay_secs(j.retry_count))
        },
        None => None,
    }
}

/// What recording a failed dispatch came to.
#[derive(Debug, Clone, Copy, PartialEq, Eq, Structural)]
pub enum DispatchFailureOutcome {
    /// Another attempt is due.
    RetryScheduled,
    /// The job has had all its attempts.
    Exhausted,
    /// The job is over.
    RefusedTerminal,
    /// The job is gone.
    NotFound,
}

/// Decides whether the timer of another attempt is armed: only when the record
/// says that one is due. `recorded` is `None` when nothing could be recorded.
pub fn arm_retry(recorded: Option<DispatchFailureOutcome>, delay_secs: u64) -> (r: Option<u64>)
    ensures
        r == if recorded == Some(DispatchFailureOutcome::RetryScheduled) {
            Some(delay_secs)
        } else {
            None
        },
{
    match recorded {
        Some(DispatchFailureOutcome::RetryScheduled) => Some(delay_secs),
        _ => None,
    }
}

/// What a firing does.
#[derive(Debug, PartialEq, Eq)]
pub enum Firing {
    /// Nothing: the job is gone or over.
    Skipped,
    /// Nothing now: the job's episode is still open and will catch up.
    Absorbed,
    /// Start a turn in this context.
    Start(String),
}

/// Decides what a firing does. A firing that meets the job's own open episode
/// is absorbed into it and never overlaps with it.
pub fn fire_job_run(tracker: &mut JobEpisodeTracker, job_id: JobId, job: Option<JobState>) -> (r:
    Firing)
    requires
        well_formed(old(tracker)@),
    ensures
        well_formed(final(tracker)@),
        final(tracker).deadline == old(tracker).deadline,
        r is Skipped <==> !live(job),
        r is Absorbed <==> live(job) && old(tracker)@.contains_key(job_id),
        r matches Firing::Start(context) ==> context@ == job_context(job_id),
        final(tracker)@ == if r is Absorbed {
            old(tracker)@.insert(
                job_id,
                EpisodeView { catch_up_queued: true, ..old(tracker)@[job_id] },
            )
        } else {
            old(tracker)@
        },
{
    if !is_live(job) {
        return Firing::Skipped;
    }
    if tracker.absorb_fire_if_open(job_id) {
        return Firing::Absorbed;
    }
    Firing::Start(job_context_id(job_id))
}

/// Something that starting a job's first turn makes happen.
#[derive(Debug, Clone, Copy, PartialEq, Eq, Structural)]
pub enum DispatchEffect {
    /// Let go of the session's admission gate.
    ReleaseGate,
    /// Publish `run_created`.
    PublishCreated {
        /// How many runs it waits for: a job's turn starts at once.
        queued_behind: usize,
    },
    /// Open the job's episode with this run.
    OpenEpisode,
    /// Register the run's cancellation token.
    RegisterToken,
    /// Execute the run.
    Execute,
}

/// What has to be done next to start a job's first turn, with the admission
/// gate of the job's session held.
#[derive(Debug, Clone, PartialEq, Eq)]
pub enum DispatchPhase<S> {
    /// Look whether the session is still there.
    Rechecking,
    /// Store the run.
    Inserting,
    /// The turn takes its course.
    Dispatched,
    /// The firing failed with this error.
    Failed(S),
}

impl DispatchPhase<String> {
    /// The mathematical reading.
    pub open spec fn view(&self) -> DispatchPhase<Seq<char>> {
        match *self {
            DispatchPhase::Rechecking => DispatchPhase::Rechecking,
            DispatchPhase::Inserting => DispatchPhase::Inserting,
            DispatchPhase::Dispatched => DispatchPhase::Dispatched,
            DispatchPhase::Failed(e) => DispatchPhase::Failed(e@),
        }
    }
}

/// The effects of starting a turn whose run is stored.
pub open spec fn dispatched() -> Seq<DispatchEffect> {
    seq![
        DispatchEffect::ReleaseGate,
        DispatchEffect::PublishCreated { queued_behind: 0 },
        DispatchEffect::OpenEpisode,
        DispatchEffect::RegisterToken,
        DispatchEffect::Execute,
    ]
}

/// One step of starting a job's first turn.
pub open spec fn dispatch_step(phase: DispatchPhase<Seq<char>>, result: Result<(), Seq<char>>) -> (
    DispatchPhase<Seq<char>>,
    Seq<DispatchEffect>,
) {
    match (phase, result) {
        (DispatchPhase::Rechecking, Ok(_)) => (DispatchPhase::Inserting, seq![]),
        (DispatchPhase::Inserting, Ok(_)) => (DispatchPhase::Dispatched, dispatched()),
        (DispatchPhase::Rechecking, Err(e)) => (
            DispatchPhase::Failed(e),
            seq![DispatchEffect::ReleaseGate],
        ),
        (DispatchPhase::Inserting, Err(e)) => (
            DispatchPhase::Failed(e),
            seq![DispatchEffect::ReleaseGate],
        ),
        (DispatchPhase::Dispatched, _) => (phase, seq![]),
        (DispatchPhase::Failed(_), _) => (phase, seq![]),
    }
}

/// Takes the start of a job's first turn one step further.
pub fn dispatch_job_run(phase: DispatchPhase<String>, result: Result<(), String>) -> (r: (
    DispatchPhase<String>,
    Vec<DispatchEffect>,
))
    ensures
        (r.0@, r.1@) == dispatch_step(phase@, unit_view(result)),
{
    let mut out: Vec<DispatchEffect> = Vec::new();
    let next: DispatchPhase<String> = match (phase, result) {
        (DispatchPhase::Rechecking, Ok(_)) => DispatchPhase::Inserting,
        (DispatchPhase::Inserting, Ok(_)) => {
            out.push(DispatchEffect::ReleaseGate);
            out.push(DispatchEffect::PublishCreated { queued_behind: 0 });
            out.push(DispatchEffect::OpenEpisode);
            out.push(DispatchEffect::RegisterToken);
            out.push(DispatchEffect::Execute);
            DispatchPhase::Dispatched
        },
        (DispatchPhase::Rechecking, Err(e)) => {
            out.push(DispatchEffect::ReleaseGate);
            DispatchPhase::Failed(e)
        },
        (DispatchPhase::Inserting, Err(e)) => {
            out.push(DispatchEffect::ReleaseGate);
            DispatchPhase::Failed(e)
        },
        (DispatchPhase::Dispatched, _) => DispatchPhase::Dispatched,
        (DispatchPhase::Failed(e), _) => DispatchPhase::Failed(e),
    };
    (next, out)
}

/// A job's turn is executed only after its run was stored, and its episode is
/// open by then, so that no end of a turn goes unnoticed.
pub proof fn law_episode_opens_before_the_first_turn(
    phase: DispatchPhase<Seq<char>>,
    result: Result<(), Seq<char>>,
    i: int,
)
    requires
        0 <= i < dispatch_step(phase, result).1.len(),
        dispatch_step(phase, result).1[i] is Execute,
    ensures
        phase is Inserting && result is Ok,
        dispatch_step(phase, result).1[2] is OpenEpisode,
        2 < i,
{
}

/// What the end of a run does to the registry of episodes.
pub open spec fn run_finished(
    episodes: Episodes,
    job: Option<JobId>,
    run: RunId,
    records: Seq<ToolCallRecord>,
) -> (CompletionView, Episodes) {
    match job {
        Some(j) => turn_ended(episodes, j, run, dms_in(records), subagents_in(records)),
        None => (CompletionView::Untracked, episodes),
    }
}

/// No record shows both a conversation and a subagent.
proof fn lemma_work_count(records: Seq<ToolCallRecord>)
    ensures
        dms_in(records).len() + subagents_in(records).len() <= records.len(),
    decreases records.len(),
{
    if records.len() > 0 {
        lemma_work_count(records.drop_last());
        reveal_strlit("send_message");
        reveal_strlit("invoke_agent");
        assert("send_message"@[0] != "invoke_agent"@[0]);
    }
}

/// Reports the end of a run to the episode of its job, with the work that its
/// tool calls started. A run that belongs to no job changes nothing.
pub fn finish_episode_run(
    tracker: &mut JobEpisodeTracker,
    job_id: Option<JobId>,
    run_id: RunId,
    tool_calls: &Vec<ToolCallRecord>,
) -> (r: RunCompletion)
    requires
        well_formed(old(tracker)@),
        job_id is Some ==> have_room(old(tracker)@, tool_calls@.len()),
    ensures
        (r@, final(tracker)@) == run_finished(old(tracker)@, job_id, run_id, tool_calls@),
        well_formed(final(tracker)@),
        final(tracker).deadline == old(tracker).deadline,
{
    match job_id {
        Some(job) => {
            let dms: Vec<u128> = dms_opened(tool_calls);
            let subagents: Vec<(u128, u128)> = subagents_spawned(tool_calls);
            proof {
                lemma_work_count(tool_calls@);
            }
            tracker.on_run_complete(job, run_id, dms, subagents)
        },
        None => RunCompletion::Untracked,
    }
}

/// Gives up the turn that was reserved for a continuation whose run never came
/// to exist. Nothing was reserved for a run that belongs to no job.
pub fn abandon_episode_continuation(tracker: &mut JobEpisodeTracker, job_id: Option<JobId>) -> (r:
    RunCompletion)
    requires
        well_formed(old(tracker)@),
    ensures
        (r@, final(tracker)@) == match job_id {
            Some(j) => turn_abandoned(old(tracker)@, j),
            None => (CompletionView::Untracked, old(tracker)@),
        },
        well_formed(final(tracker)@),
        final(tracker).deadline == old(tracker).deadline,
{
    match job_id {
        Some(job) => tracker.abandon_reserved_continuation(job),
        None => RunCompletion::Untracked,
    }
}

/// The figures on the completion card of an episode.
#[derive(Debug, Clone, Copy, PartialEq, Eq, Structural)]
pub struct EpisodeCloseStats {
    /// How many turns it had.
    pub turns: usize,
    /// How many conversations it opened.
    pub dm_count: usize,
    /// How many subagents it started.
    pub subagent_count: usize,
    /// It was closed because its deadline passed.
    pub timed_out: bool,
    /// How much work was pending and is left to run its course.
    pub detached: usize,
}

/// What closing an episode reports.
#[derive(Debug, Clone, Copy, PartialEq, Eq, Structural)]
pub struct EpisodeClose {
    /// The episode's last run.
    pub last_run: RunId,
    /// The figures.
    pub stats: EpisodeCloseStats,
}

/// The report on a closed episode.
pub open spec fn close_report(
    episode: EpisodeView,
    timed_out: bool,
    fresh_run: RunId,
) -> EpisodeClose {
    EpisodeClose {
        last_run: if episode.runs.len() > 0 {
            episode.runs.last()
        } else {
            fresh_run
        },
        stats: EpisodeCloseStats {
            turns: episode.runs.len() as usize,
            dm_count: episode.dm_total as usize,
            subagent_count: episode.subagent_total as usize,
            timed_out,
            detached: episode.pending() as usize,
        },
    }
}

/// Decides what closing an episode reports. Nothing is reported, recorded or
/// armed again when the job is gone or over: it was cancelled meanwhile.
/// `fresh_run` stands in for the last run of an episode without runs.
pub fn close_episode(
    job: Option<JobState>,
    episode: &JobEpisode,
    timed_out: bool,
    fresh_run: RunId,
) -> (r: Option<EpisodeClose>)
    requires
        episode@.consistent(),
    ensures
        r == if live(job) {
            Some(close_report(episode@, timed_out, fresh_run))
        } else {
            None
        },
{
    if !is_live(job) {
        return None;
    }
    let n: usize = episode.runs.len();
    let last_run: RunId = if n > 0 {
        episode.runs[n - 1]
    } else {
        fresh_run
    };
    Some(
        EpisodeClose {
            last_run,
            stats: EpisodeCloseStats {
                turns: n,
                dm_count: episode.dm_total,
                subagent_count: episode.subagent_total,
                timed_out,
                detached: episode.pending_count(),
            },
        },
    )
}

/// An episode that closed because it came to rest leaves nothing behind.
pub proof fn law_quiet_close_detaches_nothing(episode: EpisodeView, fresh_run: RunId)
    requires
        episode.quiescent(),
    ensures
        close_report(episode, false, fresh_run).stats.detached == 0,
{
}

} // verus!
