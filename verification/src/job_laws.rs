//! What holds of scheduled jobs and their episodes, stated of the operations
//! and their results.

use crate::clock::{instant_text, Nanos};
use crate::ids::{
    job_of_context, law_job_context_reads_back, parsed_uuid, AgentId, JobId, RunId, SessionId,
    TaskId,
};
use crate::job_episode::{
    awaits_dm, awaits_subagent, with_subagents, ContinuationRoute, EpisodeSnapshot, EpisodeView,
    JobEpisode, JobEpisodeTracker, RunCompletion,
};
use crate::jobs::{
    abandon_episode_continuation, arm_retry, close_episode, dispatch_job_run,
    dispatch_retry_delay_secs, doubled, finish_episode_run, fire_job_run, is_live, retry_dispatch,
    DispatchEffect, DispatchFailureOutcome, DispatchPhase, EpisodeClose, Firing, JobState,
};
use crate::rearm::{
    begin_close, record_and_rearm, CloseWrite, RearmEffect, RearmState, RecordOutcome, Schedule,
    TerminalReason,
};
use crate::tool_calls::{
    dm_of_result, dms_in, dms_opened, json_flag, json_has, json_text, subagent_of_result,
    subagents_in, subagents_spawned, ToolCallRecord, ToolCallRole,
};
use vstd::prelude::*;

verus! {

/// A closed episode is reported with its newest run: after a run was noted as
/// the newest turn, closing the episode reports that run.
pub proof fn law_close_reports_the_newest_run(
    tracker: &mut JobEpisodeTracker,
    job: JobId,
    newest: RunId,
    episode: JobEpisode,
    state: Option<JobState>,
    timed_out: bool,
    fresh_run: RunId,
    report: EpisodeClose,
)
    requires
        old(tracker)@.contains_key(job),
        call_ensures(JobEpisodeTracker::note_run, (tracker, job, newest), ()),
        episode@ == final(tracker)@[job],
        call_ensures(close_episode, (state, &episode, timed_out, fresh_run), Some(report)),
    ensures
        report.last_run == newest,
        report.stats.turns == old(tracker)@[job].runs.len() + 1,
{
    assert(episode.runs.len() == episode.runs@.len());
}

/// The report on a closed episode: there is one exactly while the job is there
/// and not over. It names the last of the episode's runs, whatever came before
/// it, and counts its turns, its conversations, its subagents and the work that
/// it leaves behind.
pub proof fn law_close_report_counts(
    state: Option<JobState>,
    episode: JobEpisode,
    timed_out: bool,
    fresh_run: RunId,
    r: Option<EpisodeClose>,
)
    requires
        episode@.consistent(),
        call_ensures(close_episode, (state, &episode, timed_out, fresh_run), r),
    ensures
        r is None <==> state is None || state->0.terminal,
        r matches Some(report) ==> {
            &&& forall|i: int|
                0 <= i < episode.runs@.len() && i + 1 == episode.runs@.len() ==> report.last_run
                    == #[trigger] episode.runs@[i]
            &&& episode.runs@.len() == 0 ==> report.last_run == fresh_run
            &&& report.stats.turns == episode.runs@.len()
            &&& report.stats.dm_count == episode.dm_total
            &&& report.stats.subagent_count == episode.subagent_total
            &&& report.stats.timed_out == timed_out
            &&& report.stats.detached == episode.pending_dms@.len()
                + episode.pending_subagents@.dom().len()
        },
{
    assert(episode.runs.len() == episode.runs@.len());
}

/// A run that is noted comes behind the others of its episode, and nothing else
/// changes, in this episode or in another.
pub proof fn law_noted_run_comes_last(
    tracker: &mut JobEpisodeTracker,
    job: JobId,
    run: RunId,
    other: JobId,
)
    requires
        call_ensures(JobEpisodeTracker::note_run, (tracker, job, run), ()),
    ensures
        final(tracker)@.contains_key(other) <==> old(tracker)@.contains_key(other),
        old(tracker)@.contains_key(other) && other != job ==> final(tracker)@[other] == old(
            tracker,
        )@[other],
        old(tracker)@.contains_key(job) ==> {
            let before = old(tracker)@[job];
            let after = final(tracker)@[job];
            &&& after.runs.len() == before.runs.len() + 1
            &&& after.runs.drop_last() == before.runs
            &&& after.runs[before.runs.len() as int] == run
            &&& after.in_flight_runs == before.in_flight_runs
            &&& after.finished_runs == before.finished_runs
            &&& same_work(before, after)
            &&& same_place(before, after)
            &&& after.catch_up_queued == before.catch_up_queued
        },
{
    if old(tracker)@.contains_key(job) {
        assert(final(tracker)@[job].runs.drop_last() =~= old(tracker)@[job].runs);
    }
}

/// Two states of an episode wait for the same work and count it alike.
pub open spec fn same_work(a: EpisodeView, b: EpisodeView) -> bool {
    &&& a.pending_dms == b.pending_dms
    &&& a.pending_subagents == b.pending_subagents
    &&& a.dm_total == b.dm_total
    &&& a.subagent_total == b.subagent_total
}

/// Two states of an episode belong to the same job, session and agent, and were
/// opened and expire at the same time.
pub open spec fn same_place(a: EpisodeView, b: EpisodeView) -> bool {
    &&& a.job_id == b.job_id
    &&& a.session_id == b.session_id
    &&& a.agent_id == b.agent_id
    &&& a.started_at == b.started_at
    &&& a.deadline == b.deadline
}

/// A firing starts a turn exactly when the job is there, is not over and has no
/// open episode; the turn's context leads back to the job. A firing that meets
/// the open episode is remembered in it and changes nothing else; one that
/// comes too late changes nothing at all.
pub proof fn law_firing_never_overlaps(
    tracker: &mut JobEpisodeTracker,
    job: JobId,
    state: Option<JobState>,
    r: Firing,
    other: JobId,
)
    requires
        call_ensures(fire_job_run, (tracker, job, state), r),
    ensures
        ({
            let runs_on = state is Some && !state->0.terminal;
            let open = old(tracker)@.contains_key(job);
            &&& !runs_on ==> r is Skipped && final(tracker)@ == old(tracker)@
            &&& runs_on && !open ==> final(tracker)@ == old(tracker)@ && (r matches Firing::Start(
                context,
            ) && job_of_context(context@) == Some(job))
            &&& runs_on && open ==> {
                &&& r is Absorbed
                &&& final(tracker)@[job].catch_up_queued
                &&& final(tracker)@[job].in_flight_runs == old(tracker)@[job].in_flight_runs
                &&& final(tracker)@[job].runs == old(tracker)@[job].runs
                &&& final(tracker)@[job].finished_runs == old(tracker)@[job].finished_runs
                &&& same_work(old(tracker)@[job], final(tracker)@[job])
                &&& same_place(old(tracker)@[job], final(tracker)@[job])
            }
            &&& final(tracker)@.contains_key(other) <==> old(tracker)@.contains_key(other)
            &&& other != job && old(tracker)@.contains_key(other) ==> final(tracker)@[other]
                == old(tracker)@[other]
        }),
{
    law_job_context_reads_back(job);
}

/// The delay of a new attempt starts at five seconds and doubles with each
/// failure, until it has doubled six times.
pub proof fn law_retry_delay_doubles(failures: u32, once_more: u32, first: u64, then: u64)
    requires
        once_more == failures + 1,
        call_ensures(dispatch_retry_delay_secs, (failures,), first),
        call_ensures(dispatch_retry_delay_secs, (once_more,), then),
    ensures
        failures == 0 ==> first == 5,
        failures < 6 ==> then == 2 * first,
        failures >= 6 ==> then == first == 320,
{
    reveal_with_fuel(doubled, 8);
}

/// A failed dispatch is tried again exactly while the job is there and not
/// over, after the delay that its failures call for.
pub proof fn law_retry_waits_by_the_failures(state: JobState, r: Option<u64>, delay: u64)
    requires
        call_ensures(retry_dispatch, (Some(state),), r),
        call_ensures(dispatch_retry_delay_secs, (state.retry_count,), delay),
    ensures
        r == if state.terminal {
            None
        } else {
            Some(delay)
        },
{
}

/// No attempt follows for a job that is gone.
pub proof fn law_gone_job_is_not_retried(r: Option<u64>)
    requires
        call_ensures(retry_dispatch, (None::<JobState>,), r),
    ensures
        r is None,
{
}

/// The timer of a new attempt is armed exactly when the record says that one is
/// due, and for the delay it was given.
pub proof fn law_timer_follows_the_record(
    recorded: Option<DispatchFailureOutcome>,
    delay: u64,
    r: Option<u64>,
)
    requires
        call_ensures(arm_retry, (recorded, delay), r),
    ensures
        r is Some <==> recorded is Some && recorded->0 is RetryScheduled,
        r matches Some(secs) ==> secs == delay,
{
}

/// A job's first turn goes on only as long as all goes well: a missing session
/// or a run that cannot be stored ends the firing with that very error, with
/// the admission gate let go and nothing else done. When the run is stored, the
/// gate is let go first, the run is announced as one that waits for nobody, its
/// episode is open and its token registered before it is executed, and it is
/// executed once.
pub proof fn law_first_turn_is_prepared_before_it_runs(
    phase: DispatchPhase<String>,
    result: Result<(), String>,
    next: DispatchPhase<String>,
    effects: Vec<DispatchEffect>,
)
    requires
        call_ensures(dispatch_job_run, (phase, result), (next, effects)),
    ensures
        ({
            let list = effects@;
            let asked = phase is Rechecking || phase is Inserting;
            &&& phase is Rechecking && result is Ok ==> next is Inserting && list.len() == 0
            &&& asked ==> (result matches Err(e) ==> (next matches DispatchPhase::Failed(m) && m@
                == e@) && list.len() == 1 && list[0] is ReleaseGate)
            &&& phase is Inserting && result is Ok ==> {
                &&& next is Dispatched
                &&& list.len() == 5
                &&& list[0] is ReleaseGate
                &&& list[1] == (DispatchEffect::PublishCreated { queued_behind: 0 })
                &&& list[2] is OpenEpisode
                &&& list[3] is RegisterToken
                &&& list[4] is Execute
            }
            &&& !asked ==> next@ == phase@ && list.len() == 0
        }),
{
}

/// The end of a run that belongs to no job, and the loss of a turn that belongs
/// to none, leave every episode as it is.
pub proof fn law_run_without_job_touches_no_episode(
    tracker: &mut JobEpisodeTracker,
    run: RunId,
    records: Vec<ToolCallRecord>,
    r: RunCompletion,
)
    ensures
        call_ensures(finish_episode_run, (tracker, None::<JobId>, run, &records), r) ==> r
            is Untracked && final(tracker)@ == old(tracker)@,
        call_ensures(abandon_episode_continuation, (tracker, None::<JobId>), r) ==> r is Untracked
            && final(tracker)@ == old(tracker)@,
{
}

/// The end of a job's run is, to the episode of that job, the end of a turn
/// that opened the conversations and started the subagents that its tool calls
/// show.
pub proof fn law_run_reports_the_work_it_started(
    tracker: &mut JobEpisodeTracker,
    other: &mut JobEpisodeTracker,
    job: JobId,
    run: RunId,
    records: Vec<ToolCallRecord>,
    dms: Vec<SessionId>,
    subagents: Vec<(TaskId, SessionId)>,
    r: RunCompletion,
    same: RunCompletion,
)
    requires
        call_ensures(finish_episode_run, (tracker, Some(job), run, &records), r),
        call_ensures(dms_opened, (&records,), dms),
        call_ensures(subagents_spawned, (&records,), subagents),
        old(other)@ == old(tracker)@,
        call_ensures(JobEpisodeTracker::on_run_complete, (other, job, run, dms, subagents), same),
    ensures
        final(tracker)@ == final(other)@,
        r is Untracked <==> same is Untracked,
        r is Open <==> same is Open,
        r matches RunCompletion::Closed(episode) ==> (same matches RunCompletion::Closed(twin)
            && episode@ == twin@),
{
    assert(r@ == same@);
}

/// A turn that is lost to a job is a turn given up by the job's episode.
pub proof fn law_lost_turn_is_given_up(
    tracker: &mut JobEpisodeTracker,
    other: &mut JobEpisodeTracker,
    job: JobId,
    r: RunCompletion,
    same: RunCompletion,
)
    requires
        call_ensures(abandon_episode_continuation, (tracker, Some(job)), r),
        old(other)@ == old(tracker)@,
        call_ensures(JobEpisodeTracker::abandon_reserved_continuation, (other, job), same),
    ensures
        final(tracker)@ == final(other)@,
        r is Untracked <==> same is Untracked,
        r is Open <==> same is Open,
        r matches RunCompletion::Closed(episode) ==> (same matches RunCompletion::Closed(twin)
            && episode@ == twin@),
{
    assert(r@ == same@);
}

/// Which subagents are pending after more were started.
proof fn lemma_started_subagents(
    pending: Map<TaskId, SessionId>,
    started: Seq<(TaskId, SessionId)>,
)
    ensures
        forall|task: TaskId| #[trigger]
            with_subagents(pending, started).contains_key(task) <==> pending.contains_key(task)
                || exists|i: int| 0 <= i < started.len() && (#[trigger] started[i]).0 == task,
        forall|task: TaskId|
            (forall|i: int| 0 <= i < started.len() ==> (#[trigger] started[i]).0 != task)
                && pending.contains_key(task) ==> #[trigger] with_subagents(pending, started)[task]
                == pending[task],
        forall|i: int|
            0 <= i < started.len() && (forall|j: int|
                i < j < started.len() ==> (#[trigger] started[j]).0 != started[i].0)
                ==> with_subagents(pending, started)[(#[trigger] started[i]).0] == started[i].1,
    decreases started.len(),
{
    if started.len() > 0 {
        let rest = started.drop_last();
        lemma_started_subagents(pending, rest);
        let last = started.len() - 1;
        let all = with_subagents(pending, started);
        assert forall|task: TaskId| #[trigger] all.contains_key(task) <==> pending.contains_key(task)
            || exists|i: int| 0 <= i < started.len() && (#[trigger] started[i]).0 == task by {
            if all.contains_key(task) && !pending.contains_key(task) {
                if task == started[last].0 {
                } else {
                    assert(with_subagents(pending, rest).contains_key(task));
                    let i = choose|i: int| 0 <= i < rest.len() && (#[trigger] rest[i]).0 == task;
                    assert(started[i].0 == task);
                }
            }
            if pending.contains_key(task) {
                assert(with_subagents(pending, rest).contains_key(task));
            }
            if exists|i: int| 0 <= i < started.len() && (#[trigger] started[i]).0 == task {
                let i = choose|i: int| 0 <= i < started.len() && (#[trigger] started[i]).0 == task;
                if i < last {
                    assert(rest[i].0 == task);
                    assert(with_subagents(pending, rest).contains_key(task));
                }
            }
        }
        assert forall|task: TaskId|
            (forall|i: int| 0 <= i < started.len() ==> (#[trigger] started[i]).0 != task)
                && pending.contains_key(task) implies #[trigger] all[task] == pending[task] by {
            assert(started[last].0 != task);
            assert forall|i: int| 0 <= i < rest.len() implies (#[trigger] rest[i]).0 != task by {
                assert(started[i].0 != task);
            }
            assert(with_subagents(pending, rest)[task] == pending[task]);
        }
        assert forall|i: int|
            0 <= i < started.len() && (forall|j: int|
                i < j < started.len() ==> (#[trigger] started[j]).0 != started[i].0) implies all[(
        #[trigger] started[i]).0] == started[i].1 by {
            if i < last {
                assert(started[last].0 != started[i].0);
                assert(rest[i] == started[i]);
                assert forall|j: int| i < j < rest.len() implies (#[trigger] rest[j]).0
                    != rest[i].0 by {
                    assert(started[j].0 != started[i].0);
                }
                assert(with_subagents(pending, rest)[rest[i].0] == rest[i].1);
            }
        }
    }
}

/// What the end of a turn does to an episode: the turn gives up its place, is
/// remembered as reported, and leaves exactly the work it started in addition
/// to what was pending. The episode stays open if and only if a turn or some
/// work is left; otherwise it is handed over and no longer tracked. A turn that
/// was reported before, or belongs to no open episode, changes nothing. No
/// other episode is touched.
pub proof fn law_turn_end_hands_over_its_work(
    tracker: &mut JobEpisodeTracker,
    job: JobId,
    run: RunId,
    dms: Vec<SessionId>,
    subagents: Vec<(TaskId, SessionId)>,
    r: RunCompletion,
    other: JobId,
)
    requires
        call_ensures(JobEpisodeTracker::on_run_complete, (tracker, job, run, dms, subagents), r),
    ensures
        !old(tracker)@.contains_key(job) ==> r is Untracked && final(tracker)@ == old(tracker)@,
        old(tracker)@.contains_key(job) && old(tracker)@[job].finished_runs.contains(run) ==> r
            is Open && final(tracker)@ == old(tracker)@,
        other != job ==> (final(tracker)@.contains_key(other) <==> old(tracker)@.contains_key(
            other,
        )),
        other != job && old(tracker)@.contains_key(other) ==> final(tracker)@[other] == old(
            tracker,
        )@[other],
        old(tracker)@.contains_key(job) && !old(tracker)@[job].finished_runs.contains(run) ==> {
            &&& r is Open <==> final(tracker)@.contains_key(job)
            &&& r is Closed <==> !final(tracker)@.contains_key(job)
            &&& r is Open ==> took_in(
                old(tracker)@[job],
                final(tracker)@[job],
                run,
                dms@,
                subagents@,
            ) && !at_rest(final(tracker)@[job])
            &&& r matches RunCompletion::Closed(episode) ==> took_in(
                old(tracker)@[job],
                episode@,
                run,
                dms@,
                subagents@,
            ) && at_rest(episode@)
        },
{
    if old(tracker)@.contains_key(job) {
        lemma_started_subagents(old(tracker)@[job].pending_subagents, subagents@);
    }
}

/// Nothing is pending, and no turn is queued or running.
pub open spec fn at_rest(episode: EpisodeView) -> bool {
    &&& forall|dm: SessionId| !(#[trigger] episode.pending_dms.contains(dm))
    &&& forall|task: TaskId| !(#[trigger] episode.pending_subagents.contains_key(task))
    &&& episode.in_flight_runs == 0
}

/// `after` is an episode once one of its turns ended and left this work behind.
pub open spec fn took_in(
    before: EpisodeView,
    after: EpisodeView,
    run: RunId,
    dms: Seq<SessionId>,
    subagents: Seq<(TaskId, SessionId)>,
) -> bool {
    &&& same_place(before, after)
    &&& after.runs == before.runs
    &&& after.catch_up_queued == before.catch_up_queued
    &&& after.finished_runs == before.finished_runs.insert(run)
    &&& before.in_flight_runs > 0 ==> after.in_flight_runs + 1 == before.in_flight_runs
    &&& before.in_flight_runs == 0 ==> after.in_flight_runs == 0
    &&& forall|dm: SessionId| #[trigger]
        after.pending_dms.contains(dm) <==> before.pending_dms.contains(dm) || dms.contains(dm)
    &&& forall|task: TaskId| #[trigger]
        after.pending_subagents.contains_key(task) <==> before.pending_subagents.contains_key(task)
            || exists|i: int| 0 <= i < subagents.len() && (#[trigger] subagents[i]).0 == task
    &&& forall|i: int|
        0 <= i < subagents.len() && (forall|j: int|
            i < j < subagents.len() ==> (#[trigger] subagents[j]).0 != subagents[i].0)
            ==> after.pending_subagents[(#[trigger] subagents[i]).0] == subagents[i].1
    &&& before.consistent() ==> after.dm_total - before.dm_total == after.pending_dms.len()
        - before.pending_dms.len()
    &&& before.consistent() ==> after.subagent_total - before.subagent_total
        == after.pending_subagents.dom().len() - before.pending_subagents.dom().len()
}

/// Giving up a reserved turn takes one turn from the episode of that job and
/// nothing else; the episode closes if and only if nothing is left of it.
pub proof fn law_abandoned_turn_leaves_the_work(
    tracker: &mut JobEpisodeTracker,
    job: JobId,
    r: RunCompletion,
    other: JobId,
)
    requires
        call_ensures(JobEpisodeTracker::abandon_reserved_continuation, (tracker, job), r),
    ensures
        !old(tracker)@.contains_key(job) ==> r is Untracked && final(tracker)@ == old(tracker)@,
        other != job ==> (final(tracker)@.contains_key(other) <==> old(tracker)@.contains_key(
            other,
        )),
        other != job && old(tracker)@.contains_key(other) ==> final(tracker)@[other] == old(
            tracker,
        )@[other],
        old(tracker)@.contains_key(job) ==> {
            let before = old(tracker)@[job];
            &&& r is Open <==> final(tracker)@.contains_key(job)
            &&& r is Closed <==> !final(tracker)@.contains_key(job)
            &&& r is Open ==> gave_up(before, final(tracker)@[job]) && !at_rest(
                final(tracker)@[job],
            )
            &&& r matches RunCompletion::Closed(episode) ==> gave_up(before, episode@) && at_rest(
                episode@,
            )
        },
{
}

/// `after` is an episode with one reserved turn fewer.
pub open spec fn gave_up(before: EpisodeView, after: EpisodeView) -> bool {
    &&& same_place(before, after)
    &&& same_work(before, after)
    &&& after.runs == before.runs
    &&& after.finished_runs == before.finished_runs
    &&& after.catch_up_queued == before.catch_up_queued
    &&& before.in_flight_runs > 0 ==> after.in_flight_runs + 1 == before.in_flight_runs
    &&& before.in_flight_runs == 0 ==> after.in_flight_runs == 0
}

/// A job's own route: it leads to the session of the job's episode.
pub open spec fn leads_home(route: ContinuationRoute, episode: EpisodeView) -> bool {
    &&& route.job_id == episode.job_id
    &&& route.job_session_id == episode.session_id
    &&& job_of_context(route.context_id@) == Some(episode.job_id)
}

/// The end of a conversation reaches exactly the episodes of that agent that
/// waited for it. Each of them stops waiting for it, has one more turn reserved
/// and gets one route to its own session; nothing else changes in it, and no
/// other episode changes at all.
pub proof fn law_conversation_end_reaches_who_waited(
    tracker: &mut JobEpisodeTracker,
    dm: SessionId,
    agent: AgentId,
    routes: Vec<ContinuationRoute>,
    job: JobId,
)
    requires
        call_ensures(JobEpisodeTracker::resolve_dm, (tracker, dm, agent), routes),
        old(tracker)@.contains_key(job),
        old(tracker)@[job].job_id == job,
    ensures
        final(tracker)@.contains_key(job),
        ({
            let before = old(tracker)@[job];
            let after = final(tracker)@[job];
            let waited = before.agent_id == agent && before.pending_dms.contains(dm);
            &&& waited <==> exists|i: int|
                0 <= i < routes@.len() && (#[trigger] routes@[i]).job_id == job
            &&& forall|i: int|
                0 <= i < routes@.len() && (#[trigger] routes@[i]).job_id == job ==> leads_home(
                    routes@[i],
                    before,
                )
            &&& forall|i: int, j: int|
                0 <= i < j < routes@.len() ==> (#[trigger] routes@[i]).job_id != (
                #[trigger] routes@[j]).job_id
            &&& !waited ==> after == before
            &&& waited ==> {
                &&& same_place(before, after)
                &&& after.pending_dms == before.pending_dms.remove(dm)
                &&& after.pending_subagents == before.pending_subagents
                &&& after.in_flight_runs == before.in_flight_runs + 1
                &&& after.runs == before.runs
                &&& after.finished_runs == before.finished_runs
                &&& after.dm_total == before.dm_total
                &&& after.subagent_total == before.subagent_total
                &&& after.catch_up_queued == before.catch_up_queued
            }
        }),
{
    law_job_context_reads_back(job);
    let before = old(tracker)@[job];
    if before.agent_id == agent && before.pending_dms.contains(dm) {
        assert(awaits_dm(old(tracker)@, job, dm, agent));
    }
}

/// The end of a background subagent reaches an episode that waited for its task
/// if there is one, and no more than one: that episode stops waiting for it,
/// has one more turn reserved and gets a route to its own session. If none
/// waited, nothing changes.
pub proof fn law_subagent_end_reaches_who_waited(
    tracker: &mut JobEpisodeTracker,
    task: TaskId,
    r: Option<ContinuationRoute>,
    job: JobId,
)
    requires
        call_ensures(JobEpisodeTracker::resolve_subagent, (tracker, task), r),
        old(tracker)@.contains_key(job),
        old(tracker)@[job].job_id == job,
    ensures
        final(tracker)@.contains_key(job),
        old(tracker)@[job].pending_subagents.contains_key(task) ==> r is Some,
        (r is None || r->0.job_id != job) ==> final(tracker)@[job] == old(tracker)@[job],
        r is Some && r->0.job_id == job ==> {
            let before = old(tracker)@[job];
            let after = final(tracker)@[job];
            &&& before.pending_subagents.contains_key(task)
            &&& leads_home(r->0, before)
            &&& same_place(before, after)
            &&& after.pending_subagents == before.pending_subagents.remove(task)
            &&& after.pending_dms == before.pending_dms
            &&& after.in_flight_runs == before.in_flight_runs + 1
            &&& after.runs == before.runs
            &&& after.finished_runs == before.finished_runs
            &&& after.dm_total == before.dm_total
            &&& after.subagent_total == before.subagent_total
            &&& after.catch_up_queued == before.catch_up_queued
        },
{
    law_job_context_reads_back(job);
    if r is None {
        assert(!awaits_subagent(old(tracker)@, job, task));
    }
}

/// Exactly the episodes whose deadline has come are drained; each is handed
/// over once and as it was, and the others stay as they are.
pub proof fn law_deadline_drains_exactly_the_expired(
    tracker: &mut JobEpisodeTracker,
    now: u64,
    expired: Vec<JobEpisode>,
    job: JobId,
)
    requires
        call_ensures(JobEpisodeTracker::take_expired, (tracker, now), expired),
        old(tracker)@.contains_key(job),
    ensures
        ({
            let before = old(tracker)@[job];
            &&& final(tracker)@.contains_key(job) <==> before.deadline > now
            &&& final(tracker)@.contains_key(job) ==> final(tracker)@[job] == before
            &&& before.deadline <= now ==> exists|i: int|
                0 <= i < expired@.len() && (#[trigger] expired@[i])@ == before
            &&& forall|i: int|
                0 <= i < expired@.len() ==> (#[trigger] expired@[i])@.deadline <= now
            &&& forall|i: int, j: int|
                0 <= i < j < expired@.len() ==> (#[trigger] expired@[i])@.job_id != (
                #[trigger] expired@[j])@.job_id
        }),
{
    let before = old(tracker)@[job];
    if before.deadline <= now {
        assert(old(tracker)@.contains_key(job) && old(tracker)@[job].deadline <= now);
        let i = choose|i: int| 0 <= i < expired@.len() && (#[trigger] expired@[i])@.job_id == job;
        assert(expired@[i]@ == before);
    }
}

/// A fresh episode waits for nothing but its first turn, which is its only run,
/// and expires after the registry's deadline.
pub proof fn law_fresh_episode_waits_for_its_turn(
    tracker: &mut JobEpisodeTracker,
    job: JobId,
    session: SessionId,
    agent: AgentId,
    turn: RunId,
    started_at: Nanos,
    now: u64,
    other: JobId,
)
    requires
        now + old(tracker).deadline <= u64::MAX,
        call_ensures(
            JobEpisodeTracker::open,
            (tracker, job, session, agent, turn, started_at, now),
            (),
        ),
    ensures
        final(tracker)@.contains_key(job),
        ({
            let fresh = final(tracker)@[job];
            &&& fresh.job_id == job
            &&& fresh.session_id == session
            &&& fresh.agent_id == agent
            &&& fresh.started_at == started_at
            &&& fresh.deadline == now + old(tracker).deadline
            &&& fresh.in_flight_runs == 1
            &&& fresh.runs.len() == 1 && fresh.runs[0] == turn
            &&& !fresh.finished_runs.contains(turn)
            &&& forall|dm: SessionId| !(#[trigger] fresh.pending_dms.contains(dm))
            &&& forall|task: TaskId| !(#[trigger] fresh.pending_subagents.contains_key(task))
            &&& fresh.dm_total == 0 && fresh.subagent_total == 0
            &&& !fresh.catch_up_queued
        }),
        other != job ==> (final(tracker)@.contains_key(other) <==> old(tracker)@.contains_key(
            other,
        )),
        other != job && old(tracker)@.contains_key(other) ==> final(tracker)@[other] == old(
            tracker,
        )@[other],
{
}

/// A cancelled job's episode is handed over as it was and tracked no longer;
/// the others stay.
pub proof fn law_removed_episode_is_handed_over(
    tracker: &mut JobEpisodeTracker,
    job: JobId,
    r: Option<JobEpisode>,
    other: JobId,
)
    requires
        call_ensures(JobEpisodeTracker::remove, (tracker, job), r),
    ensures
        r is Some <==> old(tracker)@.contains_key(job),
        r matches Some(episode) ==> episode@ == old(tracker)@[job],
        !final(tracker)@.contains_key(job),
        other != job ==> (final(tracker)@.contains_key(other) <==> old(tracker)@.contains_key(
            other,
        )),
        other != job && old(tracker)@.contains_key(other) ==> final(tracker)@[other] == old(
            tracker,
        )@[other],
{
}

/// What an observer sees of an episode is what stands in the registry; the
/// seconds that are left are whole ones, and none after the deadline.
pub proof fn law_snapshot_shows_the_registry(
    tracker: JobEpisodeTracker,
    job: JobId,
    now: u64,
    r: Option<EpisodeSnapshot>,
)
    requires
        call_ensures(JobEpisodeTracker::snapshot, (&tracker, job, now), r),
    ensures
        r is Some <==> tracker@.contains_key(job),
        r matches Some(seen) ==> {
            let episode = tracker@[job];
            let left = seen.deadline_remaining_secs as int * 1_000_000_000;
            &&& seen.pending_dms == episode.pending_dms.len()
            &&& seen.pending_subagents == episode.pending_subagents.dom().len()
            &&& seen.in_flight_runs == episode.in_flight_runs
            &&& seen.runs == episode.runs.len()
            &&& seen.catch_up_queued == episode.catch_up_queued
            &&& episode.deadline >= now ==> left <= episode.deadline - now < left + 1_000_000_000
            &&& episode.deadline <= now ==> left == 0
            &&& seen.started_at@ == instant_text(episode.started_at)
        },
{
}

/// A conversation counts as opened exactly when the message was delivered and
/// the session that is named can be read; a subagent exactly when nothing
/// failed and task and session are both named and can be read.
pub proof fn law_work_is_read_off_good_results(
    delivered: Option<bool>,
    named: Option<String>,
    dm: Option<SessionId>,
    failed: bool,
    task: Option<String>,
    session: Option<String>,
    subagent: Option<(TaskId, SessionId)>,
)
    requires
        call_ensures(dm_of_result, (delivered, named), dm),
        call_ensures(subagent_of_result, (failed, task, session), subagent),
    ensures
        dm is Some ==> delivered == Some(true),
        delivered == Some(true) ==> match named {
            Some(text) => dm == parsed_uuid(text@),
            None => dm is None,
        },
        failed ==> subagent is None,
        task is None || session is None ==> subagent is None,
        !failed ==> (task matches Some(t) ==> (session matches Some(s) ==> {
            let a = parsed_uuid(t@);
            let b = parsed_uuid(s@);
            &&& subagent is Some <==> a is Some && b is Some
            &&& subagent matches Some(entry) ==> entry.0 == a->0 && entry.1 == b->0
        })),
{
}

/// What two stretches of records show together.
proof fn lemma_work_adds_up(first: Seq<ToolCallRecord>, second: Seq<ToolCallRecord>)
    ensures
        dms_in(first + second) == dms_in(first) + dms_in(second),
        subagents_in(first + second) == subagents_in(first) + subagents_in(second),
    decreases second.len(),
{
    if second.len() == 0 {
        assert(first + second =~= first);
        assert(dms_in(first) + dms_in(second) =~= dms_in(first));
        assert(subagents_in(first) + subagents_in(second) =~= subagents_in(first));
    } else {
        let rest = second.drop_last();
        lemma_work_adds_up(first, rest);
        assert((first + second).drop_last() =~= first + rest);
        assert(dms_in(first + second) =~= dms_in(first) + dms_in(second));
        assert(subagents_in(first + second) =~= subagents_in(first) + subagents_in(second));
    }
}

/// The conversations and subagents that the records of two stretches of a run
/// show are those of the first stretch and then those of the second.
pub proof fn law_work_adds_up(
    first: Vec<ToolCallRecord>,
    second: Vec<ToolCallRecord>,
    both: Vec<ToolCallRecord>,
    dms: (Vec<SessionId>, Vec<SessionId>, Vec<SessionId>),
    subagents: (Vec<(TaskId, SessionId)>, Vec<(TaskId, SessionId)>, Vec<(TaskId, SessionId)>),
)
    requires
        both@ == first@ + second@,
        call_ensures(dms_opened, (&first,), dms.0),
        call_ensures(dms_opened, (&second,), dms.1),
        call_ensures(dms_opened, (&both,), dms.2),
        call_ensures(subagents_spawned, (&first,), subagents.0),
        call_ensures(subagents_spawned, (&second,), subagents.1),
        call_ensures(subagents_spawned, (&both,), subagents.2),
    ensures
        dms.2@ == dms.0@ + dms.1@,
        subagents.2@ == subagents.0@ + subagents.1@,
{
    lemma_work_adds_up(first@, second@);
}

/// One record shows a conversation only if it is the result of sending a
/// message, and a subagent only if it is the result of invoking an agent; what
/// it shows is what its result says.
pub proof fn law_record_shows_what_its_tool_did(
    record: ToolCallRecord,
    dms: Vec<SessionId>,
    subagents: Vec<(TaskId, SessionId)>,
    records: Vec<ToolCallRecord>,
)
    requires
        records@ == seq![record],
        call_ensures(dms_opened, (&records,), dms),
        call_ensures(subagents_spawned, (&records,), subagents),
    ensures
        ({
            let is_result = record.role == ToolCallRole::Tool && record.result is Some
                && record.tool_name is Some;
            let name = record.tool_name->0@;
            let raw = record.result->0@;
            &&& dms@.len() > 0 ==> is_result && name == "send_message"@
            &&& subagents@.len() > 0 ==> is_result && name == "invoke_agent"@
            &&& is_result && name == "send_message"@ ==> {
                let target = json_text(raw, "dm_session_id"@);
                let opened = json_flag(raw, "delivered"@) == Some(true) && target is Some
                    && parsed_uuid(target->0) is Some;
                &&& dms@.len() == if opened {
                    1nat
                } else {
                    0nat
                }
                &&& opened ==> dms@[0] == parsed_uuid(target->0)->0
            }
            &&& is_result && name == "invoke_agent"@ ==> {
                let task = json_text(raw, "task_id"@);
                let session = json_text(raw, "session_id"@);
                let sent = !json_has(raw, "error"@) && task is Some && session is Some
                    && parsed_uuid(task->0) is Some && parsed_uuid(
                    session->0,
                ) is Some;
                &&& subagents@.len() == if sent {
                    1nat
                } else {
                    0nat
                }
                &&& sent ==> subagents@[0] == (
                    parsed_uuid(task->0)->0,
                    parsed_uuid(session->0)->0,
                )
            }
        }),
{
    assert(records@.drop_last() =~= Seq::empty());
    assert(records@.last() == record);
    reveal_with_fuel(dms_in, 2);
    reveal_with_fuel(subagents_in, 2);
}

/// When an episode closes, a job that runs once is over, and its record says
/// whether it ran into its deadline. A recurring job stays active: it runs again
/// at once if an occurrence passed or a firing was absorbed while the episode
/// was open, and otherwise at its next occurrence.
pub proof fn law_close_writes_what_became_of_the_job(
    schedule: Schedule,
    absorbed: bool,
    timed_out: bool,
    now: Nanos,
    state: RearmState,
    write: CloseWrite,
)
    requires
        call_ensures(begin_close, (schedule, absorbed, timed_out, now), (state, write)),
    ensures
        state.attempt == 1,
        state.schedule == schedule && state.catch_up_queued == absorbed,
        state.timed_out == timed_out && state.now == now,
        schedule is Once ==> {
            &&& write.status is Completed
            &&& write.next_run_at is None
            &&& write.terminal_reason == Some(
                if timed_out {
                    TerminalReason::DeadlineReached
                } else {
                    TerminalReason::Completed
                },
            )
        },
        schedule matches Schedule::Recurring { after_start, next } ==> {
            let late = absorbed || (after_start is Some && after_start->0 <= now);
            &&& write.status is Active
            &&& write.terminal_reason is None
            &&& late ==> write.next_run_at == Some(now)
            &&& !late ==> write.next_run_at == next
        },
{
}

/// The job is armed for `next`, counted from `now`, and not at all when it has
/// no next occurrence.
pub open spec fn arms(effects: Seq<RearmEffect>, next: Option<Nanos>, now: Nanos) -> bool {
    match next {
        Some(at) => effects.len() == 1 && (effects[0] matches RearmEffect::ArmAfter(wait) && wait
            == if at > now {
            at - now
        } else {
            0
        }),
        None => effects.len() == 0,
    }
}

/// A close that was recorded fires a recurring job once if it is late, and
/// otherwise arms it for its next occurrence; a job that runs once is left
/// alone, and so is one that was cancelled or removed meanwhile. A write that
/// failed is repeated after a tenth and then after a fifth of a second. After
/// the third failure the close is counted as lost, and a recurring job is still
/// armed for its next occurrence.
pub proof fn law_recurring_job_never_stops_silently(
    state: RearmState,
    written: Option<RecordOutcome>,
    next_state: RearmState,
    effects: Vec<RearmEffect>,
)
    requires
        state.valid(),
        call_ensures(record_and_rearm, (state, written), (next_state, effects)),
    ensures
        next_state == (RearmState { attempt: next_state.attempt, ..state }),
        state.attempt == 0 ==> next_state.attempt == 0 && effects@.len() == 0,
        state.attempt > 0 && written is Some ==> next_state.attempt == 0,
        state.attempt > 0 && (written == Some(RecordOutcome::RefusedTerminal) || written == Some(
            RecordOutcome::NotFound,
        )) ==> effects@.len() == 0,
        state.attempt > 0 && written == Some(RecordOutcome::Recorded) ==> {
            &&& state.schedule is Once ==> effects@.len() == 0
            &&& state.schedule matches Schedule::Recurring { after_start, next } ==> {
                let late = state.catch_up_queued || (after_start is Some && after_start->0
                    <= state.now);
                &&& late ==> effects@.len() == 1 && effects@[0] is FireNow
                &&& !late ==> arms(effects@, next, state.now)
            }
        },
        state.attempt == 1 && written is None ==> next_state.attempt == 2 && effects@.len() == 1
            && effects@[0] == RearmEffect::RetryAfter(100),
        state.attempt == 2 && written is None ==> next_state.attempt == 3 && effects@.len() == 1
            && effects@[0] == RearmEffect::RetryAfter(200),
        state.attempt == 3 && written is None ==> {
            &&& next_state.attempt == 0
            &&& effects@.len() >= 1 && effects@[0] is CountFailure
            &&& state.schedule is Once ==> effects@.len() == 1
            &&& state.schedule matches Schedule::Recurring { next, .. } ==> arms(
                effects@.subrange(1, effects@.len() as int),
                next,
                state.now,
            )
        },
{
    reveal_with_fuel(doubled, 3);
}

/// A job can still run exactly when it is there and not over.
pub proof fn law_only_jobs_that_are_not_over_are_live(job: Option<JobState>, r: bool)
    requires
        call_ensures(is_live, (job,), r),
    ensures
        r <==> job is Some && !job->0.terminal,
{
}

/// An episode is at rest exactly when it waits for no conversation, no subagent
/// and no turn; what it waits for besides turns is counted.
pub proof fn law_rest_means_nothing_is_pending(
    episode: JobEpisode,
    resting: bool,
    pending: usize,
    dm: SessionId,
    task: TaskId,
)
    requires
        episode@.consistent(),
        call_ensures(JobEpisode::is_quiescent, (&episode,), resting),
        call_ensures(JobEpisode::pending_count, (&episode,), pending),
    ensures
        resting ==> !episode@.pending_dms.contains(dm) && !episode@.pending_subagents.contains_key(
            task,
        ) && episode@.in_flight_runs == 0 && pending == 0,
        pending == 0 && episode@.in_flight_runs == 0 ==> resting,
        pending == episode@.pending_dms.len() + episode@.pending_subagents.dom().len(),
{
    if resting {
        assert(episode@.pending_dms == Set::<SessionId>::empty());
        assert(episode@.pending_subagents.dom() =~= Set::<TaskId>::empty());
    }
    if pending == 0 {
        episode@.pending_dms.lemma_len0_is_empty();
        episode@.pending_subagents.dom().lemma_len0_is_empty();
        assert(episode@.pending_dms =~= Set::empty());
        assert(episode@.pending_subagents =~= Map::empty());
    }
}

/// A firing is absorbed exactly by an open episode of its own job, which will
/// catch up on it; nothing else changes.
pub proof fn law_open_episode_absorbs_its_firing(
    tracker: &mut JobEpisodeTracker,
    job: JobId,
    r: bool,
    other: JobId,
)
    requires
        call_ensures(JobEpisodeTracker::absorb_fire_if_open, (tracker, job), r),
    ensures
        r <==> old(tracker)@.contains_key(job),
        final(tracker)@.contains_key(other) <==> old(tracker)@.contains_key(other),
        other != job && old(tracker)@.contains_key(other) ==> final(tracker)@[other] == old(
            tracker,
        )@[other],
        r ==> {
            let before = old(tracker)@[job];
            let after = final(tracker)@[job];
            &&& after.catch_up_queued
            &&& same_place(before, after)
            &&& same_work(before, after)
            &&& after.runs == before.runs
            &&& after.finished_runs == before.finished_runs
            &&& after.in_flight_runs == before.in_flight_runs
        },
{
}

/// There is room for more work exactly when no counter of an open episode would
/// pass the machine's limit.
pub proof fn law_room_is_what_the_counters_leave(
    tracker: JobEpisodeTracker,
    n: usize,
    r: bool,
    job: JobId,
)
    requires
        call_ensures(JobEpisodeTracker::has_room, (&tracker, n), r),
        tracker@.contains_key(job),
    ensures
        r ==> tracker@[job].in_flight_runs + n <= usize::MAX && tracker@[job].dm_total
            + tracker@[job].subagent_total + n <= usize::MAX,
        !r ==> exists|full: JobId| #[trigger]
            tracker@.contains_key(full) && (tracker@[full].in_flight_runs + n > usize::MAX
                || tracker@[full].dm_total + tracker@[full].subagent_total + n > usize::MAX),
{
}

/// A new registry has no episode and keeps its deadline.
pub proof fn law_new_registry_is_empty(deadline: u64, r: JobEpisodeTracker, job: JobId)
    requires
        call_ensures(JobEpisodeTracker::new, (deadline,), r),
    ensures
        !r@.contains_key(job),
        r.deadline == deadline,
{
}

/// Whatever happens to its episodes, a registry keeps the deadline that it was
/// made with.
pub proof fn law_registry_keeps_its_deadline(
    tracker: &mut JobEpisodeTracker,
    job: JobId,
    session: SessionId,
    agent: AgentId,
    run: RunId,
    task: TaskId,
    at: Nanos,
    now: u64,
    state: Option<JobState>,
    owner: Option<JobId>,
    records: Vec<ToolCallRecord>,
    dms: Vec<SessionId>,
    subagents: Vec<(TaskId, SessionId)>,
    ended: RunCompletion,
    routes: Vec<ContinuationRoute>,
    route: Option<ContinuationRoute>,
    expired: Vec<JobEpisode>,
    removed: Option<JobEpisode>,
    absorbed: bool,
    firing: Firing,
)
    requires
        ({
            ||| call_ensures(
                JobEpisodeTracker::open,
                (tracker, job, session, agent, run, at, now),
                (),
            )
            ||| call_ensures(JobEpisodeTracker::note_run, (tracker, job, run), ())
            ||| call_ensures(
                JobEpisodeTracker::on_run_complete,
                (tracker, job, run, dms, subagents),
                ended,
            )
            ||| call_ensures(
                JobEpisodeTracker::abandon_reserved_continuation,
                (tracker, job),
                ended,
            )
            ||| call_ensures(JobEpisodeTracker::resolve_dm, (tracker, session, agent), routes)
            ||| call_ensures(JobEpisodeTracker::resolve_subagent, (tracker, task), route)
            ||| call_ensures(JobEpisodeTracker::take_expired, (tracker, now), expired)
            ||| call_ensures(JobEpisodeTracker::remove, (tracker, job), removed)
            ||| call_ensures(JobEpisodeTracker::absorb_fire_if_open, (tracker, job), absorbed)
            ||| call_ensures(fire_job_run, (tracker, job, state), firing)
            ||| call_ensures(finish_episode_run, (tracker, owner, run, &records), ended)
            ||| call_ensures(abandon_episode_continuation, (tracker, owner), ended)
        }),
    ensures
        final(tracker).deadline == old(tracker).deadline,
{
}

} // verus!
