//! What holds of job episodes across several operations.

use crate::clock::Nanos;
use crate::ids::{job_of_context, law_job_context_reads_back, AgentId, JobId, RunId, SessionId, TaskId};
use crate::job_episode::{
    after_dm, after_subagent, after_turn, awaits_dm, dm_resolved, opened, routes_to, settle,
    turn_abandoned, turn_ended, with_subagents, CompletionView, ContinuationRoute,
    EpisodeView, Episodes,
};
use vstd::prelude::*;

verus! {

/// A turn that starts no asynchronous work closes the episode it opened, and
/// the episode is no longer tracked.
pub proof fn law_no_async_work_closes_at_turn_end(
    episodes: Episodes,
    job: JobId,
    session: SessionId,
    agent: AgentId,
    turn: RunId,
    started_at: Nanos,
    deadline: u64,
)
    ensures
        ({
            let fresh = opened(job, session, agent, turn, started_at, deadline);
            let (result, after) = turn_ended(
                episodes.insert(job, fresh),
                job,
                turn,
                Seq::empty(),
                Seq::empty(),
            );
            &&& result matches CompletionView::Closed(ep)
            &&& ep.runs == seq![turn]
            &&& ep.dm_total == 0
            &&& ep.subagent_total == 0
            &&& !after.contains_key(job)
        }),
{
}

/// An episode closes only when nothing is left: no conversation, no subagent,
/// no turn. It is not tracked any more then.
pub proof fn law_closes_only_at_rest(
    episodes: Episodes,
    job: JobId,
    turn: RunId,
    dms: Seq<SessionId>,
    subagents: Seq<(TaskId, SessionId)>,
)
    ensures
        turn_ended(episodes, job, turn, dms, subagents).0 matches CompletionView::Closed(ep)
            ==> ep.quiescent() && dms.len() == 0 && subagents.len() == 0
            && episodes[job].pending_dms =~= Set::empty() && episodes[job].pending_subagents
            =~= Map::empty() && episodes[job].in_flight_runs <= 1 && !turn_ended(
            episodes,
            job,
            turn,
            dms,
            subagents,
        ).1.contains_key(job),
        turn_abandoned(episodes, job).0 matches CompletionView::Closed(ep) ==> ep.quiescent()
            && !turn_abandoned(episodes, job).1.contains_key(job),
{
    if let CompletionView::Closed(ep) = turn_ended(episodes, job, turn, dms, subagents).0 {
        let before = episodes[job];
        let union = before.pending_dms.union(dms.to_set());
        if dms.len() > 0 {
            assert(union.contains(dms[0]));
        }
        let all = with_subagents(before.pending_subagents, subagents);
        if subagents.len() > 0 {
            assert(all.contains_key(subagents.last().0));
        }
    }
}

/// Reporting the end of a turn again changes nothing: it neither closes the
/// episode nor takes away what a continuation has reserved.
pub proof fn law_duplicate_completion_changes_nothing(
    episodes: Episodes,
    job: JobId,
    turn: RunId,
    dms: Seq<SessionId>,
    subagents: Seq<(TaskId, SessionId)>,
    more_dms: Seq<SessionId>,
    more_subagents: Seq<(TaskId, SessionId)>,
)
    requires
        turn_ended(episodes, job, turn, dms, subagents).0 is Open,
    ensures
        ({
            let after = turn_ended(episodes, job, turn, dms, subagents).1;
            turn_ended(after, job, turn, more_dms, more_subagents) == (
                CompletionView::Open,
                after,
            )
        }),
{
}

/// A later resolution leaves the mark of a reported turn in place.
pub proof fn law_duplicate_completion_spares_the_reservation(
    episodes: Episodes,
    job: JobId,
    turn: RunId,
    dm: SessionId,
    agent: AgentId,
)
    requires
        episodes.contains_key(job),
        episodes[job].finished_runs.contains(turn),
    ensures
        ({
            let resolved = dm_resolved(episodes, dm, agent);
            turn_ended(resolved, job, turn, Seq::empty(), Seq::empty()) == (
                CompletionView::Open,
                resolved,
            )
        }),
{
}

/// Between the end of a conversation and its continuation there is no gap in
/// which the episode could close: the turn of any other run that had reserved
/// its own place leaves the episode open.
pub proof fn law_resolution_leaves_no_gap(
    episodes: Episodes,
    job: JobId,
    dm: SessionId,
    agent: AgentId,
    other_turn: RunId,
    dms: Seq<SessionId>,
    subagents: Seq<(TaskId, SessionId)>,
)
    requires
        awaits_dm(episodes, job, dm, agent),
        episodes[job].in_flight_runs >= 1,
    ensures
        turn_ended(dm_resolved(episodes, dm, agent), job, other_turn, dms, subagents).0 is Open,
        !after_dm(episodes[job], dm).quiescent(),
{
}

/// Resolving a subagent reserves a turn as well, so it never brings an episode
/// to rest.
pub proof fn law_subagent_resolution_reserves(episode: EpisodeView, task: TaskId)
    ensures
        !after_subagent(episode, task).quiescent(),
        after_subagent(episode, task).in_flight_runs == episode.in_flight_runs + 1,
        !after_subagent(episode, task).pending_subagents.contains_key(task),
{
}

/// The end of a conversation is consumed once: nobody waits for it afterwards.
pub proof fn law_dm_end_is_consumed_once(
    episodes: Episodes,
    dm: SessionId,
    agent: AgentId,
    job: JobId,
)
    ensures
        !awaits_dm(dm_resolved(episodes, dm, agent), job, dm, agent),
        dm_resolved(dm_resolved(episodes, dm, agent), dm, agent) == dm_resolved(
            episodes,
            dm,
            agent,
        ),
{
}

/// The trigger of another agent leaves an episode alone, even when both take
/// part in the conversation.
pub proof fn law_peer_does_not_consume(
    episodes: Episodes,
    dm: SessionId,
    agent: AgentId,
    job: JobId,
)
    requires
        episodes.contains_key(job),
        episodes[job].agent_id != agent,
    ensures
        dm_resolved(episodes, dm, agent).contains_key(job),
        dm_resolved(episodes, dm, agent)[job] == episodes[job],
{
}

/// Giving up the turn that the end of a conversation reserved leaves the
/// episode as it was without that conversation.
pub proof fn law_abandoning_undoes_the_reservation(
    episodes: Episodes,
    job: JobId,
    dm: SessionId,
    agent: AgentId,
)
    requires
        awaits_dm(episodes, job, dm, agent),
    ensures
        turn_abandoned(dm_resolved(episodes, dm, agent), job) == settle(
            dm_resolved(episodes, dm, agent),
            job,
            EpisodeView {
                pending_dms: episodes[job].pending_dms.remove(dm),
                ..episodes[job]
            },
        ),
{
}

/// Conversations that several turns open, or one turn opens twice, are counted
/// once.
pub proof fn law_repeated_sends_count_once(episode: EpisodeView, turn: RunId, dm: SessionId)
    requires
        episode.consistent(),
    ensures
        after_turn(episode, turn, seq![dm, dm], Seq::empty()) == after_turn(
            episode,
            turn,
            seq![dm],
            Seq::empty(),
        ),
        episode.pending_dms.contains(dm) ==> after_turn(
            episode,
            turn,
            seq![dm],
            Seq::empty(),
        ).dm_total == episode.dm_total,
        !episode.pending_dms.contains(dm) ==> after_turn(
            episode,
            turn,
            seq![dm],
            Seq::empty(),
        ).dm_total == episode.dm_total + 1,
{
    assert(seq![dm, dm].to_set() =~= set![dm]);
    assert(seq![dm].to_set() =~= set![dm]) by {
        assert(seq![dm][0] == dm);
    }
    assert(episode.pending_dms.union(set![dm]) =~= episode.pending_dms.insert(dm));
}

/// The context id of a continuation leads back to the episode's job.
pub proof fn law_route_leads_back_to_the_job(route: ContinuationRoute, episode: EpisodeView)
    requires
        routes_to(route, episode),
    ensures
        job_of_context(route.context_id@) == Some(episode.job_id),
{
    law_job_context_reads_back(episode.job_id);
}

} // verus!
