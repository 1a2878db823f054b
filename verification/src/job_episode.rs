//! Job episodes. An episode spans a job's first turn, every piece of
//! asynchronous work that turn starts, and every follow-up turn on the job's
//! own session. The job counts as finished when the episode closes: when a
//! turn ends with nothing pending and no other turn queued or running, or
//! when the episode's deadline passes.

use crate::clock::{instant_text, to_rfc3339, valid_instant, Nanos};
use crate::ids::{job_context, job_context_id, AgentId, JobId, RunId, SessionId, TaskId};
use std::collections::{HashMap, HashSet};
use vstd::prelude::*;

verus! {

broadcast use vstd::std_specs::hash::group_hash_axioms;

/// How long an episode may stay open: four hours, in seconds.
pub const EPISODE_DEADLINE_SECS: u64 = 14_400;

/// How often expired episodes are looked for, in seconds.
pub const EPISODE_SWEEP_INTERVAL_SECS: u64 = 60;

/// Nanoseconds in a second.
pub const NANOS_PER_SEC: u64 = 1_000_000_000;

/// One open episode.
#[derive(Debug)]
pub struct JobEpisode {
    /// The job.
    pub job_id: JobId,
    /// The job's own session, on which every turn of the episode runs.
    pub session_id: SessionId,
    /// The agent that works on the job.
    pub agent_id: AgentId,
    /// When it was opened.
    pub started_at: Nanos,
    /// When it expires, in nanoseconds of the monotonic clock.
    pub deadline: u64,
    /// Direct message conversations that are still open.
    pub pending_dms: HashSet<SessionId>,
    /// Background subagents that are still at work, with their sessions.
    pub pending_subagents: HashMap<TaskId, SessionId>,
    /// Turns that are queued or running.
    pub in_flight_runs: usize,
    /// Every turn of the episode, in order.
    pub runs: Vec<RunId>,
    /// Turns whose end has been reported.
    pub finished_runs: HashSet<RunId>,
    /// How many conversations the episode opened.
    pub dm_total: usize,
    /// How many subagents the episode started.
    pub subagent_total: usize,
    /// The job fired again while the episode was open.
    pub catch_up_queued: bool,
}

/// The mathematical reading of an episode.
#[verifier::ext_equal]
pub struct EpisodeView {
    /// The job.
    pub job_id: JobId,
    /// The job's own session.
    pub session_id: SessionId,
    /// The agent that works on the job.
    pub agent_id: AgentId,
    /// When it was opened.
    pub started_at: Nanos,
    /// When it expires.
    pub deadline: u64,
    /// Conversations that are still open.
    pub pending_dms: Set<SessionId>,
    /// Subagents that are still at work.
    pub pending_subagents: Map<TaskId, SessionId>,
    /// Turns that are queued or running.
    pub in_flight_runs: nat,
    /// Every turn, in order.
    pub runs: Seq<RunId>,
    /// Turns whose end has been reported.
    pub finished_runs: Set<RunId>,
    /// How many conversations were opened.
    pub dm_total: nat,
    /// How many subagents were started.
    pub subagent_total: nat,
    /// The job fired again meanwhile.
    pub catch_up_queued: bool,
}

impl View for JobEpisode {
    type V = EpisodeView;

    open spec fn view(&self) -> EpisodeView {
        EpisodeView {
            job_id: self.job_id,
            session_id: self.session_id,
            agent_id: self.agent_id,
            started_at: self.started_at,
            deadline: self.deadline,
            pending_dms: self.pending_dms@,
            pending_subagents: self.pending_subagents@,
            in_flight_runs: self.in_flight_runs as nat,
            runs: self.runs@,
            finished_runs: self.finished_runs@,
            dm_total: self.dm_total as nat,
            subagent_total: self.subagent_total as nat,
            catch_up_queued: self.catch_up_queued,
        }
    }
}

impl EpisodeView {
    /// Nothing is pending and no turn is queued or running.
    pub open spec fn quiescent(self) -> bool {
        self.pending_dms =~= Set::empty() && self.pending_subagents =~= Map::empty()
            && self.in_flight_runs == 0
    }

    /// How much work is pending.
    pub open spec fn pending(self) -> nat {
        self.pending_dms.len() + self.pending_subagents.dom().len()
    }

    /// The counters are consistent with the work that is pending.
    pub open spec fn consistent(self) -> bool {
        &&& self.pending_dms.finite()
        &&& self.pending_subagents.dom().finite()
        &&& self.pending_dms.len() <= self.dm_total
        &&& self.pending_subagents.dom().len() <= self.subagent_total
        &&& self.dm_total + self.subagent_total <= usize::MAX
    }

    /// The counters can still grow by `n`.
    pub open spec fn room(self, n: nat) -> bool {
        &&& self.in_flight_runs + n <= usize::MAX
        &&& self.dm_total + self.subagent_total + n <= usize::MAX
    }
}

impl JobEpisode {
    /// Tells whether the episode has come to rest.
    pub fn is_quiescent(&self) -> (r: bool)
        ensures
            r == self@.quiescent(),
    {
        let r: bool = self.pending_dms.is_empty() && self.pending_subagents.is_empty()
            && self.in_flight_runs == 0;
        r
    }

    /// Counts the work that is pending.
    pub fn pending_count(&self) -> (r: usize)
        requires
            self@.consistent(),
        ensures
            r == self@.pending(),
    {
        self.pending_dms.len() + self.pending_subagents.len()
    }
}

/// What the end of a turn means for its episode.
#[derive(Debug)]
pub enum RunCompletion {
    /// The episode came to rest and is no longer tracked.
    Closed(Box<JobEpisode>),
    /// The episode stays open.
    Open,
    /// No episode is tracked for the job.
    Untracked,
}

/// The mathematical reading of a [`RunCompletion`].
#[verifier::ext_equal]
pub enum CompletionView {
    /// The episode came to rest.
    Closed(EpisodeView),
    /// The episode stays open.
    Open,
    /// No episode is tracked.
    Untracked,
}

impl View for RunCompletion {
    type V = CompletionView;

    open spec fn view(&self) -> CompletionView {
        match *self {
            RunCompletion::Closed(ep) => CompletionView::Closed(ep@),
            RunCompletion::Open => CompletionView::Open,
            RunCompletion::Untracked => CompletionView::Untracked,
        }
    }
}

/// Where the turn that continues an episode runs.
#[derive(Debug, PartialEq, Eq)]
pub struct ContinuationRoute {
    /// The job.
    pub job_id: JobId,
    /// The job's own session.
    pub job_session_id: SessionId,
    /// The context id of that session.
    pub context_id: String,
}

/// `route` leads to the session of an episode's job.
pub open spec fn routes_to(route: ContinuationRoute, episode: EpisodeView) -> bool {
    &&& route.job_id == episode.job_id
    &&& route.job_session_id == episode.session_id
    &&& route.context_id@ == job_context(episode.job_id)
}

/// A freshly opened episode: its first turn is reserved.
pub open spec fn opened(
    job: JobId,
    session: SessionId,
    agent: AgentId,
    turn: RunId,
    started_at: Nanos,
    deadline: u64,
) -> EpisodeView {
    EpisodeView {
        job_id: job,
        session_id: session,
        agent_id: agent,
        started_at,
        deadline,
        pending_dms: Set::empty(),
        pending_subagents: Map::empty(),
        in_flight_runs: 1,
        runs: seq![turn],
        finished_runs: Set::empty(),
        dm_total: 0,
        subagent_total: 0,
        catch_up_queued: false,
    }
}

/// One turn fewer, or none.
pub open spec fn one_less(n: nat) -> nat {
    if n == 0 {
        0
    } else {
        (n - 1) as nat
    }
}

/// Subagents added one by one; a task that is known keeps its place.
pub open spec fn with_subagents(
    pending: Map<TaskId, SessionId>,
    started: Seq<(TaskId, SessionId)>,
) -> Map<TaskId, SessionId>
    decreases started.len(),
{
    if started.len() == 0 {
        pending
    } else {
        with_subagents(pending, started.drop_last()).insert(started.last().0, started.last().1)
    }
}

/// An episode after one of its turns ended and left this work behind. Only
/// work that was not pending yet is counted.
pub open spec fn after_turn(
    episode: EpisodeView,
    turn: RunId,
    dms: Seq<SessionId>,
    subagents: Seq<(TaskId, SessionId)>,
) -> EpisodeView {
    let pending_dms = episode.pending_dms.union(dms.to_set());
    let pending_subagents = with_subagents(episode.pending_subagents, subagents);
    EpisodeView {
        finished_runs: episode.finished_runs.insert(turn),
        in_flight_runs: one_less(episode.in_flight_runs),
        pending_dms,
        pending_subagents,
        dm_total: (episode.dm_total + pending_dms.len() - episode.pending_dms.len()) as nat,
        subagent_total: (episode.subagent_total + pending_subagents.dom().len()
            - episode.pending_subagents.dom().len()) as nat,
        ..episode
    }
}

/// An episode whose reserved turn will not take place.
pub open spec fn after_abandon(episode: EpisodeView) -> EpisodeView {
    EpisodeView { in_flight_runs: one_less(episode.in_flight_runs), ..episode }
}

/// An episode after a pending conversation ended: its continuation is reserved
/// in the same step.
pub open spec fn after_dm(episode: EpisodeView, dm: SessionId) -> EpisodeView {
    EpisodeView {
        pending_dms: episode.pending_dms.remove(dm),
        in_flight_runs: episode.in_flight_runs + 1,
        ..episode
    }
}

/// An episode after a pending subagent finished: its continuation is reserved
/// in the same step.
pub open spec fn after_subagent(episode: EpisodeView, task: TaskId) -> EpisodeView {
    EpisodeView {
        pending_subagents: episode.pending_subagents.remove(task),
        in_flight_runs: episode.in_flight_runs + 1,
        ..episode
    }
}

/// The registry of open episodes, one per job.
pub type Episodes = Map<JobId, EpisodeView>;

/// A changed episode stays registered unless it came to rest.
pub open spec fn settle(episodes: Episodes, job: JobId, changed: EpisodeView) -> (
    CompletionView,
    Episodes,
) {
    if changed.quiescent() {
        (CompletionView::Closed(changed), episodes.remove(job))
    } else {
        (CompletionView::Open, episodes.insert(job, changed))
    }
}

/// What the end of a turn does to the registry. A turn that was reported
/// before changes nothing.
pub open spec fn turn_ended(
    episodes: Episodes,
    job: JobId,
    turn: RunId,
    dms: Seq<SessionId>,
    subagents: Seq<(TaskId, SessionId)>,
) -> (CompletionView, Episodes) {
    if !episodes.contains_key(job) {
        (CompletionView::Untracked, episodes)
    } else if episodes[job].finished_runs.contains(turn) {
        (CompletionView::Open, episodes)
    } else {
        settle(episodes, job, after_turn(episodes[job], turn, dms, subagents))
    }
}

/// What giving up a reserved turn does to the registry.
pub open spec fn turn_abandoned(episodes: Episodes, job: JobId) -> (CompletionView, Episodes) {
    if !episodes.contains_key(job) {
        (CompletionView::Untracked, episodes)
    } else {
        settle(episodes, job, after_abandon(episodes[job]))
    }
}

/// The job's episode waits for a conversation of its own agent.
pub open spec fn awaits_dm(episodes: Episodes, job: JobId, dm: SessionId, agent: AgentId) -> bool {
    episodes.contains_key(job) && episodes[job].agent_id == agent
        && episodes[job].pending_dms.contains(dm)
}

/// The registry after a conversation ended: every episode of that agent that
/// waited for it goes on.
pub open spec fn dm_resolved(episodes: Episodes, dm: SessionId, agent: AgentId) -> Episodes {
    Map::new(
        |job: JobId| episodes.contains_key(job),
        |job: JobId|
            if awaits_dm(episodes, job, dm, agent) {
                after_dm(episodes[job], dm)
            } else {
                episodes[job]
            },
    )
}

/// `routes` lead on from a conversation that ended: one route for each episode
/// of that agent that waited for it, and no other.
pub open spec fn dm_routes(
    episodes: Episodes,
    dm: SessionId,
    agent: AgentId,
    routes: Seq<ContinuationRoute>,
) -> bool {
    &&& forall|i: int|
        0 <= i < routes.len() ==> awaits_dm(episodes, (#[trigger] routes[i]).job_id, dm, agent)
            && routes_to(routes[i], episodes[routes[i].job_id])
    &&& forall|i: int, j: int|
        0 <= i < j < routes.len() ==> (#[trigger] routes[i]).job_id != (#[trigger] routes[j]).job_id
    &&& forall|job: JobId| #[trigger]
        awaits_dm(episodes, job, dm, agent) ==> exists|i: int|
            0 <= i < routes.len() && (#[trigger] routes[i]).job_id == job
}

/// The registry keeps to its rules: episodes are filed under their job, their
/// counters are consistent, they were opened within the calendar's range, and
/// none of them has come to rest.
pub open spec fn well_formed(episodes: Episodes) -> bool {
    forall|job: JobId| #[trigger]
        episodes.contains_key(job) ==> episodes[job].job_id == job && episodes[job].consistent()
            && valid_instant(episodes[job].started_at) && !episodes[job].quiescent()
}

/// Every counter in the registry can still grow by `n`.
pub open spec fn have_room(episodes: Episodes, n: nat) -> bool {
    forall|job: JobId| #[trigger] episodes.contains_key(job) ==> episodes[job].room(n)
}

impl JobEpisode {
    /// Takes in one conversation that a turn opened.
    fn add_dm(&mut self, dm: SessionId)
        requires
            old(self)@.consistent(),
            old(self)@.room(1),
        ensures
            final(self)@ == (EpisodeView {
                pending_dms: old(self)@.pending_dms.insert(dm),
                dm_total: (old(self)@.dm_total + old(self)@.pending_dms.insert(dm).len() - old(
                    self,
                )@.pending_dms.len()) as nat,
                ..old(self)@
            }),
            final(self)@.consistent(),
            final(self)@.dm_total + final(self)@.subagent_total <= old(self)@.dm_total + old(
                self,
            )@.subagent_total + 1,
    {
        if self.pending_dms.insert(dm) {
            self.dm_total = self.dm_total + 1;
        }
    }

    /// Takes in one subagent that a turn started.
    fn add_subagent(&mut self, task: TaskId, session: SessionId)
        requires
            old(self)@.consistent(),
            old(self)@.room(1),
        ensures
            final(self)@ == (EpisodeView {
                pending_subagents: old(self)@.pending_subagents.insert(task, session),
                subagent_total: (old(self)@.subagent_total + old(self)@.pending_subagents.insert(
                    task,
                    session,
                ).dom().len() - old(self)@.pending_subagents.dom().len()) as nat,
                ..old(self)@
            }),
            final(self)@.consistent(),
            final(self)@.dm_total + final(self)@.subagent_total <= old(self)@.dm_total + old(
                self,
            )@.subagent_total + 1,
    {
        match self.pending_subagents.insert(task, session) {
            Some(_) => {},
            None => {
                self.subagent_total = self.subagent_total + 1;
            },
        }
    }

    /// Takes in the work that a turn left behind.
    fn absorb_turn(
        &mut self,
        turn: RunId,
        dms: &Vec<SessionId>,
        subagents: &Vec<(TaskId, SessionId)>,
    )
        requires
            old(self)@.consistent(),
            old(self)@.room((dms@.len() + subagents@.len()) as nat),
        ensures
            final(self)@ == after_turn(old(self)@, turn, dms@, subagents@),
            final(self)@.consistent(),
    {
        let ghost start = self@;
        self.finished_runs.insert(turn);
        self.in_flight_runs = if self.in_flight_runs == 0 {
            0
        } else {
            self.in_flight_runs - 1
        };
        let mut i: usize = 0;
        assert(dms@.subrange(0, 0).to_set() =~= Set::empty());
        assert(start.pending_dms.union(Set::empty()) =~= start.pending_dms);
        while i < dms.len()
            invariant
                i <= dms@.len(),
                start.consistent(),
                start.room((dms@.len() + subagents@.len()) as nat),
                self@ == after_turn(start, turn, dms@.subrange(0, i as int), seq![]),
                self@.consistent(),
                self@.dm_total + self@.subagent_total <= start.dm_total + start.subagent_total + i,
            decreases dms@.len() - i,
        {
            self.add_dm(dms[i]);
            proof {
                let seen = dms@.subrange(0, i as int);
                let more = dms@.subrange(0, i + 1);
                assert(more =~= seen.push(dms@[i as int]));
                lemma_to_set_push(seen, dms@[i as int]);
                assert(start.pending_dms.union(more.to_set()) =~= start.pending_dms.union(
                    seen.to_set(),
                ).insert(dms@[i as int]));
                lemma_union_len(start.pending_dms, seen.to_set());
                lemma_union_len(start.pending_dms, more.to_set());
            }
            i = i + 1;
        }
        assert(dms@.subrange(0, i as int) =~= dms@);
        let mut k: usize = 0;
        while k < subagents.len()
            invariant
                k <= subagents@.len(),
                start.consistent(),
                start.room((dms@.len() + subagents@.len()) as nat),
                self@ == after_turn(start, turn, dms@, subagents@.subrange(0, k as int)),
                self@.consistent(),
                self@.dm_total + self@.subagent_total <= start.dm_total + start.subagent_total
                    + dms@.len() + k,
            decreases subagents@.len() - k,
        {
            let entry: (TaskId, SessionId) = subagents[k];
            self.add_subagent(entry.0, entry.1);
            proof {
                let seen = subagents@.subrange(0, k as int);
                let more = subagents@.subrange(0, k + 1);
                assert(more.drop_last() =~= seen);
                lemma_with_subagents_grows(start.pending_subagents, seen);
                lemma_with_subagents_grows(start.pending_subagents, more);
            }
            k = k + 1;
        }
        assert(subagents@.subrange(0, k as int) =~= subagents@);
    }
}

/// The elements of a longer sequence.
proof fn lemma_to_set_push(s: Seq<SessionId>, x: SessionId)
    ensures
        s.push(x).to_set() == s.to_set().insert(x),
{
    assert forall|y: SessionId| s.push(x).to_set().contains(y) == s.to_set().insert(x).contains(
        y,
    ) by {
        if s.to_set().contains(y) {
            let i = choose|i: int| 0 <= i < s.len() && s[i] == y;
            assert(s.push(x)[i] == y);
        }
        if y == x {
            assert(s.push(x)[s.len() as int] == x);
        }
    }
}

/// A union is no smaller than its first part.
proof fn lemma_union_len(a: Set<SessionId>, b: Set<SessionId>)
    requires
        a.finite(),
        b.finite(),
    ensures
        a.len() <= a.union(b).len(),
{
    vstd::set_lib::lemma_len_subset(a, a.union(b));
}

/// Adding subagents makes the registry of pending ones no smaller.
proof fn lemma_with_subagents_grows(
    pending: Map<TaskId, SessionId>,
    started: Seq<(TaskId, SessionId)>,
)
    requires
        pending.dom().finite(),
    ensures
        with_subagents(pending, started).dom().finite(),
        pending.dom().len() <= with_subagents(pending, started).dom().len(),
        pending.dom().subset_of(with_subagents(pending, started).dom()),
    decreases started.len(),
{
    if started.len() > 0 {
        lemma_with_subagents_grows(pending, started.drop_last());
    }
}

/// The registry of open episodes.
#[derive(Debug)]
pub struct JobEpisodeTracker {
    /// How long an episode may stay open, in nanoseconds.
    pub deadline: u64,
    /// The open episodes by job.
    pub episodes: HashMap<JobId, JobEpisode>,
}

impl View for JobEpisodeTracker {
    type V = Episodes;

    open spec fn view(&self) -> Episodes {
        Map::new(
            |job: JobId| self.episodes@.contains_key(job),
            |job: JobId| self.episodes@[job]@,
        )
    }
}

/// What an observer sees of an open episode.
#[derive(Debug, PartialEq, Eq)]
pub struct EpisodeSnapshot {
    /// When it was opened, as RFC 3339 writes it.
    pub started_at: String,
    /// How many conversations are open.
    pub pending_dms: usize,
    /// How many subagents are at work.
    pub pending_subagents: usize,
    /// How many turns are queued or running.
    pub in_flight_runs: usize,
    /// How many turns it has had.
    pub runs: usize,
    /// Whether the job fired again meanwhile.
    pub catch_up_queued: bool,
    /// How many whole seconds are left until the deadline.
    pub deadline_remaining_secs: u64,
}

impl JobEpisodeTracker {
    /// An empty registry whose episodes expire after `deadline` nanoseconds.
    pub fn new(deadline: u64) -> (r: JobEpisodeTracker)
        ensures
            r@ == Map::<JobId, EpisodeView>::empty(),
            r.deadline == deadline,
            well_formed(r@),
    {
        let r: JobEpisodeTracker = JobEpisodeTracker { deadline, episodes: HashMap::new() };
        r
    }

    /// Files an episode under a job.
    fn put(&mut self, job_id: JobId, episode: JobEpisode)
        ensures
            final(self)@ == old(self)@.insert(job_id, episode@),
            final(self).deadline == old(self).deadline,
    {
        self.episodes.insert(job_id, episode);
    }

    /// Takes the episode of a job out of the registry.
    fn take(&mut self, job_id: JobId) -> (r: Option<JobEpisode>)
        ensures
            final(self)@ == old(self)@.remove(job_id),
            final(self).deadline == old(self).deadline,
            r is Some <==> old(self)@.contains_key(job_id),
            r matches Some(ep) ==> ep@ == old(self)@[job_id],
    {
        let r: Option<JobEpisode> = self.episodes.remove(&job_id);
        r
    }

    /// Files a changed episode again, unless it came to rest.
    fn settle_episode(&mut self, job_id: JobId, episode: JobEpisode) -> (r: RunCompletion)
        ensures
            episode@.quiescent() ==> r@ == CompletionView::Closed(episode@) && final(self)@ == old(
                self,
            )@,
            !episode@.quiescent() ==> r@ == CompletionView::Open && final(self)@ == old(
                self,
            )@.insert(job_id, episode@),
            final(self).deadline == old(self).deadline,
    {
        if episode.is_quiescent() {
            RunCompletion::Closed(Box::new(episode))
        } else {
            self.put(job_id, episode);
            RunCompletion::Open
        }
    }

    /// Takes note of a firing that comes while the job's episode is open, and
    /// tells whether it did; a firing that was absorbed starts no turn.
    pub fn absorb_fire_if_open(&mut self, job_id: JobId) -> (r: bool)
        requires
            well_formed(old(self)@),
        ensures
            r == old(self)@.contains_key(job_id),
            final(self)@ == if r {
                old(self)@.insert(
                    job_id,
                    EpisodeView { catch_up_queued: true, ..old(self)@[job_id] },
                )
            } else {
                old(self)@
            },
            final(self).deadline == old(self).deadline,
            well_formed(final(self)@),
    {
        match self.take(job_id) {
            Some(episode) => {
                let mut episode: JobEpisode = episode;
                episode.catch_up_queued = true;
                self.put(job_id, episode);
                true
            },
            None => {
                false
            },
        }
    }

    /// Opens the episode of a job that fired, with its first turn reserved.
    /// The job has no open episode: [`Self::absorb_fire_if_open`] saw to that.
    pub fn open(
        &mut self,
        job_id: JobId,
        session_id: SessionId,
        agent_id: AgentId,
        turn1_run: RunId,
        started_at: Nanos,
        now: u64,
    )
        requires
            well_formed(old(self)@),
            valid_instant(started_at),
            !old(self)@.contains_key(job_id),
            now + old(self).deadline <= u64::MAX,
        ensures
            final(self)@ == old(self)@.insert(
                job_id,
                opened(
                    job_id,
                    session_id,
                    agent_id,
                    turn1_run,
                    started_at,
                    (now + old(self).deadline) as u64,
                ),
            ),
            final(self).deadline == old(self).deadline,
            well_formed(final(self)@),
    {
        let mut runs: Vec<RunId> = Vec::new();
        runs.push(turn1_run);
        let episode: JobEpisode = JobEpisode {
            job_id,
            session_id,
            agent_id,
            started_at,
            deadline: now + self.deadline,
            pending_dms: HashSet::new(),
            pending_subagents: HashMap::new(),
            in_flight_runs: 1,
            runs,
            finished_runs: HashSet::new(),
            dm_total: 0,
            subagent_total: 0,
            catch_up_queued: false,
        };
        self.put(job_id, episode);
    }

    /// Reports the end of a turn and the work it left behind, and decides
    /// whether the episode has come to rest.
    pub fn on_run_complete(
        &mut self,
        job_id: JobId,
        run_id: RunId,
        opened_dms: Vec<SessionId>,
        opened_subagents: Vec<(TaskId, SessionId)>,
    ) -> (r: RunCompletion)
        requires
            well_formed(old(self)@),
            have_room(old(self)@, (opened_dms@.len() + opened_subagents@.len()) as nat),
        ensures
            (r@, final(self)@) == turn_ended(
                old(self)@,
                job_id,
                run_id,
                opened_dms@,
                opened_subagents@,
            ),
            final(self).deadline == old(self).deadline,
            well_formed(final(self)@),
    {
        match self.take(job_id) {
            Some(episode) => {
                let mut episode: JobEpisode = episode;
                if episode.finished_runs.contains(&run_id) {
                    self.put(job_id, episode);
                    return RunCompletion::Open;
                }
                episode.absorb_turn(run_id, &opened_dms, &opened_subagents);
                let r: RunCompletion = self.settle_episode(job_id, episode);
                r
            },
            None => {
                RunCompletion::Untracked
            },
        }
    }

    /// Gives up a turn that was reserved for a continuation but will not take
    /// place.
    pub fn abandon_reserved_continuation(&mut self, job_id: JobId) -> (r: RunCompletion)
        requires
            well_formed(old(self)@),
        ensures
            (r@, final(self)@) == turn_abandoned(old(self)@, job_id),
            final(self).deadline == old(self).deadline,
            well_formed(final(self)@),
    {
        match self.take(job_id) {
            Some(episode) => {
                let mut episode: JobEpisode = episode;
                episode.in_flight_runs = if episode.in_flight_runs == 0 {
                    0
                } else {
                    episode.in_flight_runs - 1
                };
                let r: RunCompletion = self.settle_episode(job_id, episode);
                r
            },
            None => {
                RunCompletion::Untracked
            },
        }
    }

    /// Notes the identifier of a continuation turn. The turn itself was
    /// reserved when the work it continues was resolved.
    pub fn note_run(&mut self, job_id: JobId, run_id: RunId)
        requires
            well_formed(old(self)@),
        ensures
            final(self)@ == if old(self)@.contains_key(job_id) {
                old(self)@.insert(
                    job_id,
                    EpisodeView {
                        runs: old(self)@[job_id].runs.push(run_id),
                        ..old(self)@[job_id]
                    },
                )
            } else {
                old(self)@
            },
            final(self).deadline == old(self).deadline,
            well_formed(final(self)@),
    {
        match self.take(job_id) {
            Some(episode) => {
                let mut episode: JobEpisode = episode;
                episode.runs.push(run_id);
                self.put(job_id, episode);
            },
            None => {},
        }
    }

    /// Removes the episode of a job that was cancelled and hands it over with
    /// its pending work.
    pub fn remove(&mut self, job_id: JobId) -> (r: Option<JobEpisode>)
        requires
            well_formed(old(self)@),
        ensures
            final(self)@ == old(self)@.remove(job_id),
            r is Some <==> old(self)@.contains_key(job_id),
            r matches Some(ep) ==> ep@ == old(self)@[job_id],
            final(self).deadline == old(self).deadline,
            well_formed(final(self)@),
    {
        self.take(job_id)
    }
}

impl JobEpisodeTracker {
    /// The jobs with an open episode, each once, in no particular order.
    fn jobs(&self) -> (r: Vec<JobId>)
        ensures
            r@.no_duplicates(),
            forall|job: JobId| #[trigger] self@.contains_key(job) <==> r@.contains(job),
    {
        let mut out: Vec<JobId> = Vec::new();
        let ghost keys = vstd::std_specs::iter::IteratorSpec::remaining(
            &vstd::std_specs::hash::spec_keys_iter(&self.episodes),
        );
        for key in it: self.episodes.keys()
            invariant
                it.seq() == keys,
                out@ == keys.unref().subrange(0, it.index() as int),
        {
            out.push(*key);
        }
        proof {
            assert(out@ =~= keys.unref());
        }
        out
    }

    /// Tells whether every counter can still grow by `n`.
    pub fn has_room(&self, n: usize) -> (r: bool)
        ensures
            r == have_room(self@, n as nat),
    {
        let jobs: Vec<JobId> = self.jobs();
        let mut i: usize = 0;
        while i < jobs.len()
            invariant
                i <= jobs@.len(),
                forall|job: JobId| #[trigger] self@.contains_key(job) <==> jobs@.contains(job),
                forall|k: int| 0 <= k < i ==> self@[#[trigger] jobs@[k]].room(n as nat),
            decreases jobs@.len() - i,
        {
            assert(self@.contains_key(jobs@[i as int]));
            if let Some(episode) = self.episodes.get(&jobs[i]) {
                let started: u128 = episode.dm_total as u128 + episode.subagent_total as u128;
                if episode.in_flight_runs > usize::MAX - n || started + n as u128
                    > usize::MAX as u128 {
                    return false;
                }
            }
            i = i + 1;
        }
        true
    }

    /// Resolves the end of a direct message conversation: every open episode of
    /// that agent that waited for it stops waiting and has its continuation
    /// reserved, in one step. Returns one route for each of them.
    pub fn resolve_dm(&mut self, dm_session_id: SessionId, agent_id: AgentId) -> (r: Vec<
        ContinuationRoute,
    >)
        requires
            well_formed(old(self)@),
            have_room(old(self)@, 1),
        ensures
            final(self)@ == dm_resolved(old(self)@, dm_session_id, agent_id),
            dm_routes(old(self)@, dm_session_id, agent_id, r@),
            final(self).deadline == old(self).deadline,
            well_formed(final(self)@),
    {
        let ghost before = self@;
        let jobs: Vec<JobId> = self.jobs();
        let mut routes: Vec<ContinuationRoute> = Vec::new();
        let mut i: usize = 0;
        while i < jobs.len()
            invariant
                i <= jobs@.len(),
                before == old(self)@,
                well_formed(before),
                have_room(before, 1),
                jobs@.no_duplicates(),
                self.deadline == old(self).deadline,
                forall|job: JobId| #[trigger] before.contains_key(job) <==> jobs@.contains(job),
                self@.dom() == before.dom(),
                forall|k: int|
                    0 <= k < i ==> self@[#[trigger] jobs@[k]] == dm_resolved(
                        before,
                        dm_session_id,
                        agent_id,
                    )[jobs@[k]],
                forall|k: int|
                    i <= k < jobs@.len() ==> self@[#[trigger] jobs@[k]] == before[jobs@[k]],
                forall|n: int|
                    0 <= n < routes@.len() ==> awaits_dm(
                        before,
                        (#[trigger] routes@[n]).job_id,
                        dm_session_id,
                        agent_id,
                    ) && routes_to(routes@[n], before[routes@[n].job_id]) && jobs@.subrange(
                        0,
                        i as int,
                    ).contains(routes@[n].job_id),
                forall|m: int, n: int|
                    0 <= m < n < routes@.len() ==> (#[trigger] routes@[m]).job_id != (
                    #[trigger] routes@[n]).job_id,
                forall|k: int|
                    0 <= k < i && awaits_dm(
                        before,
                        #[trigger] jobs@[k],
                        dm_session_id,
                        agent_id,
                    ) ==> exists|n: int|
                        0 <= n < routes@.len() && (#[trigger] routes@[n]).job_id == jobs@[k],
            decreases jobs@.len() - i,
        {
            let job_id: JobId = jobs[i];
            let ghost routes_before = routes@;
            if let Some(episode) = self.take(job_id) {
                let mut episode: JobEpisode = episode;
                if episode.agent_id == agent_id && episode.pending_dms.contains(&dm_session_id) {
                    episode.pending_dms.remove(&dm_session_id);
                    episode.in_flight_runs = episode.in_flight_runs + 1;
                    let route: ContinuationRoute = ContinuationRoute {
                        job_id: episode.job_id,
                        job_session_id: episode.session_id,
                        context_id: job_context_id(episode.job_id),
                    };
                    routes.push(route);
                    assert(routes@[routes_before.len() as int].job_id == job_id);
                    proof {
                        assert forall|n: int| 0 <= n < routes_before.len() implies (
                        #[trigger] routes@[n]).job_id != job_id by {
                            let seen = jobs@.subrange(0, i as int);
                            let k = choose|k: int| 0 <= k < seen.len() && seen[k] == routes@[n].job_id;
                        }
                    }
                }
                self.put(job_id, episode);
                proof {
                    assert forall|n: int| 0 <= n < routes@.len() implies jobs@.subrange(
                        0,
                        i + 1,
                    ).contains((#[trigger] routes@[n]).job_id) by {
                        let longer = jobs@.subrange(0, i + 1);
                        if n < routes_before.len() {
                            let seen = jobs@.subrange(0, i as int);
                            let k = choose|k: int| 0 <= k < seen.len() && seen[k] == routes@[n].job_id;
                        } else {
                            assert(longer[i as int] == job_id);
                        }
                    }
                    assert forall|k: int|
                        0 <= k < i + 1 && awaits_dm(
                            before,
                            #[trigger] jobs@[k],
                            dm_session_id,
                            agent_id,
                        ) implies exists|n: int|
                        0 <= n < routes@.len() && (#[trigger] routes@[n]).job_id == jobs@[k] by {
                        if k < i {
                            let n = choose|n: int|
                                0 <= n < routes_before.len() && (
                                #[trigger] routes_before[n]).job_id == jobs@[k];
                            assert(routes@[n] == routes_before[n]);
                        }
                    }
                }
            }
            i = i + 1;
        }
        proof {
            lemma_dm_resolved_well_formed(before, dm_session_id, agent_id);
        }
        routes
    }
}

/// The job's episode waits for a subagent.
pub open spec fn awaits_subagent(episodes: Episodes, job: JobId, task: TaskId) -> bool {
    episodes.contains_key(job) && episodes[job].pending_subagents.contains_key(task)
}

/// No episode waits for a subagent.
pub open spec fn nobody_awaits(episodes: Episodes, task: TaskId) -> bool {
    forall|job: JobId| !#[trigger] awaits_subagent(episodes, job, task)
}

impl JobEpisodeTracker {
    /// Resolves the end of a background subagent by its task: an open episode
    /// that waited for it stops waiting and has its continuation reserved, in
    /// one step. Task identifiers are unique, so at most one episode waits.
    pub fn resolve_subagent(&mut self, task_id: TaskId) -> (r: Option<ContinuationRoute>)
        requires
            well_formed(old(self)@),
            have_room(old(self)@, 1),
        ensures
            r is None ==> final(self)@ == old(self)@ && forall|job: JobId|
                !#[trigger] awaits_subagent(old(self)@, job, task_id),
            r is None ==> nobody_awaits(old(self)@, task_id),
            r matches Some(route) ==> awaits_subagent(old(self)@, route.job_id, task_id)
                && routes_to(route, old(self)@[route.job_id]) && final(self)@ == old(self)@.insert(
                route.job_id,
                after_subagent(old(self)@[route.job_id], task_id),
            ),
            final(self).deadline == old(self).deadline,
            well_formed(final(self)@),
    {
        let jobs: Vec<JobId> = self.jobs();
        let mut i: usize = 0;
        while i < jobs.len()
            invariant
                i <= jobs@.len(),
                self@ == old(self)@,
                well_formed(self@),
                have_room(self@, 1),
                self.deadline == old(self).deadline,
                forall|job: JobId| #[trigger] self@.contains_key(job) <==> jobs@.contains(job),
                forall|k: int| 0 <= k < i ==> !awaits_subagent(self@, #[trigger] jobs@[k], task_id),
            decreases jobs@.len() - i,
        {
            let job_id: JobId = jobs[i];
            let waits: bool = match self.episodes.get(&job_id) {
                Some(episode) => episode.pending_subagents.contains_key(&task_id),
                None => false,
            };
            if waits {
                if let Some(episode) = self.take(job_id) {
                    let mut episode: JobEpisode = episode;
                    let ghost before = episode@;
                    episode.pending_subagents.remove(&task_id);
                    episode.in_flight_runs = episode.in_flight_runs + 1;
                    let route: ContinuationRoute = ContinuationRoute {
                        job_id: episode.job_id,
                        job_session_id: episode.session_id,
                        context_id: job_context_id(episode.job_id),
                    };
                    self.put(job_id, episode);
                    return Some(route);
                }
            }
            i = i + 1;
        }
        proof {
            assert forall|job: JobId| !#[trigger] awaits_subagent(old(self)@, job, task_id) by {
                if self@.contains_key(job) {
                    let k = choose|k: int| 0 <= k < jobs@.len() && jobs@[k] == job;
                }
            }
        }
        None
    }

    /// Drains every episode whose deadline has passed. Its pending work goes
    /// with it untouched: it is left to run its course.
    pub fn take_expired(&mut self, now: u64) -> (r: Vec<JobEpisode>)
        requires
            well_formed(old(self)@),
        ensures
            final(self)@ == unexpired(old(self)@, now),
            forall|i: int|
                0 <= i < r@.len() ==> old(self)@.contains_key((#[trigger] r@[i])@.job_id)
                    && r@[i]@ == old(self)@[r@[i]@.job_id] && r@[i]@.deadline <= now,
            forall|i: int, j: int|
                0 <= i < j < r@.len() ==> (#[trigger] r@[i])@.job_id != (#[trigger] r@[j])@.job_id,
            forall|job: JobId| #[trigger]
                old(self)@.contains_key(job) && old(self)@[job].deadline <= now ==> exists|i: int|
                    0 <= i < r@.len() && (#[trigger] r@[i])@.job_id == job,
            final(self).deadline == old(self).deadline,
            well_formed(final(self)@),
    {
        let ghost before = self@;
        let jobs: Vec<JobId> = self.jobs();
        let mut expired: Vec<JobEpisode> = Vec::new();
        let mut i: usize = 0;
        while i < jobs.len()
            invariant
                i <= jobs@.len(),
                before == old(self)@,
                well_formed(before),
                jobs@.no_duplicates(),
                self.deadline == old(self).deadline,
                forall|job: JobId| #[trigger] before.contains_key(job) <==> jobs@.contains(job),
                forall|job: JobId| #[trigger]
                    self@.contains_key(job) ==> before.contains_key(job) && self@[job]
                        == before[job],
                forall|k: int|
                    0 <= k < i ==> (self@.contains_key(#[trigger] jobs@[k]) <==> before[jobs@[k]].deadline
                        > now),
                forall|k: int| i <= k < jobs@.len() ==> self@.contains_key(#[trigger] jobs@[k]),
                forall|n: int|
                    0 <= n < expired@.len() ==> before.contains_key((#[trigger] expired@[n])@.job_id)
                        && expired@[n]@ == before[expired@[n]@.job_id] && expired@[n]@.deadline
                        <= now && !self@.contains_key(expired@[n]@.job_id),
                forall|m: int, n: int|
                    0 <= m < n < expired@.len() ==> (#[trigger] expired@[m])@.job_id != (
                    #[trigger] expired@[n])@.job_id,
                forall|k: int|
                    0 <= k < i && before[#[trigger] jobs@[k]].deadline <= now ==> exists|n: int|
                        0 <= n < expired@.len() && (#[trigger] expired@[n])@.job_id == jobs@[k],
            decreases jobs@.len() - i,
        {
            let job_id: JobId = jobs[i];
            let ghost drained = expired@;
            if let Some(episode) = self.take(job_id) {
                if episode.deadline <= now {
                    expired.push(episode);
                    assert(expired@[drained.len() as int]@.job_id == job_id);
                    proof {
                        assert forall|k: int|
                            0 <= k < i + 1 && before[#[trigger] jobs@[k]].deadline
                                <= now implies exists|n: int|
                            0 <= n < expired@.len() && (#[trigger] expired@[n])@.job_id
                                == jobs@[k] by {
                            if k < i {
                                let n = choose|n: int|
                                    0 <= n < drained.len() && (#[trigger] drained[n])@.job_id
                                        == jobs@[k];
                                assert(expired@[n] == drained[n]);
                            }
                        }
                    }
                } else {
                    self.put(job_id, episode);
                }
            }
            i = i + 1;
        }
        expired
    }

    /// What an observer sees of a job's open episode; `None` when it has none.
    pub fn snapshot(&self, job_id: JobId, now: u64) -> (r: Option<EpisodeSnapshot>)
        requires
            well_formed(self@),
        ensures
            r is Some <==> self@.contains_key(job_id),
            r matches Some(seen) ==> shows(seen, self@[job_id], now),
    {
        match self.episodes.get(&job_id) {
            Some(episode) => {
                assert(self@.contains_key(job_id));
                let remaining: u64 = if episode.deadline > now {
                    (episode.deadline - now) / NANOS_PER_SEC
                } else {
                    0
                };
                Some(
                    EpisodeSnapshot {
                        started_at: to_rfc3339(episode.started_at),
                        pending_dms: episode.pending_dms.len(),
                        pending_subagents: episode.pending_subagents.len(),
                        in_flight_runs: episode.in_flight_runs,
                        runs: episode.runs.len(),
                        catch_up_queued: episode.catch_up_queued,
                        deadline_remaining_secs: remaining,
                    },
                )
            },
            None => None,
        }
    }
}

/// The registry without the episodes that have expired.
pub open spec fn unexpired(episodes: Episodes, now: u64) -> Episodes {
    Map::new(
        |job: JobId| episodes.contains_key(job) && episodes[job].deadline > now,
        |job: JobId| episodes[job],
    )
}

/// A snapshot shows an episode as it stands at `now`.
pub open spec fn shows(seen: EpisodeSnapshot, episode: EpisodeView, now: u64) -> bool {
    &&& seen.started_at@ == instant_text(episode.started_at)
    &&& seen.pending_dms == episode.pending_dms.len()
    &&& seen.pending_subagents == episode.pending_subagents.dom().len()
    &&& seen.in_flight_runs == episode.in_flight_runs
    &&& seen.runs == episode.runs.len()
    &&& seen.catch_up_queued == episode.catch_up_queued
    &&& seen.deadline_remaining_secs == if episode.deadline > now {
        (episode.deadline - now) / NANOS_PER_SEC as int
    } else {
        0
    }
}

/// Resolving a conversation keeps the registry's rules.
proof fn lemma_dm_resolved_well_formed(episodes: Episodes, dm: SessionId, agent: AgentId)
    requires
        well_formed(episodes),
        have_room(episodes, 1),
    ensures
        well_formed(dm_resolved(episodes, dm, agent)),
{
}

} // verus!
