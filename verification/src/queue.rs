//! Positions in an agent's queue of runs.

use crate::ids::{RunId, SessionId};
use vstd::prelude::*;

verus! {

/// A run that waits in the queue.
#[derive(Debug, Clone, Copy, PartialEq, Eq, Structural)]
pub struct QueuedRun {
    /// The run.
    pub run_id: RunId,
    /// The session it belongs to.
    pub session_id: SessionId,
}

/// A queue position to publish.
#[derive(Debug, Clone, Copy, PartialEq, Eq, Structural)]
pub struct QueuePosition {
    /// The run.
    pub run_id: RunId,
    /// The session it belongs to.
    pub session_id: SessionId,
    /// How many runs are ahead of it, the one under way included.
    pub position: usize,
}

/// How many runs are ahead of the one at `index` in the queue.
pub open spec fn runs_ahead(index: int, agent_running: bool) -> int {
    index + if agent_running {
        1int
    } else {
        0int
    }
}

/// The number of leading runs that have no position: the first one, when the
/// agent is free to start it.
pub open spec fn starting_now(agent_running: bool) -> int {
    if agent_running {
        0
    } else {
        1
    }
}

/// The positions of a queue: one for each waiting run that is not about to
/// start, counted from one.
pub open spec fn queue_positions(queued: Seq<QueuedRun>, agent_running: bool) -> Seq<
    QueuePosition,
> {
    let skip = starting_now(agent_running);
    Seq::new(
        if queued.len() >= skip {
            (queued.len() - skip) as nat
        } else {
            0
        },
        |i: int|
            QueuePosition {
                run_id: queued[i + skip].run_id,
                session_id: queued[i + skip].session_id,
                position: runs_ahead(i + skip, agent_running) as usize,
            },
    )
}

/// Lists the positions to publish when the head of an agent's queue advances.
/// `queued` is in first-in, first-out order.
pub fn broadcast_queue_advance(queued: &Vec<QueuedRun>, agent_running: bool) -> (r: Vec<
    QueuePosition,
>)
    ensures
        r@ == queue_positions(queued@, agent_running),
{
    let mut out: Vec<QueuePosition> = Vec::new();
    let skip: usize = if agent_running {
        0
    } else {
        1
    };
    let offset: usize = 1 - skip;
    let mut i: usize = skip;
    if queued.len() < skip {
        return out;
    }
    while i < queued.len()
        invariant
            skip == starting_now(agent_running),
            offset == 1 - skip,
            skip <= i <= queued@.len(),
            out@ == queue_positions(queued@, agent_running).subrange(0, i - skip),
        decreases queued@.len() - i,
    {
        let entry: QueuePosition = QueuePosition {
            run_id: queued[i].run_id,
            session_id: queued[i].session_id,
            position: i + offset,
        };
        out.push(entry);
        i = i + 1;
    }
    out
}

/// The index of a run in the queue, or the queue's length.
pub open spec fn index_of(queued: Seq<QueuedRun>, run: RunId) -> int
    decreases queued.len(),
{
    if queued.len() == 0 || queued[0].run_id == run {
        0
    } else {
        1 + index_of(queued.subrange(1, queued.len() as int), run)
    }
}

proof fn lemma_index_of(queued: Seq<QueuedRun>, run: RunId, n: int)
    requires
        0 <= n <= queued.len(),
        forall|j: int| 0 <= j < n ==> (#[trigger] queued[j]).run_id != run,
        n < queued.len() ==> queued[n].run_id == run,
    ensures
        index_of(queued, run) == n,
    decreases n,
{
    if n > 0 {
        let rest = queued.subrange(1, queued.len() as int);
        lemma_index_of(rest, run, n - 1);
    }
}

/// The position that a status request shows for a queued run: none for a run
/// that is not in the queue or is about to start.
pub open spec fn position_of(
    queued: Seq<QueuedRun>,
    agent_running: bool,
    run: RunId,
) -> Option<usize> {
    let i = index_of(queued, run);
    if i < queued.len() && runs_ahead(i, agent_running) > 0 {
        Some(runs_ahead(i, agent_running) as usize)
    } else {
        None
    }
}

/// Finds the position of a queued run.
pub fn queue_position(queued: &Vec<QueuedRun>, agent_running: bool, run_id: RunId) -> (r: Option<
    usize,
>)
    ensures
        r == position_of(queued@, agent_running, run_id),
{
    let mut i: usize = 0;
    while i < queued.len()
        invariant
            i <= queued@.len(),
            forall|j: int| 0 <= j < i ==> (#[trigger] queued@[j]).run_id != run_id,
        decreases queued@.len() - i,
    {
        if queued[i].run_id == run_id {
            proof {
                lemma_index_of(queued@, run_id, i as int);
            }
            if agent_running {
                return Some(i + 1);
            } else if i > 0 {
                return Some(i);
            } else {
                return None;
            }
        }
        i = i + 1;
    }
    proof {
        lemma_index_of(queued@, run_id, i as int);
    }
    None
}

/// The position that a status request shows and the position that is published
/// when the queue advances always agree, for a queue without repeated runs.
pub proof fn law_status_and_broadcast_agree(
    queued: Seq<QueuedRun>,
    agent_running: bool,
    i: int,
)
    requires
        forall|a: int, b: int|
            0 <= a < b < queued.len() ==> (#[trigger] queued[a]).run_id != (
            #[trigger] queued[b]).run_id,
        0 <= i < queue_positions(queued, agent_running).len(),
        queued.len() < usize::MAX,
    ensures
        ({
            let published = queue_positions(queued, agent_running)[i];
            &&& published.position == i + 1
            &&& position_of(queued, agent_running, published.run_id) == Some(published.position)
        }),
{
    let at = i + starting_now(agent_running);
    lemma_index_of(queued, queued[at].run_id, at);
}

} // verus!
