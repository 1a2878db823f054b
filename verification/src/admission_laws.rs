//! What admission gates promise together with the lock that each of them
//! holds. The lock lets one task in at a time; that all tasks of a session meet
//! at the same lock, for as long as any of them is there, is due to the leases.

use crate::admission::{all_leased, lease_count, leased, returned};
use crate::ids::SessionId;
use vstd::prelude::*;

verus! {

/// A task's lease on a gate.
pub struct Lease {
    /// The session whose gate it is.
    pub session: SessionId,
    /// The lock of that gate. Every lock that is made has a number of its own.
    pub lock: nat,
}

/// The gates, their locks and the tasks at them.
pub struct Boundary {
    /// The leases that are out, by task.
    pub tasks: Map<u64, Lease>,
    /// How many leases each gate has.
    pub gates: Map<SessionId, usize>,
    /// The lock of each gate.
    pub locks: Map<SessionId, nat>,
    /// The task that each lock has let in.
    pub inside: Map<nat, u64>,
    /// How many locks were made.
    pub made: nat,
}

/// What may happen next.
#[derive(Debug, Clone, Copy, PartialEq, Eq, Structural)]
pub enum BoundaryStep {
    /// A task leases a session's gate and begins to wait at its lock.
    Arrive(u64, SessionId),
    /// The lock lets the task in.
    Enter(u64),
    /// The task leaves, whether it was let in or gave up waiting.
    Leave(u64),
}

/// No gates, and nobody there.
pub open spec fn nobody() -> Boundary {
    Boundary {
        tasks: Map::empty(),
        gates: Map::empty(),
        locks: Map::empty(),
        inside: Map::empty(),
        made: 0,
    }
}

/// The step can happen. The last of these is what the lock promises: it lets
/// no task in while another is inside.
pub open spec fn can_happen(now: Boundary, step: BoundaryStep) -> bool {
    match step {
        BoundaryStep::Arrive(task, session) => !now.tasks.contains_key(task) && lease_count(
            now.gates,
            session,
        ) < usize::MAX,
        BoundaryStep::Leave(task) => now.tasks.contains_key(task),
        BoundaryStep::Enter(task) => now.tasks.contains_key(task) && !now.inside.contains_key(
            now.tasks[task].lock,
        ),
    }
}

/// What the step leads to. A lock is made with its gate, and forgotten with it.
pub open spec fn after_step(now: Boundary, step: BoundaryStep) -> Boundary {
    match step {
        BoundaryStep::Arrive(task, session) => {
            let fresh = !now.gates.contains_key(session);
            let lock = if fresh {
                now.made
            } else {
                now.locks[session]
            };
            Boundary {
                tasks: now.tasks.insert(task, Lease { session, lock }),
                gates: leased(now.gates, session),
                locks: now.locks.insert(session, lock),
                inside: now.inside,
                made: if fresh {
                    now.made + 1
                } else {
                    now.made
                },
            }
        },
        BoundaryStep::Enter(task) => Boundary {
            inside: now.inside.insert(now.tasks[task].lock, task),
            ..now
        },
        BoundaryStep::Leave(task) => {
            let lease = now.tasks[task];
            let gates = returned(now.gates, lease.session);
            Boundary {
                tasks: now.tasks.remove(task),
                gates,
                locks: if gates.contains_key(lease.session) {
                    now.locks
                } else {
                    now.locks.remove(lease.session)
                },
                inside: if now.inside.contains_key(lease.lock) && now.inside[lease.lock] == task {
                    now.inside.remove(lease.lock)
                } else {
                    now.inside
                },
                made: now.made,
            }
        },
    }
}

/// The steps can happen one after the other, from the start on.
pub open spec fn can_all_happen(steps: Seq<BoundaryStep>) -> bool
    decreases steps.len(),
{
    steps.len() == 0 || can_all_happen(steps.drop_last()) && can_happen(
        after_all(steps.drop_last()),
        steps.last(),
    )
}

/// What the steps lead to.
pub open spec fn after_all(steps: Seq<BoundaryStep>) -> Boundary
    decreases steps.len(),
{
    if steps.len() == 0 {
        nobody()
    } else {
        after_step(after_all(steps.drop_last()), steps.last())
    }
}

/// The tasks at a session's gate.
pub open spec fn tasks_at(now: Boundary, session: SessionId) -> Set<u64> {
    Set::new(|task: u64| now.tasks.contains_key(task) && now.tasks[task].session == session)
}

/// The task was let in and has not left.
pub open spec fn holds_guard(now: Boundary, task: u64) -> bool {
    now.tasks.contains_key(task) && now.inside.contains_key(now.tasks[task].lock)
        && now.inside[now.tasks[task].lock] == task
}

/// The leases are those of the tasks that are there.
spec fn leases_counted(now: Boundary) -> bool {
    &&& all_leased(now.gates)
    &&& forall|session: SessionId|
        (#[trigger] tasks_at(now, session)).finite() && tasks_at(now, session).len() == lease_count(
            now.gates,
            session,
        )
}

/// Every task waits at the lock of its session's gate.
spec fn locks_shared(now: Boundary) -> bool {
    &&& forall|task: u64| #[trigger]
        now.tasks.contains_key(task) ==> now.locks.contains_key(now.tasks[task].session)
            && now.locks[now.tasks[task].session] == now.tasks[task].lock
    &&& forall|session: SessionId| #[trigger]
        now.locks.contains_key(session) ==> now.locks[session] < now.made
    &&& forall|a: SessionId, b: SessionId|
        #![trigger now.locks.contains_key(a), now.locks.contains_key(b)]
        now.locks.contains_key(a) && now.locks.contains_key(b) && now.locks[a] == now.locks[b]
            ==> a == b
    &&& forall|session: SessionId| #[trigger]
        now.locks.contains_key(session) <==> now.gates.contains_key(session)
}

/// Whoever is inside is there.
spec fn inside_is_there(now: Boundary) -> bool {
    forall|lock: nat| #[trigger]
        now.inside.contains_key(lock) ==> now.tasks.contains_key(now.inside[lock])
            && now.tasks[now.inside[lock]].lock == lock
}

proof fn lemma_step_keeps_count(now: Boundary, step: BoundaryStep)
    requires
        leases_counted(now),
        can_happen(now, step),
    ensures
        leases_counted(after_step(now, step)),
{
    let next = after_step(now, step);
    assert forall|session: SessionId|
        (#[trigger] tasks_at(next, session)).finite() && tasks_at(next, session).len()
            == lease_count(next.gates, session) by {
        let before = tasks_at(now, session);
        assert(before.finite() && before.len() == lease_count(now.gates, session));
        match step {
            BoundaryStep::Arrive(task, s) => {
                if s == session {
                    assert(tasks_at(next, session) =~= before.insert(task));
                } else {
                    assert(tasks_at(next, session) =~= before);
                }
            },
            BoundaryStep::Enter(task) => {
                assert(tasks_at(next, session) =~= before);
            },
            BoundaryStep::Leave(task) => {
                assert(tasks_at(next, session) =~= before.remove(task));
                if now.tasks[task].session == session {
                    assert(before.contains(task));
                    assert(before.len() > 0);
                }
            },
        }
    }
}

proof fn lemma_step_keeps_locks(now: Boundary, step: BoundaryStep)
    requires
        leases_counted(now),
        locks_shared(now),
        inside_is_there(now),
        can_happen(now, step),
    ensures
        locks_shared(after_step(now, step)),
        inside_is_there(after_step(now, step)),
{
    let next = after_step(now, step);
    lemma_step_keeps_count(now, step);
    if let BoundaryStep::Arrive(_, session) = step {
        assert(now.locks.contains_key(session) <==> now.gates.contains_key(session));
    }
    if let BoundaryStep::Leave(gone) = step {
        let session = now.tasks[gone].session;
        if !next.gates.contains_key(session) {
            assert(tasks_at(next, session).len() == 0);
            assert forall|task: u64| next.tasks.contains_key(task) implies next.tasks[task].session
                != session by {
                if next.tasks[task].session == session {
                    assert(tasks_at(next, session).contains(task));
                }
            }
        }
    }
}

proof fn lemma_boundary_is_sound(steps: Seq<BoundaryStep>)
    requires
        can_all_happen(steps),
    ensures
        leases_counted(after_all(steps)),
        locks_shared(after_all(steps)),
        inside_is_there(after_all(steps)),
    decreases steps.len(),
{
    if steps.len() == 0 {
        assert forall|session: SessionId|
            (#[trigger] tasks_at(nobody(), session)).finite() && tasks_at(nobody(), session).len()
                == 0 by {
            assert(tasks_at(nobody(), session) =~= Set::<u64>::empty());
        }
    } else {
        lemma_boundary_is_sound(steps.drop_last());
        lemma_step_keeps_count(after_all(steps.drop_last()), steps.last());
        lemma_step_keeps_locks(after_all(steps.drop_last()), steps.last());
    }
}

/// However tasks interleave, no two of them are ever inside for the same
/// session.
pub proof fn law_guards_of_a_session_never_overlap(steps: Seq<BoundaryStep>, a: u64, b: u64)
    requires
        can_all_happen(steps),
        holds_guard(after_all(steps), a),
        holds_guard(after_all(steps), b),
        after_all(steps).tasks[a].session == after_all(steps).tasks[b].session,
    ensures
        a == b,
{
    lemma_boundary_is_sound(steps);
}

/// A task is kept waiting by a task of its own session only.
pub proof fn law_sessions_do_not_delay_each_other(steps: Seq<BoundaryStep>, waiting: u64)
    requires
        can_all_happen(steps),
        after_all(steps).tasks.contains_key(waiting),
        !can_happen(after_all(steps), BoundaryStep::Enter(waiting)),
    ensures
        ({
            let now = after_all(steps);
            let holder = now.inside[now.tasks[waiting].lock];
            holds_guard(now, holder) && now.tasks[holder].session == now.tasks[waiting].session
        }),
{
    lemma_boundary_is_sound(steps);
}

/// A session has a gate exactly while a task of it waits or is inside, and all
/// of these tasks meet at the one lock of that gate.
pub proof fn law_tasks_of_a_session_share_its_gate(steps: Seq<BoundaryStep>, session: SessionId)
    requires
        can_all_happen(steps),
    ensures
        after_all(steps).gates.contains_key(session) <==> exists|task: u64|
            #[trigger] after_all(steps).tasks.contains_key(task) && after_all(
                steps,
            ).tasks[task].session == session,
        forall|task: u64|
            #[trigger] after_all(steps).tasks.contains_key(task) && after_all(
                steps,
            ).tasks[task].session == session ==> after_all(steps).tasks[task].lock == after_all(
                steps,
            ).locks[session],
{
    lemma_boundary_is_sound(steps);
    let now = after_all(steps);
    let there = tasks_at(now, session);
    assert(there.finite() && there.len() == lease_count(now.gates, session));
    if now.gates.contains_key(session) {
        let task = there.choose();
        assert(there.contains(task));
        assert(now.tasks.contains_key(task));
    }
}

} // verus!
