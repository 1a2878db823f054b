//! Admission gates: one per session with runs being admitted. A gate is leased
//! before anyone waits for it, and it goes away with its last lease, whether
//! the holder was let through or gave up waiting.

use crate::ids::SessionId;
use vstd::prelude::*;

verus! {

/// `dashmap::DashMap`, a hash map with locks inside.
#[verifier::external_type_specification]
#[verifier::external_body]
#[verifier::reject_recursive_types(K)]
#[verifier::reject_recursive_types(V)]
#[verifier::reject_recursive_types(S)]
pub struct ExDashMap<K, V, S>(dashmap::DashMap<K, V, S>);

/// The leases that a map of gates holds, by session. Every function here that
/// changes the map has it to itself.
pub uninterp spec fn leases_in(gates: dashmap::DashMap<SessionId, usize>) -> Map<SessionId, usize>;

/// `dashmap::DashMap::new`: a map without entries.
#[verifier::external_body]
fn no_leases() -> (r: dashmap::DashMap<SessionId, usize>)
    ensures
        leases_in(r).dom() == Set::<SessionId>::empty(),
{
    dashmap::DashMap::new()
}

/// `dashmap::DashMap::get`: the value of a key, if the map has it. The
/// reference into the map is gone when this returns.
#[verifier::external_body]
fn leases_of(gates: &dashmap::DashMap<SessionId, usize>, session: SessionId) -> (r: Option<usize>)
    ensures
        r == if leases_in(*gates).contains_key(session) {
            Some(leases_in(*gates)[session])
        } else {
            None
        },
{
    gates.get(&session).map(|entry| *entry)
}

/// `dashmap::DashMap::insert`: gives a key this value, whether it had one or
/// not, and leaves every other key as it was.
#[verifier::external_body]
fn put_leases(gates: &mut dashmap::DashMap<SessionId, usize>, session: SessionId, count: usize)
    ensures
        leases_in(*final(gates)) == leases_in(*old(gates)).insert(session, count),
{
    gates.insert(session, count);
}

/// `dashmap::DashMap::remove`: takes a key out, if the map has it, and leaves
/// every other key as it was.
#[verifier::external_body]
fn drop_leases(gates: &mut dashmap::DashMap<SessionId, usize>, session: SessionId)
    ensures
        leases_in(*final(gates)) == leases_in(*old(gates)).remove(session),
{
    gates.remove(&session);
}

/// The gates of all sessions with runs being admitted.
pub struct RunAdmissionGates {
    gates: dashmap::DashMap<SessionId, usize>,
}

impl View for RunAdmissionGates {
    type V = Map<SessionId, usize>;

    closed spec fn view(&self) -> Map<SessionId, usize> {
        leases_in(self.gates)
    }
}

/// No gate is kept without a lease.
pub open spec fn all_leased(gates: Map<SessionId, usize>) -> bool {
    forall|session: SessionId| #[trigger] gates.contains_key(session) ==> gates[session] > 0
}

/// The leases of a session's gate.
pub open spec fn lease_count(gates: Map<SessionId, usize>, session: SessionId) -> int {
    if gates.contains_key(session) {
        gates[session] as int
    } else {
        0
    }
}

/// The gates after one more lease.
pub open spec fn leased(gates: Map<SessionId, usize>, session: SessionId) -> Map<
    SessionId,
    usize,
> {
    gates.insert(session, (lease_count(gates, session) + 1) as usize)
}

/// The gates after a lease was returned: the last one takes its gate along.
pub open spec fn returned(gates: Map<SessionId, usize>, session: SessionId) -> Map<
    SessionId,
    usize,
> {
    if lease_count(gates, session) <= 1 {
        gates.remove(session)
    } else {
        gates.insert(session, (gates[session] - 1) as usize)
    }
}

impl RunAdmissionGates {
    /// No gates.
    pub fn new() -> (r: RunAdmissionGates)
        ensures
            r@ == Map::<SessionId, usize>::empty(),
            all_leased(r@),
    {
        let r: RunAdmissionGates = RunAdmissionGates { gates: no_leases() };
        r
    }

    /// Tells how many leases a session's gate has.
    pub fn lease_count(&self, session_id: SessionId) -> (r: usize)
        ensures
            r == lease_count(self@, session_id),
    {
        match leases_of(&self.gates, session_id) {
            Some(n) => n,
            None => 0,
        }
    }

    /// Leases a session's gate, which is made when there is none yet. Returns
    /// whether it was made.
    pub fn lease(&mut self, session_id: SessionId) -> (r: bool)
        requires
            all_leased(old(self)@),
            lease_count(old(self)@, session_id) < usize::MAX,
        ensures
            final(self)@ == leased(old(self)@, session_id),
            r == !old(self)@.contains_key(session_id),
            all_leased(final(self)@),
    {
        match leases_of(&self.gates, session_id) {
            Some(n) => {
                put_leases(&mut self.gates, session_id, n + 1);
                false
            },
            None => {
                put_leases(&mut self.gates, session_id, 1);
                true
            },
        }
    }

    /// Returns a lease. Returns whether it was the last one, after which
    /// its gate is gone.
    pub fn release(&mut self, session_id: SessionId) -> (r: bool)
        requires
            all_leased(old(self)@),
            old(self)@.contains_key(session_id),
        ensures
            final(self)@ == returned(old(self)@, session_id),
            r == !final(self)@.contains_key(session_id),
            all_leased(final(self)@),
    {
        match leases_of(&self.gates, session_id) {
            Some(n) => {
                if n > 1 {
                    put_leases(&mut self.gates, session_id, n - 1);
                    false
                } else {
                    drop_leases(&mut self.gates, session_id);
                    true
                }
            },
            None => true,
        }
    }
}

/// A lease that is returned leaves no trace, whether it was ever granted or
/// its holder gave up.
pub proof fn law_returned_lease_leaves_no_trace(gates: Map<SessionId, usize>, session: SessionId)
    requires
        all_leased(gates),
        lease_count(gates, session) < usize::MAX,
    ensures
        returned(leased(gates, session), session) == gates,
{
}

/// Sessions do not interfere with each other's gates.
pub proof fn law_gates_are_independent(
    gates: Map<SessionId, usize>,
    session: SessionId,
    other: SessionId,
)
    requires
        other != session,
    ensures
        lease_count(leased(gates, session), other) == lease_count(gates, other),
        lease_count(returned(gates, session), other) == lease_count(gates, other),
{
}

/// What happens to the leases, one step at a time, in whatever order the tasks
/// come to it.
#[derive(Debug, Clone, Copy, PartialEq, Eq, Structural)]
pub enum LeaseStep {
    /// A task takes a lease on a session's gate.
    Taken(SessionId),
    /// A task returns its lease, whether it was let through or gave up.
    Returned(SessionId),
}

/// The leases on a session's gate that were taken and not returned.
pub open spec fn outstanding(steps: Seq<LeaseStep>, session: SessionId) -> int
    decreases steps.len(),
{
    if steps.len() == 0 {
        0
    } else {
        outstanding(steps.drop_last(), session) + match steps.last() {
            LeaseStep::Taken(s) => if s == session {
                1int
            } else {
                0
            },
            LeaseStep::Returned(s) => if s == session {
                -1
            } else {
                0
            },
        }
    }
}

/// The gates after these steps, from none at the start.
pub open spec fn gates_after(steps: Seq<LeaseStep>) -> Map<SessionId, usize>
    decreases steps.len(),
{
    if steps.len() == 0 {
        Map::empty()
    } else {
        let before = gates_after(steps.drop_last());
        match steps.last() {
            LeaseStep::Taken(s) => leased(before, s),
            LeaseStep::Returned(s) => returned(before, s),
        }
    }
}

/// Every lease is returned after it was taken, and they can be counted.
pub open spec fn orderly(steps: Seq<LeaseStep>) -> bool
    decreases steps.len(),
{
    steps.len() == 0 || {
        &&& orderly(steps.drop_last())
        &&& match steps.last() {
            LeaseStep::Taken(s) => outstanding(steps.drop_last(), s) < usize::MAX,
            LeaseStep::Returned(s) => outstanding(steps.drop_last(), s) > 0,
        }
    }
}

/// However tasks interleave, a session has a gate exactly while a lease on it
/// is out, and its count is the number of those leases: the tasks of a session
/// all meet at one gate, and it is gone when the last of them is.
pub proof fn law_gate_lives_as_long_as_its_leases(steps: Seq<LeaseStep>, session: SessionId)
    requires
        orderly(steps),
    ensures
        all_leased(gates_after(steps)),
        lease_count(gates_after(steps), session) == outstanding(steps, session),
        gates_after(steps).contains_key(session) <==> outstanding(steps, session) > 0,
    decreases steps.len(),
{
    if steps.len() > 0 {
        let before = steps.drop_last();
        law_gate_lives_as_long_as_its_leases(before, session);
        match steps.last() {
            LeaseStep::Taken(s) => law_gate_lives_as_long_as_its_leases(before, s),
            LeaseStep::Returned(s) => law_gate_lives_as_long_as_its_leases(before, s),
        }
    }
}

} // verus!
