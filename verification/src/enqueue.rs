//! The admission of a run that the gateway starts by itself. A phase names
//! what has to be done next outside; the event that reports its result leads
//! to the next phase and to the effects to be performed, in order.

use crate::ids::{JobId, SessionId};
use crate::launch::RunRequest;
use crate::text::{begins_with, concat, starts_with};
use vstd::prelude::*;
use vstd::string::*;

verus! {

/// Something that the admission makes happen.
#[derive(Debug, Clone, PartialEq, Eq)]
pub enum EnqueueEffect<S> {
    /// Wait for the session's admission gate and hold it.
    AcquireGate,
    /// Let go of the session's admission gate.
    ReleaseGate,
    /// Hold the lock that cancelling a job takes.
    AcquireCancelLock,
    /// Let go of that lock.
    ReleaseCancelLock,
    /// Give the place in the agent's queue back.
    ReleasePlace,
    /// Give up the turn that was reserved in the job's episode.
    AbandonContinuation,
    /// Register the run's cancellation token.
    RegisterToken,
    /// Drop the run's cancellation token.
    RemoveToken,
    /// Note the run on the episode of its job.
    NoteRun(JobId),
    /// Publish `run_error`.
    RunError(S),
    /// Report the run's exit, without tool calls, to the episode of its job.
    FinishEpisode,
    /// Publish `run_created`.
    PublishCreated {
        /// How many runs it waits for.
        queued_behind: usize,
    },
    /// Let the queued run start. It waits for this, and whoever publishes the
    /// announcement does this next.
    LetStart,
}

impl EnqueueEffect<String> {
    /// The mathematical reading.
    pub open spec fn view(&self) -> EnqueueEffect<Seq<char>> {
        match *self {
            EnqueueEffect::AcquireGate => EnqueueEffect::AcquireGate,
            EnqueueEffect::ReleaseGate => EnqueueEffect::ReleaseGate,
            EnqueueEffect::AcquireCancelLock => EnqueueEffect::AcquireCancelLock,
            EnqueueEffect::ReleaseCancelLock => EnqueueEffect::ReleaseCancelLock,
            EnqueueEffect::ReleasePlace => EnqueueEffect::ReleasePlace,
            EnqueueEffect::AbandonContinuation => EnqueueEffect::AbandonContinuation,
            EnqueueEffect::RegisterToken => EnqueueEffect::RegisterToken,
            EnqueueEffect::RemoveToken => EnqueueEffect::RemoveToken,
            EnqueueEffect::NoteRun(job) => EnqueueEffect::NoteRun(job),
            EnqueueEffect::RunError(m) => EnqueueEffect::RunError(m@),
            EnqueueEffect::FinishEpisode => EnqueueEffect::FinishEpisode,
            EnqueueEffect::PublishCreated { queued_behind } => EnqueueEffect::PublishCreated {
                queued_behind,
            },
            EnqueueEffect::LetStart => EnqueueEffect::LetStart,
        }
    }
}

/// The readings of effects, in order.
pub open spec fn effects_view(effects: Seq<EnqueueEffect<String>>) -> Seq<
    EnqueueEffect<Seq<char>>,
> {
    Seq::new(effects.len(), |i: int| effects[i]@)
}

/// What has to be done next outside.
#[derive(Debug, Clone, Copy, PartialEq, Eq, Structural)]
pub enum EnqueuePhase {
    /// Wait for a place in the agent's queue.
    Reserving,
    /// Look the session up.
    FindingSession,
    /// Create the session that the context id determines.
    CreatingSession,
    /// Look whether the operator cancelled the job that the session belongs
    /// to.
    CheckingIntent,
    /// Store the run.
    Inserting,
    /// Hand the run to the queue, at low priority.
    Submitting,
    /// Mark the run failed with [`queue_closed`].
    MarkingFailed,
    /// The run is queued.
    Enqueued,
    /// There is no run.
    Suppressed,
}

/// The place that a run got in its agent's queue.
#[derive(Debug, Clone, Copy, PartialEq, Eq, Structural)]
pub struct QueueReceipt {
    /// How many runs are queued before it.
    pub queued_ahead: usize,
    /// The agent is running another run.
    pub agent_running: bool,
}

/// What happened outside.
#[derive(Debug)]
pub enum EnqueueEvent<S> {
    /// There is a place in the agent's queue, or the queue is closed.
    Reserved(bool),
    /// The session with the wanted id, by its own id.
    SessionRead(Option<SessionId>),
    /// The session was created, by its own id, or could not be stored.
    SessionCreated(Option<SessionId>),
    /// The operator cancelled the job that the session belongs to, or not.
    IntentRead(bool),
    /// The run was stored, or not.
    Inserted(bool),
    /// The queue took the run, or is closed.
    Submitted(Option<QueueReceipt>),
    /// The run was marked failed, unless that could not be stored.
    FailureMarked(Option<S>),
}

impl EnqueueEvent<String> {
    /// The mathematical reading.
    pub open spec fn view(&self) -> EnqueueEvent<Seq<char>> {
        match *self {
            EnqueueEvent::Reserved(b) => EnqueueEvent::Reserved(b),
            EnqueueEvent::SessionRead(s) => EnqueueEvent::SessionRead(s),
            EnqueueEvent::SessionCreated(s) => EnqueueEvent::SessionCreated(s),
            EnqueueEvent::IntentRead(b) => EnqueueEvent::IntentRead(b),
            EnqueueEvent::Inserted(b) => EnqueueEvent::Inserted(b),
            EnqueueEvent::Submitted(q) => EnqueueEvent::Submitted(q),
            EnqueueEvent::FailureMarked(e) => EnqueueEvent::FailureMarked(
                crate::context::text_of(e),
            ),
        }
    }
}

/// What is fixed about the run before it is admitted.
#[derive(Debug)]
pub struct TriggeredRun {
    /// The run as it was asked for.
    pub request: RunRequest<String>,
    /// The session's id is the one that its context id determines.
    pub deterministic: bool,
}

impl TriggeredRun {
    /// The session begins its life with the first run on it.
    pub open spec fn opens_session(&self) -> bool {
        begins_with(self.request.context_id@, "notifications:"@) && self.deterministic
    }
}

/// The error of a run that its queue did not take.
pub open spec fn queue_closed() -> Seq<char> {
    "Run queue closed before dispatch"@
}

/// Writes the error of a run that its queue did not take.
pub fn queue_closed_text() -> (r: String)
    ensures
        r@ == queue_closed(),
{
    "Run queue closed before dispatch".to_owned()
}

/// The effects of giving a run up while the session's gate is held.
pub open spec fn given_up() -> Seq<EnqueueEffect<Seq<char>>> {
    seq![
        EnqueueEffect::ReleaseGate,
        EnqueueEffect::ReleasePlace,
        EnqueueEffect::AbandonContinuation,
    ]
}

/// What a session that was found or created leads to.
pub open spec fn session_step(run: TriggeredRun, found: SessionId) -> (
    EnqueuePhase,
    Seq<EnqueueEffect<Seq<char>>>,
) {
    if found == run.request.session_id {
        (EnqueuePhase::CheckingIntent, seq![EnqueueEffect::AcquireCancelLock])
    } else {
        (EnqueuePhase::Suppressed, given_up())
    }
}

/// One step of the admission. An event that does not answer the phase changes
/// nothing.
pub open spec fn enqueue_step(
    run: TriggeredRun,
    phase: EnqueuePhase,
    event: EnqueueEvent<Seq<char>>,
) -> (EnqueuePhase, Seq<EnqueueEffect<Seq<char>>>) {
    match (phase, event) {
        (EnqueuePhase::Reserving, EnqueueEvent::Reserved(true)) => (
            EnqueuePhase::FindingSession,
            seq![EnqueueEffect::AcquireGate],
        ),
        (EnqueuePhase::Reserving, EnqueueEvent::Reserved(false)) => (
            EnqueuePhase::Suppressed,
            seq![EnqueueEffect::AbandonContinuation],
        ),
        (EnqueuePhase::FindingSession, EnqueueEvent::SessionRead(Some(found))) => session_step(
            run,
            found,
        ),
        (EnqueuePhase::FindingSession, EnqueueEvent::SessionRead(None)) => if run.opens_session() {
            (EnqueuePhase::CreatingSession, seq![])
        } else {
            (EnqueuePhase::Suppressed, given_up())
        },
        (EnqueuePhase::CreatingSession, EnqueueEvent::SessionCreated(Some(made))) => session_step(
            run,
            made,
        ),
        (EnqueuePhase::CreatingSession, EnqueueEvent::SessionCreated(None)) => (
            EnqueuePhase::Suppressed,
            given_up(),
        ),
        (EnqueuePhase::CheckingIntent, EnqueueEvent::IntentRead(true)) => (
            EnqueuePhase::Suppressed,
            seq![EnqueueEffect::ReleaseCancelLock] + given_up(),
        ),
        (EnqueuePhase::CheckingIntent, EnqueueEvent::IntentRead(false)) => (
            EnqueuePhase::Inserting,
            seq![EnqueueEffect::RegisterToken],
        ),
        (EnqueuePhase::Inserting, EnqueueEvent::Inserted(false)) => (
            EnqueuePhase::Suppressed,
            seq![EnqueueEffect::RemoveToken, EnqueueEffect::ReleaseCancelLock] + given_up(),
        ),
        (EnqueuePhase::Inserting, EnqueueEvent::Inserted(true)) => (
            EnqueuePhase::Submitting,
            (match run.request.job_id {
                Some(job) => seq![EnqueueEffect::NoteRun(job)],
                None => seq![],
            }) + seq![EnqueueEffect::ReleaseCancelLock, EnqueueEffect::ReleaseGate],
        ),
        (EnqueuePhase::Submitting, EnqueueEvent::Submitted(Some(receipt))) => (
            EnqueuePhase::Enqueued,
            seq![
                EnqueueEffect::PublishCreated { queued_behind: runs_before(receipt) as usize },
                EnqueueEffect::LetStart,
            ],
        ),
        (EnqueuePhase::Submitting, EnqueueEvent::Submitted(None)) => (
            EnqueuePhase::MarkingFailed,
            seq![],
        ),
        (EnqueuePhase::MarkingFailed, EnqueueEvent::FailureMarked(error)) => (
            EnqueuePhase::Suppressed,
            (match error {
                Some(e) => seq![
                    EnqueueEffect::RunError(
                        "Triggered run dispatch failure could not be persisted: "@ + e,
                    ),
                ],
                None => seq![],
            }) + seq![EnqueueEffect::RemoveToken, EnqueueEffect::FinishEpisode],
        ),
        _ => (phase, seq![]),
    }
}

/// How many runs a queued run waits for: those queued before it, and the one
/// that the agent is running.
pub open spec fn runs_before(receipt: QueueReceipt) -> int {
    receipt.queued_ahead + if receipt.agent_running {
        1int
    } else {
        0int
    }
}

/// Counts the runs that a queued run waits for.
pub fn queued_behind(receipt: &QueueReceipt) -> (r: usize)
    requires
        runs_before(*receipt) <= usize::MAX,
    ensures
        r == runs_before(*receipt),
{
    if receipt.agent_running {
        receipt.queued_ahead + 1
    } else {
        receipt.queued_ahead
    }
}

fn give_up(out: &mut Vec<EnqueueEffect<String>>)
    ensures
        effects_view(final(out)@) == effects_view(old(out)@) + given_up(),
{
    out.push(EnqueueEffect::ReleaseGate);
    out.push(EnqueueEffect::ReleasePlace);
    out.push(EnqueueEffect::AbandonContinuation);
}

fn check_session(
    run: &TriggeredRun,
    found: SessionId,
    out: &mut Vec<EnqueueEffect<String>>,
) -> (r: EnqueuePhase)
    requires
        old(out)@.len() == 0,
    ensures
        (r, effects_view(final(out)@)) == session_step(*run, found),
{
    if found == run.request.session_id {
        out.push(EnqueueEffect::AcquireCancelLock);
        EnqueuePhase::CheckingIntent
    } else {
        give_up(out);
        EnqueuePhase::Suppressed
    }
}

/// Takes the admission of a triggered run one step further.
pub fn enqueue_triggered_run(
    run: &TriggeredRun,
    phase: EnqueuePhase,
    event: EnqueueEvent<String>,
) -> (r: (EnqueuePhase, Vec<EnqueueEffect<String>>))
    requires
        event matches EnqueueEvent::Submitted(Some(receipt)) ==> runs_before(receipt)
            <= usize::MAX,
    ensures
        (r.0, effects_view(r.1@)) == enqueue_step(*run, phase, event@),
{
    let mut out: Vec<EnqueueEffect<String>> = Vec::new();
    let next: EnqueuePhase = match (phase, event) {
        (EnqueuePhase::Reserving, EnqueueEvent::Reserved(there)) => {
            if there {
                out.push(EnqueueEffect::AcquireGate);
                EnqueuePhase::FindingSession
            } else {
                out.push(EnqueueEffect::AbandonContinuation);
                EnqueuePhase::Suppressed
            }
        },
        (EnqueuePhase::FindingSession, EnqueueEvent::SessionRead(found)) => match found {
            Some(id) => check_session(run, id, &mut out),
            None => if starts_with(run.request.context_id.as_str(), "notifications:")
                && run.deterministic {
                EnqueuePhase::CreatingSession
            } else {
                give_up(&mut out);
                EnqueuePhase::Suppressed
            },
        },
        (EnqueuePhase::CreatingSession, EnqueueEvent::SessionCreated(made)) => match made {
            Some(id) => check_session(run, id, &mut out),
            None => {
                give_up(&mut out);
                EnqueuePhase::Suppressed
            },
        },
        (EnqueuePhase::CheckingIntent, EnqueueEvent::IntentRead(cancelled)) => {
            if cancelled {
                out.push(EnqueueEffect::ReleaseCancelLock);
                give_up(&mut out);
                EnqueuePhase::Suppressed
            } else {
                out.push(EnqueueEffect::RegisterToken);
                EnqueuePhase::Inserting
            }
        },
        (EnqueuePhase::Inserting, EnqueueEvent::Inserted(stored)) => {
            if stored {
                if let Some(job) = run.request.job_id {
                    out.push(EnqueueEffect::NoteRun(job));
                }
                out.push(EnqueueEffect::ReleaseCancelLock);
                out.push(EnqueueEffect::ReleaseGate);
                EnqueuePhase::Submitting
            } else {
                out.push(EnqueueEffect::RemoveToken);
                out.push(EnqueueEffect::ReleaseCancelLock);
                give_up(&mut out);
                EnqueuePhase::Suppressed
            }
        },
        (EnqueuePhase::Submitting, EnqueueEvent::Submitted(receipt)) => match receipt {
            Some(place) => {
                out.push(EnqueueEffect::PublishCreated { queued_behind: queued_behind(&place) });
                out.push(EnqueueEffect::LetStart);
                EnqueuePhase::Enqueued
            },
            None => EnqueuePhase::MarkingFailed,
        },
        (EnqueuePhase::MarkingFailed, EnqueueEvent::FailureMarked(error)) => {
            if let Some(e) = error {
                out.push(
                    EnqueueEffect::RunError(
                        concat(
                            "Triggered run dispatch failure could not be persisted: ",
                            e.as_str(),
                        ),
                    ),
                );
            }
            out.push(EnqueueEffect::RemoveToken);
            out.push(EnqueueEffect::FinishEpisode);
            EnqueuePhase::Suppressed
        },
        (other, _) => other,
    };
    (next, out)
}

/// The phase and all effects after a sequence of events.
pub open spec fn enqueue_trace(run: TriggeredRun, events: Seq<EnqueueEvent<Seq<char>>>) -> (
    EnqueuePhase,
    Seq<EnqueueEffect<Seq<char>>>,
)
    decreases events.len(),
{
    if events.len() == 0 {
        (EnqueuePhase::Reserving, seq![])
    } else {
        let (phase, effects) = enqueue_trace(run, events.drop_last());
        let (next, more) = enqueue_step(run, phase, events.last());
        (next, effects + more)
    }
}

/// What an admission holds, and what it has done about the job's episode.
pub struct Ledger {
    /// Session gates held.
    pub gates: int,
    /// Cancellation locks held.
    pub cancel_locks: int,
    /// Tokens registered.
    pub tokens: int,
    /// Reserved turns given up or reported as over.
    pub turns_returned: int,
    /// Runs noted on the episode.
    pub noted: int,
    /// Runs announced.
    pub announced: int,
    /// Runs allowed to start.
    pub started: int,
}

/// The ledger after one more effect.
pub open spec fn entered(ledger: Ledger, effect: EnqueueEffect<Seq<char>>) -> Ledger {
    match effect {
        EnqueueEffect::AcquireGate => Ledger { gates: ledger.gates + 1, ..ledger },
        EnqueueEffect::ReleaseGate => Ledger { gates: ledger.gates - 1, ..ledger },
        EnqueueEffect::AcquireCancelLock => Ledger {
            cancel_locks: ledger.cancel_locks + 1,
            ..ledger
        },
        EnqueueEffect::ReleaseCancelLock => Ledger {
            cancel_locks: ledger.cancel_locks - 1,
            ..ledger
        },
        EnqueueEffect::RegisterToken => Ledger { tokens: ledger.tokens + 1, ..ledger },
        EnqueueEffect::RemoveToken => Ledger { tokens: ledger.tokens - 1, ..ledger },
        EnqueueEffect::AbandonContinuation | EnqueueEffect::FinishEpisode => Ledger {
            turns_returned: ledger.turns_returned + 1,
            ..ledger
        },
        EnqueueEffect::NoteRun(_) => Ledger { noted: ledger.noted + 1, ..ledger },
        EnqueueEffect::PublishCreated { .. } => Ledger {
            announced: ledger.announced + 1,
            ..ledger
        },
        EnqueueEffect::LetStart => Ledger { started: ledger.started + 1, ..ledger },
        EnqueueEffect::ReleasePlace | EnqueueEffect::RunError(_) => ledger,
    }
}

/// The ledger of a sequence of effects.
pub open spec fn ledger(effects: Seq<EnqueueEffect<Seq<char>>>) -> Ledger
    decreases effects.len(),
{
    if effects.len() == 0 {
        Ledger {
            gates: 0,
            cancel_locks: 0,
            tokens: 0,
            turns_returned: 0,
            noted: 0,
            announced: 0,
            started: 0,
        }
    } else {
        entered(ledger(effects.drop_last()), effects.last())
    }
}

/// The ledger over parts.
spec fn carried(start: Ledger, effects: Seq<EnqueueEffect<Seq<char>>>) -> Ledger
    decreases effects.len(),
{
    if effects.len() == 0 {
        start
    } else {
        entered(carried(start, effects.drop_last()), effects.last())
    }
}

proof fn lemma_ledger_concat(a: Seq<EnqueueEffect<Seq<char>>>, b: Seq<EnqueueEffect<Seq<char>>>)
    ensures
        ledger(a + b) == carried(ledger(a), b),
    decreases b.len(),
{
    if b.len() > 0 {
        lemma_ledger_concat(a, b.drop_last());
        assert((a + b).drop_last() =~= a + b.drop_last());
    }
}

/// What the ledger says when a phase is reached.
pub open spec fn books(run: TriggeredRun, phase: EnqueuePhase, l: Ledger) -> bool {
    let noted = if run.request.job_id is Some {
        1int
    } else {
        0int
    };
    match phase {
        EnqueuePhase::Reserving => l == (Ledger {
            gates: 0,
            cancel_locks: 0,
            tokens: 0,
            turns_returned: 0,
            noted: 0,
            announced: 0,
            started: 0,
        }),
        EnqueuePhase::FindingSession | EnqueuePhase::CreatingSession => l == (Ledger {
            gates: 1,
            cancel_locks: 0,
            tokens: 0,
            turns_returned: 0,
            noted: 0,
            announced: 0,
            started: 0,
        }),
        EnqueuePhase::CheckingIntent => l == (Ledger {
            gates: 1,
            cancel_locks: 1,
            tokens: 0,
            turns_returned: 0,
            noted: 0,
            announced: 0,
            started: 0,
        }),
        EnqueuePhase::Inserting => l == (Ledger {
            gates: 1,
            cancel_locks: 1,
            tokens: 1,
            turns_returned: 0,
            noted: 0,
            announced: 0,
            started: 0,
        }),
        EnqueuePhase::Submitting | EnqueuePhase::MarkingFailed => l == (Ledger {
            gates: 0,
            cancel_locks: 0,
            tokens: 1,
            turns_returned: 0,
            noted,
            announced: 0,
            started: 0,
        }),
        EnqueuePhase::Enqueued => l == (Ledger {
            gates: 0,
            cancel_locks: 0,
            tokens: 1,
            turns_returned: 0,
            noted,
            announced: 1,
            started: 1,
        }),
        EnqueuePhase::Suppressed => {
            &&& l.gates == 0 && l.cancel_locks == 0 && l.tokens == 0
            &&& l.turns_returned == 1 && l.announced == 0 && l.started == 0
            &&& l.noted <= noted
        },
    }
}

#[verifier::rlimit(60)]
proof fn lemma_step_books(
    run: TriggeredRun,
    phase: EnqueuePhase,
    event: EnqueueEvent<Seq<char>>,
    l: Ledger,
)
    requires
        books(run, phase, l),
    ensures
        books(
            run,
            enqueue_step(run, phase, event).0,
            carried(l, enqueue_step(run, phase, event).1),
        ),
{
    lemma_carried_tail(l, enqueue_step(run, phase, event).1);
}

/// The ledger of up to five effects, one after the other.
proof fn lemma_carried_tail(l: Ledger, e: Seq<EnqueueEffect<Seq<char>>>)
    ensures
        e.len() == 0 ==> carried(l, e) == l,
        e.len() == 1 ==> carried(l, e) == entered(l, e[0]),
        e.len() == 2 ==> carried(l, e) == entered(entered(l, e[0]), e[1]),
        e.len() == 3 ==> carried(l, e) == entered(entered(entered(l, e[0]), e[1]), e[2]),
        e.len() == 4 ==> carried(l, e) == entered(
            entered(entered(entered(l, e[0]), e[1]), e[2]),
            e[3],
        ),
        e.len() == 5 ==> carried(l, e) == entered(
            entered(entered(entered(entered(l, e[0]), e[1]), e[2]), e[3]),
            e[4],
        ),
    decreases e.len(),
{
    if e.len() > 0 {
        lemma_carried_tail(l, e.drop_last());
    }
}

proof fn lemma_trace_books(run: TriggeredRun, events: Seq<EnqueueEvent<Seq<char>>>)
    ensures
        books(run, enqueue_trace(run, events).0, ledger(enqueue_trace(run, events).1)),
    decreases events.len(),
{
    if events.len() > 0 {
        lemma_trace_books(run, events.drop_last());
        let (phase, effects) = enqueue_trace(run, events.drop_last());
        let (_, more) = enqueue_step(run, phase, events.last());
        lemma_ledger_concat(effects, more);
        lemma_step_books(run, phase, events.last(), ledger(effects));
    }
}

/// A reserved turn never leaks: an admission that ends without a run returns
/// it exactly once, and one that ends with a queued run leaves it to that run,
/// which is announced exactly once.
pub proof fn law_reserved_turn_is_never_lost(
    run: TriggeredRun,
    events: Seq<EnqueueEvent<Seq<char>>>,
)
    ensures
        enqueue_trace(run, events).0 is Suppressed ==> ledger(
            enqueue_trace(run, events).1,
        ).turns_returned == 1 && ledger(enqueue_trace(run, events).1).announced == 0,
        enqueue_trace(run, events).0 is Enqueued ==> ledger(
            enqueue_trace(run, events).1,
        ).turns_returned == 0 && ledger(enqueue_trace(run, events).1).announced == 1,
{
    lemma_trace_books(run, events);
}

/// No run starts before it was announced: what lets it start comes right
/// behind what announces it, whatever happens.
pub proof fn law_triggered_run_is_announced_before_it_starts(
    run: TriggeredRun,
    events: Seq<EnqueueEvent<Seq<char>>>,
    i: int,
)
    requires
        0 <= i < enqueue_trace(run, events).1.len(),
        enqueue_trace(run, events).1[i] is LetStart,
    ensures
        i > 0,
        enqueue_trace(run, events).1[i - 1] is PublishCreated,
    decreases events.len(),
{
    if events.len() > 0 {
        let (phase, effects) = enqueue_trace(run, events.drop_last());
        if i < effects.len() {
            law_triggered_run_is_announced_before_it_starts(run, events.drop_last(), i);
        }
    }
}

/// However an admission ends, it holds no gate and no lock, and a token stays registered
/// only for a queued run.
pub proof fn law_admission_holds_nothing_at_its_end(
    run: TriggeredRun,
    events: Seq<EnqueueEvent<Seq<char>>>,
)
    requires
        enqueue_trace(run, events).0 is Suppressed || enqueue_trace(run, events).0 is Enqueued,
    ensures
        ledger(enqueue_trace(run, events).1).gates == 0,
        ledger(enqueue_trace(run, events).1).cancel_locks == 0,
        ledger(enqueue_trace(run, events).1).tokens == if enqueue_trace(run, events).0 is Enqueued {
            1int
        } else {
            0int
        },
{
    lemma_trace_books(run, events);
}

/// By the time a run is handed to the queue, where it may start and end at
/// once, it has been noted on the episode that it continues.
pub proof fn law_continuation_is_noted_before_it_can_run(
    run: TriggeredRun,
    events: Seq<EnqueueEvent<Seq<char>>>,
)
    requires
        enqueue_trace(run, events).0 is Submitting,
        run.request.job_id is Some,
    ensures
        ledger(enqueue_trace(run, events).1).noted == 1,
{
    lemma_trace_books(run, events);
}

/// No run is stored, queued or announced for a session whose job the operator
/// cancelled.
pub proof fn law_cancelled_job_gets_no_run(run: TriggeredRun)
    ensures
        enqueue_step(run, EnqueuePhase::CheckingIntent, EnqueueEvent::IntentRead(true)).0
            is Suppressed,
        forall|event: EnqueueEvent<Seq<char>>, phase: EnqueuePhase|
            (#[trigger] enqueue_step(run, phase, event)).0 is Inserting && !(phase is Inserting)
                ==> phase is CheckingIntent && event == EnqueueEvent::<Seq<char>>::IntentRead(
                false,
            ),
{
}

} // verus!
