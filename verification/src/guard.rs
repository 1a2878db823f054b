//! The clean-up after a run that panicked: it settles what the interrupted
//! execution may have left open. The run's in-flight unit is not part of it:
//! unwinding has given that back already.

use crate::execution::{Effect, Effects, Event};
use crate::peer::{peer_error_with_prefix, peer_text, EndReason};
use crate::text::concat;
use vstd::prelude::*;
use vstd::string::*;

verus! {

/// What has to be done next outside.
#[derive(Debug, PartialEq, Eq)]
pub enum GuardPhase<S> {
    /// Mark the run failed.
    Marking,
    /// Sanitise the error that marking it met.
    TellingPeer(S),
    /// Nothing is left to do.
    Done,
}

impl GuardPhase<String> {
    /// The mathematical reading.
    pub open spec fn view(&self) -> GuardPhase<Seq<char>> {
        match *self {
            GuardPhase::Marking => GuardPhase::Marking,
            GuardPhase::TellingPeer(e) => GuardPhase::TellingPeer(e@),
            GuardPhase::Done => GuardPhase::Done,
        }
    }
}

/// The error that a run which panicked is recorded with.
pub open spec fn panic_reason() -> Seq<char> {
    "Run panicked during execution"@
}

/// Writes the error that a run which panicked is recorded with.
pub fn panic_reason_text() -> (r: String)
    ensures
        r@ == panic_reason(),
{
    "Run panicked during execution".to_owned()
}

/// The effects that close a run which panicked. They do not depend on whether
/// the run was over already: the panic may have come after that.
pub open spec fn guard_closing() -> Seq<Effect<Seq<char>>> {
    seq![
        Effect::ActivityEnded,
        Effect::RemoveSenders,
        Effect::PurgeTerminalSenders,
        Effect::RemoveCancelToken,
        Effect::ClearApprovals,
        Effect::FinishEpisode { tool_calls: None },
        Effect::AdvanceQueue,
    ]
}

/// The end of the conversation of a run that panicked.
pub open spec fn panic_end(message: Seq<char>) -> Effect<Seq<char>> {
    Effect::EndConversation(EndReason::Errored { message, interrupted: true })
}

/// One step of the clean-up. An event that does not answer the phase changes
/// nothing.
pub open spec fn guard_step(phase: GuardPhase<Seq<char>>, event: Event<Seq<char>>) -> (
    GuardPhase<Seq<char>>,
    Seq<Effect<Seq<char>>>,
) {
    match (phase, event) {
        (GuardPhase::Marking, Event::Marked(Ok(true))) => (
            GuardPhase::Done,
            seq![Effect::RunError(panic_reason()), panic_end(panic_reason())] + guard_closing(),
        ),
        (GuardPhase::Marking, Event::Marked(Ok(false))) => (GuardPhase::Done, guard_closing()),
        (GuardPhase::Marking, Event::Marked(Err(e))) => (
            GuardPhase::TellingPeer(e),
            seq![Effect::RunError("Run panic could not be persisted: "@ + e)],
        ),
        (GuardPhase::TellingPeer(_), Event::Sanitised(t)) => (
            GuardPhase::Done,
            seq![panic_end("Run panic could not be persisted: "@ + peer_text(t))] + guard_closing(),
        ),
        _ => (phase, seq![]),
    }
}

fn close_after_panic(out: &mut Effects)
    ensures
        final(out)@ == old(out)@ + guard_closing(),
{
    out.add(Effect::ActivityEnded);
    out.add(Effect::RemoveSenders);
    out.add(Effect::PurgeTerminalSenders);
    out.add(Effect::RemoveCancelToken);
    out.add(Effect::ClearApprovals);
    out.add(Effect::FinishEpisode { tool_calls: None });
    out.add(Effect::AdvanceQueue);
}

/// Takes the clean-up after a panic one step further. The operator sees the
/// raw storage error; the peer's copy of it is sanitised and bounded.
pub fn reconcile_panic(phase: GuardPhase<String>, event: Event<String>) -> (r: (
    GuardPhase<String>,
    Effects,
))
    ensures
        (r.0@, r.1@) == guard_step(phase@, event@),
{
    let mut out: Effects = Effects::none();
    let next: GuardPhase<String> = match (phase, event) {
        (GuardPhase::Marking, Event::Marked(marked)) => match marked {
            Ok(true) => {
                out.add(Effect::RunError(panic_reason_text()));
                out.add(
                    Effect::EndConversation(
                        EndReason::Errored { message: panic_reason_text(), interrupted: true },
                    ),
                );
                close_after_panic(&mut out);
                GuardPhase::Done
            },
            Ok(false) => {
                close_after_panic(&mut out);
                GuardPhase::Done
            },
            Err(error) => {
                out.add(
                    Effect::RunError(concat("Run panic could not be persisted: ", error.as_str())),
                );
                GuardPhase::TellingPeer(error)
            },
        },
        (GuardPhase::TellingPeer(_), Event::Sanitised(text)) => {
            let message: String = peer_error_with_prefix(
                "Run panic could not be persisted: ",
                text.as_str(),
            );
            out.add(Effect::EndConversation(EndReason::Errored { message, interrupted: true }));
            close_after_panic(&mut out);
            GuardPhase::Done
        },
        (other, _) => other,
    };
    (next, out)
}

/// Whatever the state the panic left the run in, the step that ends the
/// clean-up ends the session's activity, drops the run's event senders and its
/// cancellation token, reports to the job's episode, and advances the queue
/// last.
pub proof fn law_panic_leaves_nothing_open(
    phase: GuardPhase<Seq<char>>,
    event: Event<Seq<char>>,
)
    requires
        !(phase is Done),
        guard_step(phase, event).0 is Done,
    ensures
        guard_step(phase, event).1.contains(Effect::ActivityEnded),
        guard_step(phase, event).1.contains(Effect::RemoveSenders),
        guard_step(phase, event).1.contains(Effect::RemoveCancelToken),
        guard_step(phase, event).1.contains(Effect::FinishEpisode { tool_calls: None }),
        guard_step(phase, event).1.last() is AdvanceQueue,
{
    let effects = guard_step(phase, event).1;
    let n = effects.len();
    assert(effects[n - 7] is ActivityEnded);
    assert(effects[n - 6] is RemoveSenders);
    assert(effects[n - 4] is RemoveCancelToken);
    assert(effects[n - 2] == Effect::<Seq<char>>::FinishEpisode { tool_calls: None });
}

} // verus!
