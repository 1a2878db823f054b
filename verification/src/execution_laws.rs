//! What holds of every execution of a run, whatever happens outside.

use crate::execution::{
    cancel_published, cleaned_up, closing, committed, exec_step, failure_published, released,
    stored, Effect, Event, Outcome, Phase, ResolvedConfig, RunFacts, RunSetting, ToolCalls,
    TurnOutput,
};
use crate::runtime_plan::posture_for_run;
use std::sync::Arc;
use vstd::prelude::*;

verus! {

/// The phase and all effects after a sequence of events.
pub open spec fn exec_trace(run: RunSetting, events: Seq<Event<Seq<char>>>) -> (
    Phase<Seq<char>>,
    Seq<Effect<Seq<char>>>,
)
    decreases events.len(),
{
    if events.len() == 0 {
        (Phase::Begin, seq![])
    } else {
        let (phase, effects) = exec_trace(run, events.drop_last());
        let (next, more) = exec_step(run, phase, events.last());
        (next, effects + more)
    }
}

/// Kinds of effects that the laws count.
pub enum Kind {
    /// The event that tells subscribers that the run is over.
    Terminal,
    /// The event that the run started.
    Started,
    /// The end of the session's activity.
    ActivityEnded,
    /// The start of the session's activity.
    ActivityStarted,
    /// The report to the job's episode.
    EpisodeFinished,
    /// The advance of the queue.
    QueueAdvanced,
    /// Word to the peer of a direct message conversation.
    PeerTold,
    /// The removal of the run's cancellation token.
    TokenRemoved,
    /// The removal of the run's event senders.
    SendersRemoved,
    /// The start of the time that the run counts as in flight.
    FlightBegun,
    /// The end of that time.
    FlightEnded,
}

/// An effect is of a kind.
pub open spec fn of_kind(effect: Effect<Seq<char>>, kind: Kind) -> bool {
    match kind {
        Kind::Terminal => effect is RunFinished || effect is RunCancelled || effect is RunError
            || effect is RunErrorWithCode,
        Kind::Started => effect is RunStarted,
        Kind::ActivityEnded => effect is ActivityEnded,
        Kind::ActivityStarted => effect is ActivityStarted,
        Kind::EpisodeFinished => effect is FinishEpisode,
        Kind::QueueAdvanced => effect is AdvanceQueue,
        Kind::PeerTold => effect is NotifyPeerFailed || effect is NotifyPeerCancelled
            || effect is EndConversation || effect is CompleteConversation,
        Kind::TokenRemoved => effect is RemoveCancelToken,
        Kind::SendersRemoved => effect is RemoveSenders,
        Kind::FlightBegun => effect is TrackInFlight,
        Kind::FlightEnded => effect is UntrackInFlight,
    }
}

/// How many effects are of a kind.
pub open spec fn count(effects: Seq<Effect<Seq<char>>>, kind: Kind) -> nat
    decreases effects.len(),
{
    if effects.len() == 0 {
        0
    } else {
        count(effects.drop_last(), kind) + if of_kind(effects.last(), kind) {
            1nat
        } else {
            0nat
        }
    }
}

/// Counting goes over parts.
proof fn lemma_count_concat(a: Seq<Effect<Seq<char>>>, b: Seq<Effect<Seq<char>>>, kind: Kind)
    ensures
        count(a + b, kind) == count(a, kind) + count(b, kind),
    decreases b.len(),
{
    if b.len() > 0 {
        lemma_count_concat(a, b.drop_last(), kind);
        assert((a + b).drop_last() =~= a + b.drop_last());
    }
}

/// Counting one more effect.
proof fn lemma_count_push(a: Seq<Effect<Seq<char>>>, e: Effect<Seq<char>>, kind: Kind)
    ensures
        count(a.push(e), kind) == count(a, kind) + if of_kind(e, kind) {
            1nat
        } else {
            0nat
        },
{
    assert(a.push(e).drop_last() =~= a);
}

/// The counts of the recurring groups of effects.
proof fn lemma_count_groups(facts: RunFacts, calls: Option<ToolCalls>, kind: Kind)
    ensures
        count(seq![], kind) == 0,
        count(released(calls), kind) == if kind is EpisodeFinished || kind is QueueAdvanced || kind
            is FlightEnded {
            1nat
        } else {
            0nat
        },
        count(cleaned_up(), kind) == count(released(None), kind) + if kind is TokenRemoved || kind
            is SendersRemoved {
            1nat
        } else {
            0nat
        },
        count(closing(facts, calls), kind) == count(released(calls), kind) + if kind
            is ActivityEnded || kind is TokenRemoved || kind is SendersRemoved {
            1nat
        } else {
            0nat
        },
{
    let none = Seq::<Effect<Seq<char>>>::empty();
    let r = |c: Option<ToolCalls>| released(c);
    assert forall|c: Option<ToolCalls>| count(#[trigger] r(c), kind) == (if kind is EpisodeFinished || kind
        is QueueAdvanced || kind is FlightEnded {
        1nat
    } else {
        0nat
    }) by {
        let r1 = none.push(Effect::FinishEpisode { tool_calls: c });
        let r2 = r1.push(Effect::AdvanceQueue);
        lemma_count_push(none, Effect::FinishEpisode { tool_calls: c }, kind);
        lemma_count_push(r1, Effect::AdvanceQueue, kind);
        lemma_count_push(r2, Effect::UntrackInFlight, kind);
        assert(released(c) =~= r2.push(Effect::UntrackInFlight));
    }
    assert(r(calls) == released(calls));
    let head = none.push(Effect::RemoveSenders).push(Effect::RemoveCancelToken).push(
        Effect::ClearApprovals,
    );
    lemma_count_push(none, Effect::RemoveSenders, kind);
    lemma_count_push(none.push(Effect::RemoveSenders), Effect::RemoveCancelToken, kind);
    lemma_count_push(
        none.push(Effect::RemoveSenders).push(Effect::RemoveCancelToken),
        Effect::ClearApprovals,
        kind,
    );
    assert(cleaned_up() =~= head + released(None));
    lemma_count_concat(head, released(None), kind);
    let a = none.push(Effect::ActivityEnded);
    lemma_count_push(none, Effect::ActivityEnded, kind);
    let b = if facts.dm_peer {
        none.push(Effect::PeerActivityEnded)
    } else {
        none
    };
    lemma_count_push(none, Effect::PeerActivityEnded, kind);
    lemma_count_concat(a, b, kind);
    let c1 = none.push(Effect::TouchAgent);
    let c2 = c1.push(Effect::RemoveSenders);
    let c3 = c2.push(Effect::PurgeTerminalSenders);
    let c4 = c3.push(Effect::RemoveCancelToken);
    let c5 = c4.push(Effect::ClearApprovals);
    lemma_count_push(none, Effect::TouchAgent, kind);
    lemma_count_push(c1, Effect::RemoveSenders, kind);
    lemma_count_push(c2, Effect::PurgeTerminalSenders, kind);
    lemma_count_push(c3, Effect::RemoveCancelToken, kind);
    lemma_count_push(c4, Effect::ClearApprovals, kind);
    lemma_count_concat(a + b, c5, kind);
    lemma_count_concat(a + b + c5, released(calls), kind);
    assert(closing(facts, calls) =~= a + b + c5 + released(calls));
}

/// The counts of what marking a run publishes.
proof fn lemma_count_published(
    message: Seq<char>,
    unstored: Seq<char>,
    marked: Result<bool, Seq<char>>,
    kind: Kind,
)
    ensures
        count(failure_published(message, unstored, marked), kind) == if kind is Terminal && marked
            != Ok::<bool, Seq<char>>(false) {
            1nat
        } else {
            0nat
        },
        count(cancel_published(marked), kind) == if kind is Terminal && marked != Ok::<
            bool,
            Seq<char>,
        >(false) {
            1nat
        } else {
            0nat
        },
{
    let none = Seq::<Effect<Seq<char>>>::empty();
    lemma_count_push(none, Effect::RunError(message), kind);
    lemma_count_push(none, Effect::RunCancelled, kind);
    if let Err(e) = marked {
        lemma_count_push(none, Effect::RunError(unstored + e), kind);
        lemma_count_push(
            none,
            Effect::RunError("Run cancellation could not be persisted: "@ + e),
            kind,
        );
    }
}

/// One if an effect is of a kind, else zero.
spec fn one_if(effect: Effect<Seq<char>>, kind: Kind) -> nat {
    if of_kind(effect, kind) {
        1
    } else {
        0
    }
}

proof fn lemma_count_1(a: Effect<Seq<char>>, kind: Kind)
    ensures
        count(seq![a], kind) == one_if(a, kind),
{
    lemma_count_push(seq![], a, kind);
}

proof fn lemma_count_2(a: Effect<Seq<char>>, b: Effect<Seq<char>>, kind: Kind)
    ensures
        count(seq![a, b], kind) == one_if(a, kind) + one_if(b, kind),
{
    lemma_count_1(a, kind);
    lemma_count_push(seq![a], b, kind);
    assert(seq![a].push(b) =~= seq![a, b]);
}

proof fn lemma_count_3(
    a: Effect<Seq<char>>,
    b: Effect<Seq<char>>,
    c: Effect<Seq<char>>,
    kind: Kind,
)
    ensures
        count(seq![a, b, c], kind) == one_if(a, kind) + one_if(b, kind) + one_if(c, kind),
{
    lemma_count_2(a, b, kind);
    lemma_count_push(seq![a, b], c, kind);
    assert(seq![a, b].push(c) =~= seq![a, b, c]);
}

proof fn lemma_count_4(
    a: Effect<Seq<char>>,
    b: Effect<Seq<char>>,
    c: Effect<Seq<char>>,
    d: Effect<Seq<char>>,
    kind: Kind,
)
    ensures
        count(seq![a, b, c, d], kind) == one_if(a, kind) + one_if(b, kind) + one_if(c, kind)
            + one_if(d, kind),
{
    lemma_count_3(a, b, c, kind);
    lemma_count_push(seq![a, b, c], d, kind);
    assert(seq![a, b, c].push(d) =~= seq![a, b, c, d]);
}

/// How often a kind of effect has happened at most when a phase is reached.
pub open spec fn at_most(phase: Phase<Seq<char>>, kind: Kind) -> nat {
    match kind {
        Kind::Terminal => match phase {
            Phase::QueuedVerdict(_)
            | Phase::ReleasingAfterPeer(_)
            | Phase::CleaningAfterPeer(_)
            | Phase::EndVerdict { .. }
            | Phase::EndingAfterPeer { .. }
            | Phase::Done => 1,
            _ => 0,
        },
        Kind::Started | Kind::ActivityStarted => match phase {
            Phase::BuildingRuntime
            | Phase::InitFailed { .. }
            | Phase::Running(_)
            | Phase::Completing { .. }
            | Phase::Cancelling { .. }
            | Phase::Failing { .. }
            | Phase::EndVerdict { .. }
            | Phase::EndingAfterPeer { .. }
            | Phase::CleaningAfterPeer(_)
            | Phase::Done => 1,
            _ => 0,
        },
        Kind::ActivityEnded => match phase {
            Phase::QueuedVerdict(_)
            | Phase::RefusedVerdict
            | Phase::ReleasingAfterPeer(_)
            | Phase::CleaningAfterPeer(_)
            | Phase::Done => 1,
            _ => 0,
        },
        Kind::EpisodeFinished | Kind::QueueAdvanced | Kind::PeerTold | Kind::FlightEnded => {
            if phase is Done {
                1
            } else {
                0
            }
        },
        Kind::TokenRemoved | Kind::SendersRemoved => match phase {
            Phase::QueuedVerdict(_)
            | Phase::RefusedVerdict
            | Phase::ReleasingAfterPeer(_)
            | Phase::Done => 1,
            _ => 0,
        },
        Kind::FlightBegun => if phase is Begin {
            0
        } else {
            1
        },
    }
}

/// The kinds whose count a phase fixes exactly.
pub open spec fn exact(run: RunSetting, kind: Kind) -> bool {
    match kind {
        Kind::PeerTold => !run.input_pre_persisted,
        Kind::Terminal | Kind::Started | Kind::ActivityStarted => false,
        _ => true,
    }
}

/// A phase in which stored input is claimed.
pub open spec fn claims_input(phase: Phase<Seq<char>>) -> bool {
    phase is ClaimingInput || phase is ClaimFailed
}

/// The tool calls that a turn left, if it says which.
pub open spec fn calls_left(outcome: Outcome<Seq<char>>) -> Option<ToolCalls> {
    match outcome {
        Outcome::Completed(output) => Some(output.tool_calls),
        Outcome::CancelledWithToolCalls(calls) => Some(calls),
        Outcome::FailedWithToolCalls { tool_calls, .. } => Some(tool_calls),
        Outcome::Cancelled | Outcome::Failed(_) => None,
    }
}

/// One step keeps to the bounds of the phases it leads between.
#[verifier::rlimit(80)]
proof fn lemma_step_counts(
    run: RunSetting,
    phase: Phase<Seq<char>>,
    event: Event<Seq<char>>,
    kind: Kind,
)
    ensures
        at_most(phase, kind) + count(exec_step(run, phase, event).1, kind) <= at_most(
            exec_step(run, phase, event).0,
            kind,
        ),
        exact(run, kind) && (kind is PeerTold ==> !claims_input(phase)) ==> at_most(phase, kind)
            + count(exec_step(run, phase, event).1, kind) == at_most(
            exec_step(run, phase, event).0,
            kind,
        ),
        claims_input(exec_step(run, phase, event).0) ==> run.input_pre_persisted || claims_input(
            phase,
        ),
        kind is Terminal && count(exec_step(run, phase, event).1, kind) > 0 ==> event is Marked && (
        event == Event::<Seq<char>>::Marked(Ok(false)) ==> phase is BudgetRejected),
        kind is Started || kind is ActivityStarted ==> count(exec_step(run, phase, event).1, kind)
            == if phase is Starting && event == Event::<Seq<char>>::Marked(Ok(true)) {
            1nat
        } else {
            0nat
        },
{
    let none = Seq::<Effect<Seq<char>>>::empty();
    let (next, effects) = exec_step(run, phase, event);
    match (phase, event) {
        (Phase::Begin, Event::Dequeued) => {
            lemma_count_1(Effect::TrackInFlight, kind);
        },
        (Phase::ClaimFailed(m), Event::Marked(r)) => {
            let unstored = "Run input claim failure could not be persisted: "@;
            let a = failure_published(m, unstored, r);
            lemma_count_published(m, unstored, r, kind);
            lemma_count_1(Effect::ActivityEnded, kind);
            lemma_count_concat(a, seq![Effect::ActivityEnded], kind);
            lemma_count_concat(a + seq![Effect::ActivityEnded], cleaned_up(), kind);
            lemma_count_groups(RunFacts { summarise: false, dm_peer: false }, None, kind);
        },
        (Phase::CancellingQueued, Event::Marked(r)) => {
            lemma_count_published(seq![], seq![], r, kind);
            lemma_count_3(
                Effect::ActivityEnded,
                Effect::RemoveCancelToken,
                Effect::RemoveSenders,
                kind,
            );
            lemma_count_concat(
                cancel_published(r),
                seq![Effect::ActivityEnded, Effect::RemoveCancelToken, Effect::RemoveSenders],
                kind,
            );
        },
        (Phase::QueuedVerdict(_), Event::VerdictRead(_)) | (
            Phase::RefusedVerdict,
            Event::VerdictRead(_),
        ) => {
            lemma_count_1(Effect::NotifyPeerCancelled, kind);
            lemma_count_concat(seq![Effect::NotifyPeerCancelled], released(None), kind);
            lemma_count_groups(RunFacts { summarise: false, dm_peer: false }, None, kind);
        },
        (Phase::ResolveFailed(m), Event::Marked(r)) => {
            let unstored = "Run failure could not be persisted: "@;
            lemma_count_published(m, unstored, r, kind);
            lemma_count_1(Effect::ActivityEnded, kind);
            lemma_count_concat(
                failure_published(m, unstored, r),
                seq![Effect::ActivityEnded],
                kind,
            );
        },
        (Phase::BudgetRejected(m), Event::Marked(r)) => {
            lemma_count_1(Effect::ActivityEnded, kind);
            match r {
                Ok(_) => {
                    let e = Effect::RunErrorWithCode {
                        code: "INVALID_TOKEN_BUDGET_FOR_PROVIDER"@,
                        message: m,
                    };
                    lemma_count_1(e, kind);
                    lemma_count_concat(seq![e], seq![Effect::ActivityEnded], kind);
                },
                Err(t) => {
                    let e = Effect::RunError("Run failure could not be persisted: "@ + t);
                    lemma_count_1(e, kind);
                    lemma_count_concat(seq![e], seq![Effect::ActivityEnded], kind);
                },
            }
        },
        (Phase::Starting(config), Event::Marked(r)) => {
            lemma_count_2(Effect::RunStarted(config), Effect::ActivityStarted, kind);
            lemma_count_4(
                Effect::ActivityEnded,
                Effect::RemoveCancelToken,
                Effect::RemoveSenders,
                Effect::ClearApprovals,
                kind,
            );
            if let Err(t) = r {
                let e = Effect::RunError("Run start could not be persisted: "@ + t);
                let rest = seq![
                    Effect::ActivityEnded,
                    Effect::RemoveCancelToken,
                    Effect::RemoveSenders,
                    Effect::ClearApprovals,
                ];
                lemma_count_1(e, kind);
                lemma_count_concat(seq![e], rest, kind);
                assert(effects =~= seq![e] + rest);
            }
        },
        (Phase::ReleasingAfterPeer(_), Event::Sanitised(t)) => {
            let e = Effect::NotifyPeerFailed(crate::peer::peer_text(t));
            lemma_count_1(e, kind);
            lemma_count_concat(seq![e], released(None), kind);
            lemma_count_groups(RunFacts { summarise: false, dm_peer: false }, None, kind);
        },
        (Phase::CleaningAfterPeer(_), Event::Sanitised(t)) => {
            let e = Effect::NotifyPeerFailed(crate::peer::peer_text(t));
            lemma_count_1(e, kind);
            lemma_count_concat(seq![e], cleaned_up(), kind);
            lemma_count_groups(RunFacts { summarise: false, dm_peer: false }, None, kind);
        },
        (Phase::InitFailed { message, safe_reason }, Event::Marked(r)) => {
            let unstored = "Run failure could not be persisted: "@;
            let a = failure_published(message, unstored, r);
            lemma_count_published(message, unstored, r, kind);
            lemma_count_1(Effect::ActivityEnded, kind);
            lemma_count_concat(a, seq![Effect::ActivityEnded], kind);
            lemma_count_1(Effect::MarkInitFailure(safe_reason), kind);
            lemma_count_concat(
                a + seq![Effect::ActivityEnded],
                seq![Effect::MarkInitFailure(safe_reason)],
                kind,
            );
            lemma_count_concat(a + seq![Effect::ActivityEnded], none, kind);
        },
        (Phase::Running(_), Event::Finished(o)) => {
            if let Some(calls) = calls_left(o) {
                lemma_count_1(Effect::PersistToolCalls(calls), kind);
                lemma_count_1(Effect::MarkBoundary, kind);
                lemma_count_concat(stored(calls), seq![Effect::MarkBoundary], kind);
                lemma_count_concat(stored(calls), none, kind);
            }
        },
        (Phase::Completing { facts, output }, Event::Marked(r)) => {
            let finished = Effect::RunFinished(output.usage);
            let handed = Effect::CompleteConversation(output);
            lemma_count_1(finished, kind);
            lemma_count_1(Effect::SpawnSummary(output), kind);
            lemma_count_1(handed, kind);
            let s = if facts.summarise {
                seq![Effect::SpawnSummary(output)]
            } else {
                none
            };
            lemma_count_concat(seq![finished], s, kind);
            lemma_count_concat(seq![finished] + s, seq![handed], kind);
            lemma_count_concat(
                seq![finished] + s + seq![handed],
                closing(facts, calls_left(Outcome::Completed(output))),
                kind,
            );
            lemma_count_groups(facts, calls_left(Outcome::Completed(output)), kind);
            if let Err(t) = r {
                lemma_count_1(
                    Effect::RunError("Run completion could not be persisted: "@ + t),
                    kind,
                );
            }
        },
        (Phase::Cancelling { .. }, Event::Marked(r)) => {
            lemma_count_published(seq![], seq![], r, kind);
        },
        (Phase::Failing { message, .. }, Event::Marked(r)) => {
            lemma_count_published(message, "Run failure could not be persisted: "@, r, kind);
        },
        (Phase::EndVerdict { facts, calls, .. }, Event::VerdictRead(_)) => {
            let e = Effect::EndConversation(crate::peer::EndReason::UserCancelled);
            lemma_count_1(e, kind);
            lemma_count_concat(seq![e], closing(facts, calls), kind);
            lemma_count_groups(facts, calls, kind);
        },
        (Phase::EndingAfterPeer { facts, calls, .. }, Event::Sanitised(t)) => {
            let e = Effect::EndConversation(
                crate::peer::EndReason::Errored {
                    message: crate::peer::peer_text(t),
                    interrupted: true,
                },
            );
            lemma_count_1(e, kind);
            lemma_count_concat(seq![e], closing(facts, calls), kind);
            lemma_count_groups(facts, calls, kind);
        },
        _ => {},
    }
}

/// Every sequence of events keeps to the bounds of the phase it leads to.
proof fn lemma_trace_counts(run: RunSetting, events: Seq<Event<Seq<char>>>, kind: Kind)
    ensures
        count(exec_trace(run, events).1, kind) <= at_most(exec_trace(run, events).0, kind),
        exact(run, kind) ==> count(exec_trace(run, events).1, kind) == at_most(
            exec_trace(run, events).0,
            kind,
        ),
        claims_input(exec_trace(run, events).0) ==> run.input_pre_persisted,
    decreases events.len(),
{
    if events.len() > 0 {
        let (phase, effects) = exec_trace(run, events.drop_last());
        lemma_trace_counts(run, events.drop_last(), kind);
        lemma_step_counts(run, phase, events.last(), kind);
        lemma_count_concat(effects, exec_step(run, phase, events.last()).1, kind);
    }
}

/// A run reports to its job's episode and advances the queue exactly once,
/// when its execution is over, and never before.
pub proof fn law_every_exit_releases_once(run: RunSetting, events: Seq<Event<Seq<char>>>)
    ensures
        ({
            let (phase, effects) = exec_trace(run, events);
            let released = if phase is Done {
                1nat
            } else {
                0nat
            };
            &&& count(effects, Kind::EpisodeFinished) == released
            &&& count(effects, Kind::QueueAdvanced) == released
        }),
{
    lemma_trace_counts(run, events, Kind::EpisodeFinished);
    lemma_trace_counts(run, events, Kind::QueueAdvanced);
}

/// A run counts as in flight from its first step on until its execution is
/// over: the unit is taken once, and given back once, on every path.
pub proof fn law_in_flight_unit_is_returned(run: RunSetting, events: Seq<Event<Seq<char>>>)
    ensures
        ({
            let (phase, effects) = exec_trace(run, events);
            &&& count(effects, Kind::FlightBegun) == if phase is Begin {
                0nat
            } else {
                1nat
            }
            &&& count(effects, Kind::FlightEnded) == if phase is Done {
                1nat
            } else {
                0nat
            }
        }),
{
    lemma_trace_counts(run, events, Kind::FlightBegun);
    lemma_trace_counts(run, events, Kind::FlightEnded);
}

/// Once an execution is over, on whatever path, the run's cancellation token
/// and its event senders are gone: each was dropped exactly once.
pub proof fn law_token_and_senders_are_gone(run: RunSetting, events: Seq<Event<Seq<char>>>)
    requires
        exec_trace(run, events).0 is Done,
    ensures
        count(exec_trace(run, events).1, Kind::TokenRemoved) == 1,
        count(exec_trace(run, events).1, Kind::SendersRemoved) == 1,
{
    lemma_trace_counts(run, events, Kind::TokenRemoved);
    lemma_trace_counts(run, events, Kind::SendersRemoved);
}

/// Subscribers are told at most once that a run is over.
pub proof fn law_at_most_one_terminal_event(run: RunSetting, events: Seq<Event<Seq<char>>>)
    ensures
        count(exec_trace(run, events).1, Kind::Terminal) <= 1,
{
    lemma_trace_counts(run, events, Kind::Terminal);
}

/// The end of the session's activity is published exactly once by the time the
/// execution is over, on every path, so no indicator stays lit.
pub proof fn law_activity_ends_once(run: RunSetting, events: Seq<Event<Seq<char>>>)
    ensures
        count(exec_trace(run, events).1, Kind::ActivityEnded) <= 1,
        exec_trace(run, events).0 is Done ==> count(
            exec_trace(run, events).1,
            Kind::ActivityEnded,
        ) == 1,
{
    lemma_trace_counts(run, events, Kind::ActivityEnded);
}

/// The peer of a direct message run, whose input is never stored beforehand,
/// is told exactly once how the run ended: never left waiting, never told
/// twice.
pub proof fn law_peer_is_told_once(run: RunSetting, events: Seq<Event<Seq<char>>>)
    requires
        !run.input_pre_persisted,
    ensures
        count(exec_trace(run, events).1, Kind::PeerTold) == if exec_trace(run, events).0 is Done {
            1nat
        } else {
            0nat
        },
{
    lemma_trace_counts(run, events, Kind::PeerTold);
}

/// The start of the run and of the session's activity are published together,
/// at most once.
pub proof fn law_start_is_published_once(run: RunSetting, events: Seq<Event<Seq<char>>>)
    ensures
        count(exec_trace(run, events).1, Kind::Started) == count(
            exec_trace(run, events).1,
            Kind::ActivityStarted,
        ) <= 1,
    decreases events.len(),
{
    lemma_trace_counts(run, events, Kind::Started);
    if events.len() > 0 {
        let (phase, effects) = exec_trace(run, events.drop_last());
        let more = exec_step(run, phase, events.last()).1;
        law_start_is_published_once(run, events.drop_last());
        lemma_count_concat(effects, more, Kind::Started);
        lemma_count_concat(effects, more, Kind::ActivityStarted);
        lemma_trace_counts(run, events.drop_last(), Kind::Started);
        lemma_trace_counts(run, events.drop_last(), Kind::ActivityStarted);
        lemma_step_counts(run, phase, events.last(), Kind::Started);
        lemma_step_counts(run, phase, events.last(), Kind::ActivityStarted);
    }
}

/// An effect of a kind is counted.
proof fn lemma_count_positive(effects: Seq<Effect<Seq<char>>>, kind: Kind, i: int)
    requires
        0 <= i < effects.len(),
        of_kind(effects[i], kind),
    ensures
        count(effects, kind) > 0,
    decreases effects.len(),
{
    if i < effects.len() - 1 {
        lemma_count_positive(effects.drop_last(), kind, i);
    }
}

/// The run's status is settled before subscribers hear of its end: only the
/// answer to a status change publishes a terminal event. A change that was
/// refused because the run was over already publishes none, except that a
/// rejected token budget is always reported.
pub proof fn law_status_settles_before_subscribers_hear(
    run: RunSetting,
    phase: Phase<Seq<char>>,
    event: Event<Seq<char>>,
    i: int,
)
    requires
        0 <= i < exec_step(run, phase, event).1.len(),
        of_kind(exec_step(run, phase, event).1[i], Kind::Terminal),
    ensures
        event is Marked,
        event == Event::<Seq<char>>::Marked(Ok(false)) ==> phase is BudgetRejected,
{
    lemma_count_positive(exec_step(run, phase, event).1, Kind::Terminal, i);
    lemma_step_counts(run, phase, event, Kind::Terminal);
}

/// When an execution is over, advancing the queue was the last thing it did
/// before it gave its in-flight unit back.
pub proof fn law_queue_advances_last(run: RunSetting, events: Seq<Event<Seq<char>>>)
    requires
        exec_trace(run, events).0 is Done,
    ensures
        exec_trace(run, events).1.len() >= 2,
        exec_trace(run, events).1.last() is UntrackInFlight,
        exec_trace(run, events).1[exec_trace(run, events).1.len() - 2] is AdvanceQueue,
    decreases events.len(),
{
    let (phase, effects) = exec_trace(run, events.drop_last());
    if phase is Done {
        law_queue_advances_last(run, events.drop_last());
    }
}

/// The tool calls of a run that a sequence of events executed: those that its
/// turn left, if it came to that.
pub open spec fn calls_of_run(run: RunSetting, events: Seq<Event<Seq<char>>>) -> Option<ToolCalls>
    decreases events.len(),
{
    if events.len() == 0 {
        None
    } else {
        match (exec_trace(run, events.drop_last()).0, events.last()) {
            (Phase::Running(_), Event::Finished(outcome)) => calls_left(outcome),
            _ => calls_of_run(run, events.drop_last()),
        }
    }
}

/// A phase before the agent's turn is over has no tool calls; later ones
/// remember those of the turn.
proof fn lemma_phase_remembers_calls(run: RunSetting, events: Seq<Event<Seq<char>>>)
    ensures
        ({
            let calls = calls_of_run(run, events);
            match exec_trace(run, events).0 {
                Phase::Completing { output, .. } => calls == Some(output.tool_calls),
                Phase::Cancelling { calls: c, .. } => c == calls,
                Phase::Failing { calls: c, .. } => c == calls,
                Phase::EndVerdict { calls: c, .. } => c == calls,
                Phase::EndingAfterPeer { calls: c, .. } => c == calls,
                Phase::Done => true,
                _ => calls is None,
            }
        }),
    decreases events.len(),
{
    if events.len() > 0 {
        lemma_phase_remembers_calls(run, events.drop_last());
    }
}

/// The job's episode hears of exactly the tool calls that the run's turn left,
/// on whatever path the run ended, so no work that it started is overlooked.
pub proof fn law_episode_hears_of_the_tool_calls(run: RunSetting, events: Seq<Event<Seq<char>>>)
    requires
        exec_trace(run, events).0 is Done,
    ensures
        exec_trace(run, events).1.len() >= 3,
        exec_trace(run, events).1[exec_trace(run, events).1.len() - 3] == (Effect::<
            Seq<char>,
        >::FinishEpisode { tool_calls: calls_of_run(run, events) }),
    decreases events.len(),
{
    let (phase, effects) = exec_trace(run, events.drop_last());
    lemma_phase_remembers_calls(run, events.drop_last());
    if phase is Done {
        law_episode_hears_of_the_tool_calls(run, events.drop_last());
    }
}

/// What a run that completes publishes, summarises and hands to its
/// conversation is what its turn left, and its tool calls are stored before.
pub proof fn law_output_is_handed_on(
    run: RunSetting,
    facts: RunFacts,
    output: Arc<TurnOutput>,
)
    ensures
        ({
            let (next, first) = exec_step(
                run,
                Phase::Running(facts),
                Event::Finished(Outcome::Completed(output)),
            );
            let (end, then) = exec_step(run, next, Event::Marked(Ok(true)));
            &&& next == (Phase::<Seq<char>>::Completing { facts, output })
            &&& output.tool_calls@.len() > 0 ==> first.contains(
                Effect::PersistToolCalls(output.tool_calls),
            )
            &&& end is Done
            &&& then.contains(Effect::RunFinished(output.usage))
            &&& then.contains(Effect::CompleteConversation(output))
            &&& facts.summarise ==> then.contains(Effect::SpawnSummary(output))
        }),
{
    let (next, first) = exec_step(
        run,
        Phase::Running(facts),
        Event::Finished(Outcome::Completed(output)),
    );
    let (end, then) = exec_step(run, next, Event::Marked(Ok(true)));
    assert(then[0] == Effect::<Seq<char>>::RunFinished(output.usage));
    if facts.summarise {
        assert(then[1] == Effect::<Seq<char>>::SpawnSummary(output));
        assert(then[2] == Effect::<Seq<char>>::CompleteConversation(output));
    } else {
        assert(then[1] == Effect::<Seq<char>>::CompleteConversation(output));
    }
    if output.tool_calls@.len() > 0 {
        assert(first[0] == Effect::<Seq<char>>::PersistToolCalls(output.tool_calls));
    }
}

/// The start of a run is published with the configuration that was resolved
/// for it, under the posture that the run executes with.
pub proof fn law_start_tells_the_configuration(
    run: RunSetting,
    config: ResolvedConfig,
)
    ensures
        ({
            let (checked, a) = exec_step(
                run,
                Phase::CheckingBudget(config),
                Event::BudgetChecked(Ok(())),
            );
            let (started, b) = exec_step(run, checked, Event::Marked(Ok(true)));
            let told = committed(run, config);
            &&& checked == Phase::<Seq<char>>::Starting(told)
            &&& b[0] == Effect::<Seq<char>>::RunStarted(told)
            &&& told.posture == posture_for_run(
                config.posture,
                run.is_system_triggered,
            )
            &&& told.model == config.model && told.provider == config.provider
        }),
{
}

/// An event answers a phase: it reports what the phase asked for.
pub open spec fn answers(phase: Phase<Seq<char>>, event: Event<Seq<char>>) -> bool {
    match phase {
        Phase::Begin => event is Dequeued,
        Phase::ClaimingInput => event is InputClaimed,
        Phase::PollingCancel => event is CancelPolled,
        Phase::QueuedVerdict(_) | Phase::RefusedVerdict | Phase::EndVerdict { .. } => event
            is VerdictRead,
        Phase::Resolving => event is Resolved,
        Phase::CheckingBudget(_) => event is BudgetChecked,
        Phase::ReleasingAfterPeer(_)
        | Phase::CleaningAfterPeer(_)
        | Phase::EndingAfterPeer { .. } => event is Sanitised,
        Phase::BuildingRuntime => event is RuntimeBuilt,
        Phase::Running(_) => event is Finished,
        Phase::Done => false,
        _ => event is Marked,
    }
}

/// How many answers a phase is away from the end at most.
pub open spec fn distance(phase: Phase<Seq<char>>) -> nat {
    match phase {
        Phase::Begin => 12,
        Phase::ClaimingInput => 11,
        Phase::PollingCancel => 10,
        Phase::Resolving => 9,
        Phase::CheckingBudget(_) => 8,
        Phase::Starting(_) => 7,
        Phase::BuildingRuntime => 6,
        Phase::Running(_) => 5,
        Phase::Completing { .. } => 4,
        Phase::Cancelling { .. } => 4,
        Phase::Failing { .. } => 3,
        Phase::CancellingQueued => 3,
        Phase::EndVerdict { .. } => 2,
        Phase::QueuedVerdict(_) => 2,
        Phase::RefusedVerdict => 2,
        Phase::ResolveFailed(_) => 2,
        Phase::BudgetRejected(_) => 2,
        Phase::InitFailed { .. } => 2,
        Phase::ClaimFailed(_) => 1,
        Phase::ReleasingAfterPeer(_) => 1,
        Phase::CleaningAfterPeer(_) => 1,
        Phase::EndingAfterPeer { .. } => 1,
        Phase::Done => 0,
    }
}

/// Every answer brings the execution closer to its end, so a run whose
/// questions are answered is over after at most twelve answers.
pub proof fn law_every_answer_makes_progress(
    run: RunSetting,
    phase: Phase<Seq<char>>,
    event: Event<Seq<char>>,
)
    requires
        answers(phase, event),
    ensures
        distance(exec_step(run, phase, event).0) < distance(phase),
        distance(phase) <= 12,
{
}

} // verus!
