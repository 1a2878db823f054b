//! How the end of a run is recorded and told: what each answer from outside
//! leads to, whatever the run.

use crate::context::text_of;
use crate::execution::{
    closing, execute_run, Effect, Effects, Event, Outcome, Phase, ResolvedConfig, RunFacts,
    RunSetting, ToolCalls,
};
use crate::execution_laws::answers;
use crate::peer::{EndReason, RunVerdict};
use crate::runtime_plan::Posture;
use crate::text_laws::within_bytes;
use crate::trigger_laws::lemma_cut_for_peer;
use vstd::prelude::*;

verus! {

/// Answering `phase` with `event` leads to `next` and to `effects`.
pub open spec fn leads_to(
    run: RunSetting,
    phase: Phase<String>,
    event: Event<String>,
    next: Phase<String>,
    effects: Effects,
) -> bool {
    call_ensures(execute_run, (&run, phase, event), (next, effects))
}

/// The effect tells subscribers that the run is over.
pub open spec fn tells_the_end(effect: Effect<String>) -> bool {
    effect is RunFinished || effect is RunCancelled || effect is RunError || effect
        is RunErrorWithCode
}

/// Nothing tells subscribers that the run is over.
pub open spec fn silent(effects: Seq<Effect<String>>) -> bool {
    forall|i: int| 0 <= i < effects.len() ==> !tells_the_end(#[trigger] effects[i])
}

/// Subscribers are told that the run finished, with these tokens, and nothing
/// else of its end.
pub open spec fn only_finished(
    effects: Seq<Effect<String>>,
    usage: crate::completion::TokenUsage,
) -> bool {
    &&& exists|i: int| 0 <= i < effects.len() && (#[trigger] effects[i]) is RunFinished
    &&& forall|i: int|
        0 <= i < effects.len() && tells_the_end(#[trigger] effects[i]) ==> effects[i]
            == Effect::<String>::RunFinished(usage)
}

/// Subscribers are told that the run was cancelled, and nothing else of its
/// end.
pub open spec fn only_cancelled(effects: Seq<Effect<String>>) -> bool {
    &&& exists|i: int| 0 <= i < effects.len() && (#[trigger] effects[i]) is RunCancelled
    &&& forall|i: int|
        0 <= i < effects.len() && tells_the_end(#[trigger] effects[i]) ==> effects[i]
            is RunCancelled
}

/// Subscribers are told that the run failed with this text, and nothing else
/// of its end.
pub open spec fn only_error(effects: Seq<Effect<String>>, text: Seq<char>) -> bool {
    &&& exists|i: int| 0 <= i < effects.len() && (#[trigger] effects[i]) is RunError
    &&& forall|i: int|
        0 <= i < effects.len() && tells_the_end(#[trigger] effects[i]) ==> (effects[i] matches
            Effect::RunError(m) && m@ == text)
}

/// The run record says that the run ended because a change could not be stored.
pub open spec fn names_a_storage_failure(verdict: Option<RunVerdict<String>>) -> bool {
    verdict matches Some(v) && v.terminal_reason matches Some(reason) && reason@
        == "persistence_failed"@
}

/// Effects and their readings, place by place.
proof fn lemma_readings(effects: Effects)
    ensures
        effects@.len() == effects.list@.len(),
        forall|i: int|
            #![trigger effects.list@[i]]
            #![trigger effects@[i]]
            0 <= i < effects.list@.len() ==> effects@[i] == effects.list@[i]@,
{
}

/// How the agent's turn ended decides which status the run is to be given: a
/// turn that was cancelled leads to a cancelled run and to no other, a turn
/// that failed to a failed run with the turn's own error, a turn with an output
/// to a completed run with that output. Nobody is told before the status is
/// changed.
pub proof fn law_turn_decides_the_status(
    run: RunSetting,
    facts: RunFacts,
    outcome: Outcome<String>,
    next: Phase<String>,
    effects: Effects,
)
    requires
        leads_to(run, Phase::Running(facts), Event::Finished(outcome), next, effects),
    ensures
        match outcome {
            Outcome::Completed(output) => next == (Phase::<String>::Completing { facts, output }),
            Outcome::Cancelled => next == (Phase::<String>::Cancelling { facts, calls: None }),
            Outcome::CancelledWithToolCalls(calls) => next == (Phase::<String>::Cancelling {
                facts,
                calls: Some(calls),
            }),
            Outcome::Failed(error) => next matches Phase::Failing { message, facts: f, calls }
                && message@ == error@ && f == facts && calls is None,
            Outcome::FailedWithToolCalls { message: error, tool_calls } => next matches
                Phase::Failing { message, facts: f, calls } && message@ == error@ && f == facts
                && calls == Some(tool_calls),
        },
        silent(effects.list@),
{
    lemma_readings(effects);
}

/// The records of tool calls that come with the end of a turn.
pub open spec fn left_by(outcome: Outcome<String>) -> Option<ToolCalls> {
    match outcome {
        Outcome::Completed(output) => Some(output.tool_calls),
        Outcome::CancelledWithToolCalls(calls) => Some(calls),
        Outcome::FailedWithToolCalls { tool_calls, .. } => Some(tool_calls),
        _ => None,
    }
}

/// The records of tool calls that a turn left are stored as soon as the turn is
/// over, if there are any; and a boundary is marked in the history exactly of a
/// session that people see, when the turn had an output.
pub proof fn law_turn_leaves_its_records(
    run: RunSetting,
    facts: RunFacts,
    outcome: Outcome<String>,
    next: Phase<String>,
    effects: Effects,
)
    requires
        leads_to(run, Phase::Running(facts), Event::Finished(outcome), next, effects),
    ensures
        forall|i: int|
            0 <= i < effects.list@.len() ==> (#[trigger] effects.list@[i]) is PersistToolCalls
                || effects.list@[i] is MarkBoundary,
        (exists|i: int| 0 <= i < effects.list@.len() && (#[trigger] effects.list@[i]) is MarkBoundary)
            <==> outcome is Completed && !run.internal,
        forall|i: int|
            0 <= i < effects.list@.len() ==> (#[trigger] effects.list@[i] matches
                Effect::PersistToolCalls(c) ==> c@.len() > 0 && left_by(outcome) == Some(c)),
        left_by(outcome) matches Some(c) ==> (c@.len() > 0 ==> effects.list@.len() > 0
            && effects.list@[0] is PersistToolCalls),
{
    lemma_readings(effects);
    if outcome is Completed && !run.internal {
        assert(effects.list@[effects@.len() - 1] is MarkBoundary);
    }
}

/// A status change that was made is told to subscribers as what it is: a
/// completed run as finished, with its tokens; a cancelled run as cancelled; a
/// failed run with the error it was given; a run that started not as an end.
pub proof fn law_made_change_is_told_as_what_it_is(
    run: RunSetting,
    phase: Phase<String>,
    next: Phase<String>,
    effects: Effects,
)
    requires
        leads_to(run, phase, Event::Marked(Ok(true)), next, effects),
    ensures
        match phase {
            Phase::Completing { facts, output } => only_finished(effects.list@, output.usage),
            Phase::Cancelling { .. } => only_cancelled(effects.list@),
            Phase::CancellingQueued => only_cancelled(effects.list@),
            Phase::Failing { message, .. } => only_error(effects.list@, message@),
            Phase::ClaimFailed(message) => only_error(effects.list@, message@),
            Phase::ResolveFailed(message) => only_error(effects.list@, message@),
            Phase::InitFailed { message, safe_reason } => only_error(effects.list@, message@),
            Phase::BudgetRejected(message) => {
                &&& effects.list@.len() > 0
                &&& effects.list@[0] matches Effect::RunErrorWithCode { code, message: text }
                    && text@ == message@ && code@ == "INVALID_TOKEN_BUDGET_FOR_PROVIDER"@
                &&& forall|i: int|
                    0 < i < effects.list@.len() ==> !tells_the_end(#[trigger] effects.list@[i])
            },
            _ => silent(effects.list@),
        },
{
    lemma_readings(effects);
    if effects@.len() > 0 {
        assert(effects.list@[0]@ == effects@[0]);
    }
}

/// A change that was refused, because the run was over already, is not told
/// again; only a rejected token budget always is.
pub proof fn law_refused_change_is_not_told(
    run: RunSetting,
    phase: Phase<String>,
    next: Phase<String>,
    effects: Effects,
)
    requires
        leads_to(run, phase, Event::Marked(Ok(false)), next, effects),
    ensures
        !(phase is BudgetRejected) ==> silent(effects.list@),
        phase matches Phase::BudgetRejected(message) ==> effects.list@.len() > 0 && (
        effects.list@[0] matches Effect::RunErrorWithCode { code, message: text } && text@
            == message@),
        phase is Starting ==> next is RefusedVerdict,
        phase matches Phase::Completing { facts, output } ==> next == (Phase::<
            String,
        >::EndVerdict { observed: None, facts, calls: Some(output.tool_calls) }),
{
    lemma_readings(effects);
}

/// The words in front of the error of a change that could not be stored.
pub open spec fn words_before(phase: Phase<String>) -> Seq<char> {
    match phase {
        Phase::Completing { .. } => "Run completion could not be persisted: "@,
        Phase::Cancelling { .. } | Phase::CancellingQueued =>
            "Run cancellation could not be persisted: "@,
        Phase::Starting(_) => "Run start could not be persisted: "@,
        Phase::ClaimFailed(_) => "Run input claim failure could not be persisted: "@,
        _ => "Run failure could not be persisted: "@,
    }
}

/// A change that could not be stored is told as an error: what could not be
/// stored, and why. The peer is told of the same error.
pub proof fn law_unstored_change_is_told_with_its_cause(
    run: RunSetting,
    phase: Phase<String>,
    error: String,
    next: Phase<String>,
    effects: Effects,
)
    requires
        leads_to(run, phase, Event::Marked(Err(error)), next, effects),
        answers(phase@, Event::Marked(Ok(true))),
    ensures
        ({
            let text = words_before(phase) + error@;
            &&& only_error(effects.list@, text)
            &&& match phase {
                Phase::Completing { facts, output } => next matches Phase::EndVerdict {
                    observed,
                    facts: f,
                    calls,
                } && text_of(observed) == Some(text) && f == facts && calls == Some(
                    output.tool_calls,
                ),
                Phase::Cancelling { facts, calls } => next matches Phase::EndVerdict {
                    observed,
                    facts: f,
                    calls: c,
                } && text_of(observed) == Some(text) && f == facts && c == calls,
                Phase::CancellingQueued => next matches Phase::QueuedVerdict(observed) && text_of(
                    observed,
                ) == Some(text),
                Phase::Starting(_) => next matches Phase::ReleasingAfterPeer(m) && m@ == text,
                Phase::ResolveFailed(_) => next matches Phase::CleaningAfterPeer(m) && m@ == text,
                Phase::BudgetRejected(_) => next matches Phase::CleaningAfterPeer(m) && m@ == text,
                Phase::InitFailed { .. } => next matches Phase::CleaningAfterPeer(m) && m@ == text,
                Phase::Failing { message, facts, calls } => next matches Phase::EndingAfterPeer {
                    message: m,
                    facts: f,
                    calls: c,
                } && m@ == text && f == facts && c == calls,
                Phase::ClaimFailed(_) => next is Done,
                _ => true,
            }
        }),
{
    lemma_readings(effects);
    assert(effects.list@[0]@ == effects@[0]);
}

/// A run whose failure stands on record tells its peer of that failure: what is
/// sanitised for the peer is the run's own error.
pub proof fn law_recorded_failure_reaches_the_peer(
    run: RunSetting,
    phase: Phase<String>,
    made: bool,
    next: Phase<String>,
    effects: Effects,
)
    requires
        leads_to(run, phase, Event::Marked(Ok(made)), next, effects),
    ensures
        match phase {
            Phase::ResolveFailed(message) => next matches Phase::CleaningAfterPeer(m) && m@
                == message@,
            Phase::BudgetRejected(message) => next matches Phase::CleaningAfterPeer(m) && m@
                == message@,
            Phase::InitFailed { message, safe_reason } => next matches Phase::CleaningAfterPeer(m)
                && m@ == message@,
            Phase::Failing { message, facts, calls } => next matches Phase::EndingAfterPeer {
                message: m,
                facts: f,
                calls: c,
            } && m@ == message@ && f == facts && c == calls,
            Phase::Cancelling { facts, calls } => next matches Phase::EndVerdict {
                observed,
                facts: f,
                calls: c,
            } && observed is None && f == facts && c == calls,
            Phase::CancellingQueued => next matches Phase::QueuedVerdict(observed) && observed
                is None,
            Phase::ClaimFailed(_) => next is Done,
            _ => true,
        },
{
}

/// A turn that was cancelled ends as a cancelled run all the way: the run is to
/// be marked cancelled; once it is, subscribers hear of a cancellation and of
/// nothing else; and the conversation ends as cancelled by the user, unless the
/// record names a storage failure.
pub proof fn law_cancelled_turn_ends_cancelled(
    run: RunSetting,
    facts: RunFacts,
    outcome: Outcome<String>,
    marking: Phase<String>,
    at_once: Effects,
    reading: Phase<String>,
    told: Effects,
    verdict: Option<RunVerdict<String>>,
    end: Phase<String>,
    last: Effects,
)
    requires
        outcome is Cancelled || outcome is CancelledWithToolCalls,
        leads_to(run, Phase::Running(facts), Event::Finished(outcome), marking, at_once),
        leads_to(run, marking, Event::Marked(Ok(true)), reading, told),
        leads_to(run, reading, Event::VerdictRead(verdict), end, last),
    ensures
        marking is Cancelling,
        only_cancelled(told.list@),
        silent(last.list@),
        !names_a_storage_failure(verdict) ==> {
            &&& end is Done
            &&& last.list@.len() > 0
            &&& last.list@[0] == Effect::<String>::EndConversation(EndReason::UserCancelled)
            &&& forall|i: int|
                0 < i < last.list@.len() ==> !((#[trigger] last.list@[i]) is EndConversation)
        },
        names_a_storage_failure(verdict) ==> end is EndingAfterPeer && last.list@.len() == 0,
{
    law_turn_decides_the_status(run, facts, outcome, marking, at_once);
    law_made_change_is_told_as_what_it_is(run, marking, reading, told);
    lemma_readings(last);
}

/// The run record is read before a peer hears of a cancellation. If neither it
/// nor the change itself speaks of a storage failure, the peer is told that the
/// run was cancelled, and of no failure; otherwise what is told is the record's
/// error, or else the one that was met.
pub proof fn law_peer_hears_what_the_record_says(
    run: RunSetting,
    phase: Phase<String>,
    verdict: Option<RunVerdict<String>>,
    next: Phase<String>,
    effects: Effects,
)
    requires
        phase is QueuedVerdict || phase is RefusedVerdict || phase is EndVerdict,
        leads_to(run, phase, Event::VerdictRead(verdict), next, effects),
    ensures
        ({
            let met = match phase {
                Phase::QueuedVerdict(observed) => observed,
                Phase::EndVerdict { observed, .. } => observed,
                _ => None,
            };
            let cause = if names_a_storage_failure(verdict) {
                match verdict->0.error {
                    Some(e) => Some(e@),
                    None => Some("lifecycle persistence failed"@),
                }
            } else {
                text_of(met)
            };
            match cause {
                None => {
                    &&& next is Done
                    &&& effects.list@.len() > 0
                    &&& if phase is EndVerdict {
                        effects.list@[0] == Effect::<String>::EndConversation(
                            EndReason::UserCancelled,
                        )
                    } else {
                        effects.list@[0] is NotifyPeerCancelled
                    }
                    &&& forall|i: int|
                        0 < i < effects.list@.len() ==> !((#[trigger] effects.list@[i])
                            is EndConversation || effects.list@[i] is NotifyPeerFailed
                            || effects.list@[i] is NotifyPeerCancelled)
                },
                Some(text) => {
                    &&& effects.list@.len() == 0
                    &&& match phase {
                        Phase::EndVerdict { observed, facts, calls } => next matches
                            Phase::EndingAfterPeer { message, facts: f, calls: c } && message@
                            == text && f == facts && c == calls,
                        _ => next matches Phase::ReleasingAfterPeer(message) && message@ == text,
                    }
                },
            }
        }),
{
    lemma_readings(effects);
}

/// The text of what a peer is told when a run fails.
pub open spec fn told_failure(effect: Effect<String>) -> Option<Seq<char>> {
    match effect {
        Effect::NotifyPeerFailed(m) => Some(m@),
        Effect::EndConversation(EndReason::Errored { message, interrupted: true }) => Some(
            message@,
        ),
        _ => None,
    }
}

/// A peer is told a failure in its sanitised text alone, cut at three hundred
/// bytes, as of a turn that was cut short; the raw error, which may hold
/// secrets, has no part in it.
pub proof fn law_peer_sees_the_sanitised_text(
    run: RunSetting,
    phase: Phase<String>,
    sanitised: String,
    next: Phase<String>,
    effects: Effects,
)
    requires
        phase is ReleasingAfterPeer || phase is CleaningAfterPeer || phase is EndingAfterPeer,
        leads_to(run, phase, Event::Sanitised(sanitised), next, effects),
    ensures
        next is Done,
        silent(effects.list@),
        effects.list@.len() > 0,
        told_failure(effects.list@[0]) is Some,
        phase is EndingAfterPeer <==> effects.list@[0] is EndConversation,
        within_bytes(sanitised@, 300, told_failure(effects.list@[0])->0),
{
    lemma_readings(effects);
    assert(effects.list@[0]@ == effects@[0]);
    lemma_cut_for_peer(sanitised@);
}

/// A run is set up step by step, and every answer is taken over unchanged: its
/// input is claimed exactly when it was stored beforehand, a cancellation that
/// came first keeps it from starting, and each error is kept as it is.
pub proof fn law_setup_takes_every_answer_over(
    run: RunSetting,
    phase: Phase<String>,
    event: Event<String>,
    next: Phase<String>,
    effects: Effects,
)
    requires
        leads_to(run, phase, event, next, effects),
    ensures
        phase is Begin && event is Dequeued ==> {
            &&& effects.list@.len() == 1 && effects.list@[0] is TrackInFlight
            &&& run.input_pre_persisted ==> next is ClaimingInput
            &&& !run.input_pre_persisted ==> next is PollingCancel
        },
        phase is ClaimingInput ==> (event matches Event::InputClaimed(claimed) ==> {
            &&& effects.list@.len() == 0
            &&& claimed is Ok ==> next is PollingCancel
            &&& claimed matches Err(e) ==> (next matches Phase::ClaimFailed(m) && m@
                == "Failed to claim accepted run input: "@ + e@)
        }),
        phase is PollingCancel ==> (event matches Event::CancelPolled(cancelled) ==> {
            &&& effects.list@.len() == 0
            &&& cancelled ==> next is CancellingQueued
            &&& !cancelled ==> next is Resolving
        }),
        phase is Resolving ==> (event matches Event::Resolved(resolved) ==> {
            &&& effects.list@.len() == 0
            &&& resolved matches Ok(config) ==> next == Phase::<String>::CheckingBudget(config)
            &&& resolved matches Err(e) ==> (next matches Phase::ResolveFailed(m) && m@ == e@)
        }),
        phase is CheckingBudget ==> (event matches Event::BudgetChecked(Err(e)) ==> {
            &&& effects.list@.len() == 0
            &&& next matches Phase::BudgetRejected(m) && m@ == e@
        }),
        phase is BuildingRuntime ==> (event matches Event::RuntimeBuilt(built) ==> {
            &&& effects.list@.len() == 0
            &&& built matches Ok(facts) ==> next == Phase::<String>::Running(facts)
            &&& built matches Err(e) ==> (next matches Phase::InitFailed { message, safe_reason }
                && message@ == e.message@ && safe_reason@ == e.safe_reason@)
        }),
{
    lemma_readings(effects);
}

/// A run whose budget fits is marked running with the configuration that was
/// resolved for it; only its posture may differ, and only where nobody asked
/// for the run: there one that waits for approvals becomes autonomous. Its start
/// is published with the same configuration once it is marked.
pub proof fn law_run_starts_with_its_configuration(
    run: RunSetting,
    config: ResolvedConfig,
    starting: Phase<String>,
    before: Effects,
    next: Phase<String>,
    effects: Effects,
)
    requires
        leads_to(
            run,
            Phase::CheckingBudget(config),
            Event::BudgetChecked(Ok(())),
            starting,
            before,
        ),
        leads_to(run, starting, Event::Marked(Ok(true)), next, effects),
    ensures
        before.list@.len() == 0,
        next is BuildingRuntime,
        starting matches Phase::Starting(kept) && {
            &&& kept.provider@ == config.provider@
            &&& kept.model@ == config.model@
            &&& kept.max_tokens == config.max_tokens
            &&& kept.thinking_budget_tokens == config.thinking_budget_tokens
            &&& kept.reasoning_effort == config.reasoning_effort
            &&& kept.gemini_thinking_budget == config.gemini_thinking_budget
            &&& kept.debug_mode == config.debug_mode
            &&& !run.is_system_triggered ==> kept.posture == config.posture
            &&& run.is_system_triggered && config.posture == Posture::Guarded ==> kept.posture
                == Posture::Autonomous
            &&& config.posture != Posture::Guarded ==> kept.posture == config.posture
            &&& effects.list@.len() == 2
            &&& effects.list@[0] == Effect::<String>::RunStarted(kept)
            &&& effects.list@[1] is ActivityStarted
        },
{
    lemma_readings(before);
    lemma_readings(effects);
}

/// Only a run that is marked completed is summarised and hands its output to
/// its conversation; it is summarised exactly when it is to be.
pub proof fn law_only_completed_runs_hand_over_output(
    run: RunSetting,
    phase: Phase<String>,
    event: Event<String>,
    next: Phase<String>,
    effects: Effects,
)
    requires
        leads_to(run, phase, event, next, effects),
    ensures
        ({
            let completed = phase is Completing && event == Event::<String>::Marked(Ok(true));
            let list = effects.list@;
            &&& forall|i: int|
                0 <= i < list.len() && (#[trigger] list[i] is CompleteConversation || list[i]
                    is SpawnSummary || list[i] is RunFinished) ==> completed
            &&& completed ==> {
                let output = phase->Completing_output;
                &&& next is Done
                &&& exists|i: int|
                    0 <= i < list.len() && #[trigger] list[i] == Effect::<
                        String,
                    >::CompleteConversation(output)
                &&& (exists|i: int| 0 <= i < list.len() && #[trigger] list[i] is SpawnSummary)
                    <==> phase->Completing_facts.summarise
                &&& forall|i: int|
                    0 <= i < list.len() && #[trigger] list[i] is SpawnSummary ==> list[i]
                        == Effect::<String>::SpawnSummary(output)
                &&& forall|i: int|
                    0 <= i < list.len() ==> !(#[trigger] list[i] is EndConversation)
            }
        }),
{
    lemma_readings(effects);
    if phase is Completing && event == Event::<String>::Marked(Ok(true)) {
        let list = effects.list@;
        let output = phase->Completing_output;
        if phase->Completing_facts.summarise {
            assert(list[1] is SpawnSummary);
            assert(list[2] == Effect::<String>::CompleteConversation(output));
        } else {
            assert(list[1] == Effect::<String>::CompleteConversation(output));
        }
    }
}

/// A runtime that could not be built leaves a marker in the history exactly of
/// a session that people see, and what it shows is the safe reason.
pub proof fn law_init_failure_shows_the_safe_reason(
    run: RunSetting,
    message: String,
    safe_reason: String,
    marked: Result<bool, String>,
    next: Phase<String>,
    effects: Effects,
)
    requires
        leads_to(
            run,
            Phase::InitFailed { message, safe_reason },
            Event::Marked(marked),
            next,
            effects,
        ),
    ensures
        (exists|i: int|
            0 <= i < effects.list@.len() && (#[trigger] effects.list@[i]) is MarkInitFailure)
            <==> !run.internal,
        forall|i: int|
            0 <= i < effects.list@.len() ==> (#[trigger] effects.list@[i] matches
                Effect::MarkInitFailure(shown) ==> shown@ == safe_reason@),
{
    lemma_readings(effects);
    if !run.internal {
        assert(effects.list@[effects@.len() - 1] is MarkInitFailure);
    }
}

/// The effects that close a run, behind others.
proof fn lemma_closing(
    head: Seq<Effect<Seq<char>>>,
    facts: RunFacts,
    calls: Option<ToolCalls>,
    all: Seq<Effect<Seq<char>>>,
)
    requires
        all == head + closing(facts, calls),
        forall|i: int|
            0 <= i < head.len() ==> !((#[trigger] head[i]) is PeerActivityEnded || head[i]
                is RemoveSenders),
    ensures
        all.len() == head.len() + (if facts.dm_peer {
            10int
        } else {
            9int
        }),
        all[head.len() as int] is ActivityEnded,
        all[all.len() - 1] is UntrackInFlight,
        all[all.len() - 2] is AdvanceQueue,
        all[all.len() - 3] == (Effect::<Seq<char>>::FinishEpisode { tool_calls: calls }),
        all[all.len() - 4] is ClearApprovals,
        all[all.len() - 5] is RemoveCancelToken,
        all[all.len() - 6] is PurgeTerminalSenders,
        all[all.len() - 7] is RemoveSenders,
        all[all.len() - 8] is TouchAgent,
        facts.dm_peer ==> all[all.len() - 9] is PeerActivityEnded,
        !facts.dm_peer ==> forall|i: int|
            0 <= i < all.len() ==> !((#[trigger] all[i]) is PeerActivityEnded),
        published_first(all),
{
    let tail = closing(facts, calls);
    assert(tail.len() == if facts.dm_peer {
        10int
    } else {
        9int
    });
    assert forall|i: int| 0 <= i < all.len() implies #[trigger] all[i] == if i < head.len() {
        head[i]
    } else {
        tail[i - head.len()]
    } by {}
    assert forall|i: int, j: int|
        0 <= i < all.len() && 0 <= j < all.len() && published(#[trigger] all[i]) && (
        #[trigger] all[j]) is RemoveSenders implies i < j by {}
}

/// The effect publishes on the feeds of the run.
pub open spec fn published(effect: Effect<Seq<char>>) -> bool {
    effect is RunFinished || effect is RunCancelled || effect is RunError || effect
        is RunErrorWithCode || effect is ActivityEnded || effect is RunStarted
}

/// What is published on the feeds of the run stands before the end of its
/// senders.
pub open spec fn published_first(effects: Seq<Effect<Seq<char>>>) -> bool {
    forall|i: int, j: int|
        0 <= i < effects.len() && 0 <= j < effects.len() && published(#[trigger] effects[i]) && (
        #[trigger] effects[j]) is RemoveSenders ==> i < j
}

/// A run that was under way is closed completely: the end of its activity is
/// published, and of its talk with a peer exactly when it has one; its agent is
/// noted as active, the senders of runs that are over are dropped, its approvals
/// are cleared, its episode hears of its tool calls, and the queue advances.
pub proof fn law_run_under_way_is_closed_completely(
    run: RunSetting,
    phase: Phase<String>,
    event: Event<String>,
    next: Phase<String>,
    effects: Effects,
)
    requires
        leads_to(run, phase, event, next, effects),
        phase is Completing || phase is EndVerdict || phase is EndingAfterPeer,
        next is Done,
    ensures
        ({
            let list = effects.list@;
            let n = list.len();
            let facts = match phase {
                Phase::Completing { facts, .. } => facts,
                Phase::EndVerdict { facts, .. } => facts,
                Phase::EndingAfterPeer { facts, .. } => facts,
                _ => RunFacts { summarise: false, dm_peer: false },
            };
            let calls = match phase {
                Phase::Completing { output, .. } => Some(output.tool_calls),
                Phase::EndVerdict { calls, .. } => calls,
                Phase::EndingAfterPeer { calls, .. } => calls,
                _ => None,
            };
            let head = if phase is Completing {
                if facts.summarise {
                    3int
                } else {
                    2int
                }
            } else {
                1int
            };
            &&& n == head + (if facts.dm_peer {
                10int
            } else {
                9int
            })
            &&& list[head] is ActivityEnded
            &&& list[n - 1] is UntrackInFlight
            &&& list[n - 2] is AdvanceQueue
            &&& list[n - 3] == (Effect::<String>::FinishEpisode { tool_calls: calls })
            &&& list[n - 4] is ClearApprovals
            &&& list[n - 5] is RemoveCancelToken
            &&& list[n - 6] is PurgeTerminalSenders
            &&& list[n - 7] is RemoveSenders
            &&& list[n - 8] is TouchAgent
            &&& (exists|i: int| 0 <= i < n && #[trigger] list[i] is PeerActivityEnded)
                <==> facts.dm_peer
        }),
{
    lemma_readings(effects);
    let list = effects.list@;
    let n = list.len() as int;
    match phase {
        Phase::Completing { facts, output } => {
            let summary: Seq<Effect<Seq<char>>> = if facts.summarise {
                seq![Effect::SpawnSummary(output)]
            } else {
                seq![]
            };
            let head = seq![Effect::<Seq<char>>::RunFinished(output.usage)] + summary
                + seq![Effect::CompleteConversation(output)];
            lemma_closing(head, facts, left_by(Outcome::Completed(output)), effects@);
        },
        Phase::EndVerdict { observed, facts, calls } => {
            let head = seq![Effect::<Seq<char>>::EndConversation(EndReason::UserCancelled)];
            lemma_closing(head, facts, calls, effects@);
        },
        Phase::EndingAfterPeer { message, facts, calls } => {
            let head = seq![effects@[0]];
            lemma_closing(head, facts, calls, effects@);
        },
        _ => {},
    }
    assert(list[n - 9]@ == effects@[n - 9]);
}

/// In every step, what is published stands before the end of the senders.
proof fn lemma_step_publishes_first(
    run: RunSetting,
    phase: Phase<String>,
    event: Event<String>,
    next: Phase<String>,
    effects: Effects,
)
    requires
        leads_to(run, phase, event, next, effects),
    ensures
        published_first(effects@),
{
    match (phase, event) {
        (Phase::Completing { facts, output }, Event::Marked(Ok(true))) => {
            let summary: Seq<Effect<Seq<char>>> = if facts.summarise {
                seq![Effect::SpawnSummary(output)]
            } else {
                seq![]
            };
            let head = seq![Effect::<Seq<char>>::RunFinished(output.usage)] + summary
                + seq![Effect::CompleteConversation(output)];
            lemma_closing(head, facts, left_by(Outcome::Completed(output)), effects@);
        },
        (Phase::EndVerdict { observed, facts, calls }, _) => {
            if effects@.len() > 0 {
                let head = seq![Effect::<Seq<char>>::EndConversation(EndReason::UserCancelled)];
                lemma_closing(head, facts, calls, effects@);
            }
        },
        (Phase::EndingAfterPeer { message, facts, calls }, _) => {
            if effects@.len() > 0 {
                let head = seq![effects@[0]];
                lemma_closing(head, facts, calls, effects@);
            }
        },
        _ => {},
    }
}

/// What a run publishes on its own feeds goes out before its senders are
/// dropped.
pub proof fn law_senders_outlast_the_events(
    run: RunSetting,
    phase: Phase<String>,
    event: Event<String>,
    next: Phase<String>,
    effects: Effects,
    i: int,
    j: int,
)
    requires
        leads_to(run, phase, event, next, effects),
        0 <= i < effects.list@.len(),
        0 <= j < effects.list@.len(),
        tells_the_end(effects.list@[i]) || effects.list@[i] is ActivityEnded || effects.list@[i]
            is RunStarted,
        effects.list@[j] is RemoveSenders,
    ensures
        i < j,
{
    lemma_readings(effects);
    lemma_step_publishes_first(run, phase, event, next, effects);
    assert(published(effects@[i]));
    assert(effects@[j] is RemoveSenders);
}

/// An event that does not answer the phase changes nothing and does nothing.
pub proof fn law_stray_events_change_nothing(
    run: RunSetting,
    phase: Phase<String>,
    event: Event<String>,
    next: Phase<String>,
    effects: Effects,
)
    requires
        leads_to(run, phase, event, next, effects),
        !answers(phase@, event@),
    ensures
        next@ == phase@,
        effects.list@.len() == 0,
{
    lemma_readings(effects);
}

/// From `at` on, the job's episode hears that the run left no tool calls, the
/// queue advances and the run's in-flight unit is given back; nothing follows.
pub open spec fn releases_from(effects: Seq<Effect<String>>, at: int) -> bool {
    &&& effects.len() == at + 3
    &&& effects[at] matches Effect::FinishEpisode { tool_calls } && tool_calls is None
    &&& effects[at + 1] is AdvanceQueue
    &&& effects[at + 2] is UntrackInFlight
}

/// A run that ends before its agent ran holds on to nothing: what it is told
/// stands first, then the end of the session's activity, then what is dropped,
/// and the release last; and nothing else is done.
pub proof fn law_run_that_never_ran_holds_on_to_nothing(
    run: RunSetting,
    phase: Phase<String>,
    event: Event<String>,
    next: Phase<String>,
    effects: Effects,
)
    requires
        leads_to(run, phase, event, next, effects),
    ensures
        ({
            let list = effects.list@;
            let told = if event == Event::<String>::Marked(Ok(false)) && !(phase
                is BudgetRejected) {
                0int
            } else {
                1int
            };
            &&& phase is ClaimFailed && event is Marked ==> {
                &&& list[told] is ActivityEnded
                &&& list[told + 1] is RemoveSenders
                &&& list[told + 2] is RemoveCancelToken
                &&& list[told + 3] is ClearApprovals
                &&& releases_from(list, told + 4)
            }
            &&& phase is CancellingQueued && event is Marked ==> {
                &&& list.len() == told + 3
                &&& list[told] is ActivityEnded
                &&& list[told + 1] is RemoveCancelToken
                &&& list[told + 2] is RemoveSenders
            }
            &&& (phase is ResolveFailed || phase is BudgetRejected) && event is Marked ==> {
                &&& list.len() == told + 1
                &&& list[told] is ActivityEnded
            }
            &&& phase is InitFailed && event is Marked ==> {
                &&& list.len() == told + (if run.internal {
                    1int
                } else {
                    2int
                })
                &&& list[told] is ActivityEnded
            }
            &&& phase is Starting && event is Marked && event != Event::<String>::Marked(Ok(true))
                ==> {
                &&& list.len() == told + 4
                &&& list[told] is ActivityEnded
                &&& list[told + 1] is RemoveCancelToken
                &&& list[told + 2] is RemoveSenders
                &&& list[told + 3] is ClearApprovals
            }
            &&& (phase is QueuedVerdict || phase is RefusedVerdict) && event is VerdictRead && next
                is Done ==> releases_from(list, 1)
            &&& phase is ReleasingAfterPeer && event is Sanitised ==> releases_from(list, 1)
            &&& phase is CleaningAfterPeer && event is Sanitised ==> {
                &&& list[1] is RemoveSenders
                &&& list[2] is RemoveCancelToken
                &&& list[3] is ClearApprovals
                &&& releases_from(list, 4)
            }
        }),
{
    lemma_readings(effects);
}

} // verus!
