//! The execution of a run as a state machine. A phase names what has to be
//! done next outside; the event that reports its result leads to the next
//! phase and to the effects to be performed, in order.

use crate::completion::TokenUsage;
use crate::context::text_of;
use crate::peer::{
    interrupted, lifecycle_persistence_error_for_peer, peer_text, persistence_error,
    truncate_error_for_peer, verdict_view, EndReason, RunVerdict,
};
use crate::runtime_plan::{posture_for_run, resolve_posture_for_run, Posture};
use crate::text::concat;
use crate::tool_calls::ToolCallRecord;
use std::sync::Arc;
use vstd::prelude::*;
use vstd::string::*;

verus! {

/// The records of a run's tool calls.
pub type ToolCalls = Arc<Vec<ToolCallRecord>>;

/// What an agent's turn that completed left.
#[derive(Debug, PartialEq, Eq)]
pub struct TurnOutput {
    /// Its visible text.
    pub response: String,
    /// The reasoning of its last step, if there was any.
    pub reasoning: Option<String>,
    /// The tokens it used.
    pub usage: TokenUsage,
    /// The tools it called.
    pub tool_calls: ToolCalls,
}

/// The configuration that a run commits to: what its agent is configured with,
/// and the server's defaults beneath.
#[derive(Debug, Clone, PartialEq, Eq)]
pub struct ResolvedConfig {
    /// The provider.
    pub provider: String,
    /// The model.
    pub model: String,
    /// The posture.
    pub posture: Posture,
    /// How many tokens an answer may have.
    pub max_tokens: u64,
    /// How many tokens go into thinking.
    pub thinking_budget_tokens: u64,
    /// How much effort goes into reasoning.
    pub reasoning_effort: Option<String>,
    /// How many tokens go into thinking, for providers that count them apart.
    pub gemini_thinking_budget: Option<i64>,
    /// The context that is sent is shown.
    pub debug_mode: bool,
}

/// The configuration of a run: its agent's, under the posture of the run.
pub open spec fn committed(run: RunSetting, config: ResolvedConfig) -> ResolvedConfig {
    ResolvedConfig { posture: posture_for_run(config.posture, run.is_system_triggered), ..config }
}

/// Something that a run's execution makes happen.
#[derive(Debug, Clone, PartialEq, Eq)]
pub enum Effect<S> {
    /// Publish `run_started` with the configuration that the run commits to.
    RunStarted(ResolvedConfig),
    /// Publish `run_finished` with the tokens that the run used.
    RunFinished(TokenUsage),
    /// Publish `run_cancelled`.
    RunCancelled,
    /// Publish `run_error`.
    RunError(S),
    /// Publish `run_error` with an error code.
    RunErrorWithCode {
        /// The code that clients branch on.
        code: S,
        /// The text that people read.
        message: S,
    },
    /// Publish `session_activity_started` on the agent's feed.
    ActivityStarted,
    /// Publish `session_activity_ended` on the agent's feed.
    ActivityEnded,
    /// Store these records of tool calls.
    PersistToolCalls(ToolCalls),
    /// Store the marker that separates this run from the next.
    MarkBoundary,
    /// Store the error marker of a runtime that could not be built.
    MarkInitFailure(S),
    /// Tell the peer of a direct message run that its set-up failed.
    NotifyPeerFailed(S),
    /// Tell the peer of a direct message run that it was cancelled.
    NotifyPeerCancelled,
    /// End the direct message conversation that the run belongs to.
    EndConversation(EndReason<S>),
    /// Hand what the turn left to its direct message conversation.
    CompleteConversation(Arc<TurnOutput>),
    /// Start the task that writes the run's episodic summary from what the turn
    /// left. It counts as in flight by itself, so that a shutdown waits for it
    /// too.
    SpawnSummary(Arc<TurnOutput>),
    /// Publish `dm_activity_ended` on the agent's user-facing session.
    PeerActivityEnded,
    /// Note on the agent's record that it was active.
    TouchAgent,
    /// Drop the run's event senders.
    RemoveSenders,
    /// Drop the event senders of all runs that are over.
    PurgeTerminalSenders,
    /// Drop the run's cancellation token.
    RemoveCancelToken,
    /// Drop the approvals that the run still waits for.
    ClearApprovals,
    /// Report the run's exit to the episode of its job.
    FinishEpisode {
        /// The tool calls that are scanned for work it started.
        tool_calls: Option<ToolCalls>,
    },
    /// Publish the new positions of the runs queued behind this one.
    AdvanceQueue,
    /// Count the run as in flight, so that a shutdown waits for it. Unwinding
    /// gives the unit back as well.
    TrackInFlight,
    /// Count the run as in flight no longer.
    UntrackInFlight,
}

impl Effect<String> {
    /// The mathematical reading.
    pub open spec fn view(&self) -> Effect<Seq<char>> {
        match *self {
            Effect::RunStarted(c) => Effect::RunStarted(c),
            Effect::RunFinished(u) => Effect::RunFinished(u),
            Effect::RunCancelled => Effect::RunCancelled,
            Effect::RunError(m) => Effect::RunError(m@),
            Effect::RunErrorWithCode { code, message } => Effect::RunErrorWithCode {
                code: code@,
                message: message@,
            },
            Effect::ActivityStarted => Effect::ActivityStarted,
            Effect::ActivityEnded => Effect::ActivityEnded,
            Effect::PersistToolCalls(c) => Effect::PersistToolCalls(c),
            Effect::MarkBoundary => Effect::MarkBoundary,
            Effect::MarkInitFailure(m) => Effect::MarkInitFailure(m@),
            Effect::NotifyPeerFailed(m) => Effect::NotifyPeerFailed(m@),
            Effect::NotifyPeerCancelled => Effect::NotifyPeerCancelled,
            Effect::EndConversation(r) => Effect::EndConversation(r@),
            Effect::CompleteConversation(o) => Effect::CompleteConversation(o),
            Effect::SpawnSummary(o) => Effect::SpawnSummary(o),
            Effect::PeerActivityEnded => Effect::PeerActivityEnded,
            Effect::TouchAgent => Effect::TouchAgent,
            Effect::RemoveSenders => Effect::RemoveSenders,
            Effect::PurgeTerminalSenders => Effect::PurgeTerminalSenders,
            Effect::RemoveCancelToken => Effect::RemoveCancelToken,
            Effect::ClearApprovals => Effect::ClearApprovals,
            Effect::FinishEpisode { tool_calls } => Effect::FinishEpisode { tool_calls },
            Effect::AdvanceQueue => Effect::AdvanceQueue,
            Effect::TrackInFlight => Effect::TrackInFlight,
            Effect::UntrackInFlight => Effect::UntrackInFlight,
        }
    }
}

/// Effects in the order they are to be performed.
pub struct Effects {
    /// The effects.
    pub list: Vec<Effect<String>>,
}

impl Effects {
    /// The mathematical reading.
    pub open spec fn view(&self) -> Seq<Effect<Seq<char>>> {
        Seq::new(self.list@.len(), |i: int| self.list@[i]@)
    }

    /// No effect.
    pub fn none() -> (r: Effects)
        ensures
            r@ == Seq::<Effect<Seq<char>>>::empty(),
    {
        let r: Effects = Effects { list: Vec::new() };
        r
    }

    /// Adds an effect behind the others.
    pub fn add(&mut self, effect: Effect<String>)
        ensures
            final(self)@ == old(self)@.push(effect@),
    {
        self.list.push(effect);
    }
}

/// What is known of a run once its runtime stands.
#[derive(Debug, Clone, Copy, PartialEq, Eq, Structural)]
pub struct RunFacts {
    /// An episodic summary is to be written if the run completes.
    pub summarise: bool,
    /// The run belongs to a conversation with a known peer.
    pub dm_peer: bool,
}

/// What has to be done next outside, and what is remembered until it is done.
#[derive(Debug, Clone, PartialEq, Eq)]
pub enum Phase<S> {
    /// Nothing has happened yet.
    Begin,
    /// Claim the input message that was stored when the run was accepted.
    ClaimingInput,
    /// Mark the run failed: its input could not be claimed.
    ClaimFailed(S),
    /// Look whether the run was cancelled or the gateway is shutting down.
    PollingCancel,
    /// Mark the run cancelled before it started.
    CancellingQueued,
    /// Read the run record after that; holds the error of the attempt.
    QueuedVerdict(Option<S>),
    /// Resolve the agent's configuration.
    Resolving,
    /// Mark the run failed: its configuration does not resolve.
    ResolveFailed(S),
    /// Check the token budget.
    CheckingBudget(ResolvedConfig),
    /// Mark the run failed: its token budget does not fit.
    BudgetRejected(S),
    /// Mark the run running, with this configuration.
    Starting(ResolvedConfig),
    /// Read the run record of a run that was not allowed to start.
    RefusedVerdict,
    /// Sanitise this error for the peer; the run is cleaned up already.
    ReleasingAfterPeer(S),
    /// Sanitise this error for the peer; clean up afterwards.
    CleaningAfterPeer(S),
    /// Build the runtime.
    BuildingRuntime,
    /// Mark the run failed: its runtime cannot be built.
    InitFailed {
        /// The error as it is recorded.
        message: S,
        /// The error as the session's history may show it.
        safe_reason: S,
    },
    /// Run the agent.
    Running(RunFacts),
    /// Mark the run completed, with the text and the tokens of its turn.
    Completing {
        /// What is known of the run.
        facts: RunFacts,
        /// What its turn left.
        output: Arc<TurnOutput>,
    },
    /// Mark the run cancelled.
    Cancelling {
        /// What is known of the run.
        facts: RunFacts,
        /// The tool calls that it left.
        calls: Option<ToolCalls>,
    },
    /// Mark the run failed.
    Failing {
        /// The error as it is recorded.
        message: S,
        /// What is known of the run.
        facts: RunFacts,
        /// The tool calls that it left.
        calls: Option<ToolCalls>,
    },
    /// Read the run record of a run that did not complete.
    EndVerdict {
        /// The error that marking it met.
        observed: Option<S>,
        /// What is known of the run.
        facts: RunFacts,
        /// The tool calls that it left.
        calls: Option<ToolCalls>,
    },
    /// Sanitise this error for the peer of a run that was under way.
    EndingAfterPeer {
        /// The error.
        message: S,
        /// What is known of the run.
        facts: RunFacts,
        /// The tool calls that it left.
        calls: Option<ToolCalls>,
    },
    /// Nothing is left to do.
    Done,
}

impl Phase<String> {
    /// The mathematical reading.
    pub open spec fn view(&self) -> Phase<Seq<char>> {
        match *self {
            Phase::Begin => Phase::Begin,
            Phase::ClaimingInput => Phase::ClaimingInput,
            Phase::ClaimFailed(m) => Phase::ClaimFailed(m@),
            Phase::PollingCancel => Phase::PollingCancel,
            Phase::CancellingQueued => Phase::CancellingQueued,
            Phase::QueuedVerdict(o) => Phase::QueuedVerdict(text_of(o)),
            Phase::Resolving => Phase::Resolving,
            Phase::ResolveFailed(m) => Phase::ResolveFailed(m@),
            Phase::CheckingBudget(c) => Phase::CheckingBudget(c),
            Phase::BudgetRejected(m) => Phase::BudgetRejected(m@),
            Phase::Starting(c) => Phase::Starting(c),
            Phase::RefusedVerdict => Phase::RefusedVerdict,
            Phase::ReleasingAfterPeer(m) => Phase::ReleasingAfterPeer(m@),
            Phase::CleaningAfterPeer(m) => Phase::CleaningAfterPeer(m@),
            Phase::BuildingRuntime => Phase::BuildingRuntime,
            Phase::InitFailed { message, safe_reason } => Phase::InitFailed {
                message: message@,
                safe_reason: safe_reason@,
            },
            Phase::Running(f) => Phase::Running(f),
            Phase::Completing { facts, output } => Phase::Completing { facts, output },
            Phase::Cancelling { facts, calls } => Phase::Cancelling { facts, calls },
            Phase::Failing { message, facts, calls } => Phase::Failing {
                message: message@,
                facts,
                calls,
            },
            Phase::EndVerdict { observed, facts, calls } => Phase::EndVerdict {
                observed: text_of(observed),
                facts,
                calls,
            },
            Phase::EndingAfterPeer { message, facts, calls } => Phase::EndingAfterPeer {
                message: message@,
                facts,
                calls,
            },
            Phase::Done => Phase::Done,
        }
    }
}

/// How the agent's turn ended.
#[derive(Debug, Clone, PartialEq, Eq)]
pub enum Outcome<S> {
    /// It produced an output.
    Completed(Arc<TurnOutput>),
    /// It was cancelled.
    Cancelled,
    /// It was cancelled after tool calls.
    CancelledWithToolCalls(ToolCalls),
    /// It failed after tool calls.
    FailedWithToolCalls {
        /// The error.
        message: S,
        /// The tool calls.
        tool_calls: ToolCalls,
    },
    /// It failed.
    Failed(S),
}

impl Outcome<String> {
    /// The mathematical reading.
    pub open spec fn view(&self) -> Outcome<Seq<char>> {
        match *self {
            Outcome::Completed(o) => Outcome::Completed(o),
            Outcome::Cancelled => Outcome::Cancelled,
            Outcome::CancelledWithToolCalls(c) => Outcome::CancelledWithToolCalls(c),
            Outcome::FailedWithToolCalls { message, tool_calls } => Outcome::FailedWithToolCalls {
                message: message@,
                tool_calls,
            },
            Outcome::Failed(m) => Outcome::Failed(m@),
        }
    }
}

/// Why a runtime could not be built.
#[derive(Debug, Clone, PartialEq, Eq)]
pub struct InitError<S> {
    /// The error as it is recorded.
    pub message: S,
    /// The error as the session's history may show it.
    pub safe_reason: S,
}

/// What happened outside.
#[derive(Debug)]
pub enum Event<S> {
    /// The run's turn in the queue has come.
    Dequeued,
    /// The stored input was claimed, or not.
    InputClaimed(Result<(), S>),
    /// The run was cancelled or the gateway is shutting down.
    CancelPolled(bool),
    /// The run's status was changed, was refused the change, or the change
    /// could not be stored.
    Marked(Result<bool, S>),
    /// The run record says this.
    VerdictRead(Option<RunVerdict<S>>),
    /// The error, sanitised.
    Sanitised(S),
    /// The agent's configuration resolved to this, or not.
    Resolved(Result<ResolvedConfig, S>),
    /// The token budget fits, or not.
    BudgetChecked(Result<(), S>),
    /// The runtime was built, or not.
    RuntimeBuilt(Result<RunFacts, InitError<S>>),
    /// The agent's turn is over.
    Finished(Outcome<S>),
}

impl Event<String> {
    /// The mathematical reading.
    pub open spec fn view(&self) -> Event<Seq<char>> {
        match *self {
            Event::Dequeued => Event::Dequeued,
            Event::InputClaimed(r) => Event::InputClaimed(unit_view(r)),
            Event::CancelPolled(b) => Event::CancelPolled(b),
            Event::Marked(r) => Event::Marked(marked_view(r)),
            Event::VerdictRead(v) => Event::VerdictRead(verdict_view(v)),
            Event::Sanitised(t) => Event::Sanitised(t@),
            Event::Resolved(r) => Event::Resolved(
                match r {
                    Ok(c) => Ok(c),
                    Err(e) => Err(e@),
                },
            ),
            Event::BudgetChecked(r) => Event::BudgetChecked(unit_view(r)),
            Event::RuntimeBuilt(r) => Event::RuntimeBuilt(
                match r {
                    Ok(f) => Ok(f),
                    Err(e) => Err(InitError { message: e.message@, safe_reason: e.safe_reason@ }),
                },
            ),
            Event::Finished(o) => Event::Finished(o@),
        }
    }
}

/// The reading of a result without a value.
pub open spec fn unit_view(r: Result<(), String>) -> Result<(), Seq<char>> {
    match r {
        Ok(_) => Ok(()),
        Err(e) => Err(e@),
    }
}

/// The reading of a status change's result.
pub open spec fn marked_view(r: Result<bool, String>) -> Result<bool, Seq<char>> {
    match r {
        Ok(b) => Ok(b),
        Err(e) => Err(e@),
    }
}

/// What is fixed about a run before it is executed.
#[derive(Debug, Clone, Copy, PartialEq, Eq, Structural)]
pub struct RunSetting {
    /// The input message was stored when the run was accepted.
    pub input_pre_persisted: bool,
    /// The run's session is an internal one.
    pub internal: bool,
    /// No person asked for the run.
    pub is_system_triggered: bool,
}

/// The effects of an exit that releases the episode, the queue and the run's
/// in-flight unit.
pub open spec fn released(tool_calls: Option<ToolCalls>) -> Seq<Effect<Seq<char>>> {
    seq![
        Effect::FinishEpisode { tool_calls },
        Effect::AdvanceQueue,
        Effect::UntrackInFlight,
    ]
}

/// The effects of an exit before the agent ran that still has to clean up.
pub open spec fn cleaned_up() -> Seq<Effect<Seq<char>>> {
    seq![Effect::RemoveSenders, Effect::RemoveCancelToken, Effect::ClearApprovals] + released(None)
}

/// The effects that close every run that was under way.
pub open spec fn closing(facts: RunFacts, calls: Option<ToolCalls>) -> Seq<Effect<Seq<char>>> {
    seq![Effect::ActivityEnded] + (if facts.dm_peer {
        seq![Effect::PeerActivityEnded]
    } else {
        seq![]
    }) + seq![
        Effect::TouchAgent,
        Effect::RemoveSenders,
        Effect::PurgeTerminalSenders,
        Effect::RemoveCancelToken,
        Effect::ClearApprovals,
    ] + released(calls)
}

/// The effect that stores tool calls, if there are any.
pub open spec fn stored(calls: ToolCalls) -> Seq<Effect<Seq<char>>> {
    if calls@.len() > 0 {
        seq![Effect::PersistToolCalls(calls)]
    } else {
        seq![]
    }
}

/// What is published when a run was to be marked failed: the failure when the
/// change was made, the failure to store it when it could not be stored, and
/// nothing when the run was over already.
pub open spec fn failure_published(
    message: Seq<char>,
    unstored: Seq<char>,
    marked: Result<bool, Seq<char>>,
) -> Seq<Effect<Seq<char>>> {
    match marked {
        Ok(true) => seq![Effect::RunError(message)],
        Ok(false) => seq![],
        Err(e) => seq![Effect::RunError(unstored + e)],
    }
}

/// The failure that stands on record after that.
pub open spec fn failure_on_record(
    message: Seq<char>,
    unstored: Seq<char>,
    marked: Result<bool, Seq<char>>,
) -> Seq<char> {
    match marked {
        Ok(_) => message,
        Err(e) => unstored + e,
    }
}

/// What is published when a run was to be marked cancelled.
pub open spec fn cancel_published(marked: Result<bool, Seq<char>>) -> Seq<Effect<Seq<char>>> {
    match marked {
        Ok(true) => seq![Effect::RunCancelled],
        Ok(false) => seq![],
        Err(e) => seq![Effect::RunError("Run cancellation could not be persisted: "@ + e)],
    }
}

/// The error of a status change that could not be stored.
pub open spec fn unstored_error(
    unstored: Seq<char>,
    marked: Result<bool, Seq<char>>,
) -> Option<Seq<char>> {
    match marked {
        Ok(_) => None,
        Err(e) => Some(unstored + e),
    }
}

/// One step of a run's execution. An event that does not answer the phase
/// changes nothing.
pub open spec fn exec_step(
    run: RunSetting,
    phase: Phase<Seq<char>>,
    event: Event<Seq<char>>,
) -> (Phase<Seq<char>>, Seq<Effect<Seq<char>>>) {
    match (phase, event) {
        (Phase::Begin, Event::Dequeued) => (
            if run.input_pre_persisted {
                Phase::ClaimingInput
            } else {
                Phase::PollingCancel
            },
            seq![Effect::TrackInFlight],
        ),
        (Phase::ClaimingInput, Event::InputClaimed(Ok(_))) => (Phase::PollingCancel, seq![]),
        (Phase::ClaimingInput, Event::InputClaimed(Err(e))) => (
            Phase::ClaimFailed("Failed to claim accepted run input: "@ + e),
            seq![],
        ),
        (Phase::ClaimFailed(m), Event::Marked(r)) => (
            Phase::Done,
            failure_published(m, "Run input claim failure could not be persisted: "@, r)
                + seq![Effect::ActivityEnded] + cleaned_up(),
        ),
        (Phase::PollingCancel, Event::CancelPolled(cancelled)) => (
            if cancelled {
                Phase::CancellingQueued
            } else {
                Phase::Resolving
            },
            seq![],
        ),
        (Phase::CancellingQueued, Event::Marked(r)) => (
            Phase::QueuedVerdict(unstored_error("Run cancellation could not be persisted: "@, r)),
            cancel_published(r) + seq![
                Effect::ActivityEnded,
                Effect::RemoveCancelToken,
                Effect::RemoveSenders,
            ],
        ),
        (Phase::QueuedVerdict(observed), Event::VerdictRead(v)) => match persistence_error(
            v,
            observed,
        ) {
            Some(m) => (Phase::ReleasingAfterPeer(m), seq![]),
            None => (Phase::Done, seq![Effect::NotifyPeerCancelled] + released(None)),
        },
        (Phase::Resolving, Event::Resolved(Ok(c))) => (Phase::CheckingBudget(c), seq![]),
        (Phase::Resolving, Event::Resolved(Err(e))) => (Phase::ResolveFailed(e), seq![]),
        (Phase::ResolveFailed(m), Event::Marked(r)) => (
            Phase::CleaningAfterPeer(
                failure_on_record(m, "Run failure could not be persisted: "@, r),
            ),
            failure_published(m, "Run failure could not be persisted: "@, r)
                + seq![Effect::ActivityEnded],
        ),
        (Phase::CheckingBudget(c), Event::BudgetChecked(Ok(_))) => (
            Phase::Starting(committed(run, c)),
            seq![],
        ),
        (Phase::CheckingBudget(_), Event::BudgetChecked(Err(m))) => (
            Phase::BudgetRejected(m),
            seq![],
        ),
        (Phase::BudgetRejected(m), Event::Marked(r)) => (
            Phase::CleaningAfterPeer(
                failure_on_record(m, "Run failure could not be persisted: "@, r),
            ),
            (match r {
                Ok(_) => seq![
                    Effect::RunErrorWithCode {
                        code: "INVALID_TOKEN_BUDGET_FOR_PROVIDER"@,
                        message: m,
                    },
                ],
                Err(e) => seq![Effect::RunError("Run failure could not be persisted: "@ + e)],
            }) + seq![Effect::ActivityEnded],
        ),
        (Phase::Starting(c), Event::Marked(Ok(true))) => (
            Phase::BuildingRuntime,
            seq![Effect::RunStarted(c), Effect::ActivityStarted],
        ),
        (Phase::Starting(_), Event::Marked(Ok(false))) => (
            Phase::RefusedVerdict,
            seq![
                Effect::ActivityEnded,
                Effect::RemoveCancelToken,
                Effect::RemoveSenders,
                Effect::ClearApprovals,
            ],
        ),
        (Phase::Starting(_), Event::Marked(Err(e))) => (
            Phase::ReleasingAfterPeer("Run start could not be persisted: "@ + e),
            seq![
                Effect::RunError("Run start could not be persisted: "@ + e),
                Effect::ActivityEnded,
                Effect::RemoveCancelToken,
                Effect::RemoveSenders,
                Effect::ClearApprovals,
            ],
        ),
        (Phase::RefusedVerdict, Event::VerdictRead(v)) => match persistence_error(v, None) {
            Some(m) => (Phase::ReleasingAfterPeer(m), seq![]),
            None => (Phase::Done, seq![Effect::NotifyPeerCancelled] + released(None)),
        },
        (Phase::ReleasingAfterPeer(_), Event::Sanitised(t)) => (
            Phase::Done,
            seq![Effect::NotifyPeerFailed(peer_text(t))] + released(None),
        ),
        (Phase::CleaningAfterPeer(_), Event::Sanitised(t)) => (
            Phase::Done,
            seq![Effect::NotifyPeerFailed(peer_text(t))] + cleaned_up(),
        ),
        (Phase::BuildingRuntime, Event::RuntimeBuilt(Ok(facts))) => (Phase::Running(facts), seq![]),
        (Phase::BuildingRuntime, Event::RuntimeBuilt(Err(e))) => (
            Phase::InitFailed { message: e.message, safe_reason: e.safe_reason },
            seq![],
        ),
        (Phase::InitFailed { message, safe_reason }, Event::Marked(r)) => (
            Phase::CleaningAfterPeer(
                failure_on_record(message, "Run failure could not be persisted: "@, r),
            ),
            failure_published(message, "Run failure could not be persisted: "@, r)
                + seq![Effect::ActivityEnded] + (if run.internal {
                seq![]
            } else {
                seq![Effect::MarkInitFailure(safe_reason)]
            }),
        ),
        (Phase::Running(facts), Event::Finished(Outcome::Completed(output))) => (
            Phase::Completing { facts, output },
            stored(output.tool_calls) + (if run.internal {
                seq![]
            } else {
                seq![Effect::MarkBoundary]
            }),
        ),
        (Phase::Running(facts), Event::Finished(Outcome::Cancelled)) => (
            Phase::Cancelling { facts, calls: None },
            seq![],
        ),
        (Phase::Running(facts), Event::Finished(Outcome::CancelledWithToolCalls(calls))) => (
            Phase::Cancelling { facts, calls: Some(calls) },
            stored(calls),
        ),
        (
            Phase::Running(facts),
            Event::Finished(Outcome::FailedWithToolCalls { message, tool_calls }),
        ) => (
            Phase::Failing { message, facts, calls: Some(tool_calls) },
            stored(tool_calls),
        ),
        (Phase::Running(facts), Event::Finished(Outcome::Failed(m))) => (
            Phase::Failing { message: m, facts, calls: None },
            seq![],
        ),
        (Phase::Completing { facts, output }, Event::Marked(Ok(true))) => (
            Phase::Done,
            seq![Effect::RunFinished(output.usage)] + (if facts.summarise {
                seq![Effect::SpawnSummary(output)]
            } else {
                seq![]
            }) + seq![Effect::CompleteConversation(output)] + closing(
                facts,
                Some(output.tool_calls),
            ),
        ),
        (Phase::Completing { facts, output }, Event::Marked(Ok(false))) => (
            Phase::EndVerdict { observed: None, facts, calls: Some(output.tool_calls) },
            seq![],
        ),
        (Phase::Completing { facts, output }, Event::Marked(Err(e))) => (
            Phase::EndVerdict {
                observed: Some("Run completion could not be persisted: "@ + e),
                facts,
                calls: Some(output.tool_calls),
            },
            seq![Effect::RunError("Run completion could not be persisted: "@ + e)],
        ),
        (Phase::Cancelling { facts, calls }, Event::Marked(r)) => (
            Phase::EndVerdict {
                observed: unstored_error("Run cancellation could not be persisted: "@, r),
                facts,
                calls,
            },
            cancel_published(r),
        ),
        (Phase::Failing { message, facts, calls }, Event::Marked(r)) => (
            Phase::EndingAfterPeer {
                message: failure_on_record(message, "Run failure could not be persisted: "@, r),
                facts,
                calls,
            },
            failure_published(message, "Run failure could not be persisted: "@, r),
        ),
        (Phase::EndVerdict { observed, facts, calls }, Event::VerdictRead(v)) => {
            match persistence_error(v, observed) {
                Some(m) => (Phase::EndingAfterPeer { message: m, facts, calls }, seq![]),
                None => (
                    Phase::Done,
                    seq![Effect::EndConversation(EndReason::UserCancelled)] + closing(facts, calls),
                ),
            }
        },
        (Phase::EndingAfterPeer { message, facts, calls }, Event::Sanitised(t)) => (
            Phase::Done,
            seq![
                Effect::EndConversation(
                    EndReason::Errored { message: peer_text(t), interrupted: true },
                ),
            ] + closing(facts, calls),
        ),
        _ => (phase, seq![]),
    }
}

impl Effects {
    /// Adds the effects of [`released`].
    fn release(&mut self, tool_calls: Option<ToolCalls>)
        ensures
            final(self)@ == old(self)@ + released(tool_calls),
    {
        self.add(Effect::FinishEpisode { tool_calls });
        self.add(Effect::AdvanceQueue);
        self.add(Effect::UntrackInFlight);
    }

    /// Adds the effects of [`cleaned_up`].
    fn clean_up(&mut self)
        ensures
            final(self)@ == old(self)@ + cleaned_up(),
    {
        self.add(Effect::RemoveSenders);
        self.add(Effect::RemoveCancelToken);
        self.add(Effect::ClearApprovals);
        self.release(None);
    }

    /// Adds the effects of [`closing`].
    fn close(&mut self, facts: RunFacts, calls: Option<ToolCalls>)
        ensures
            final(self)@ == old(self)@ + closing(facts, calls),
    {
        self.add(Effect::ActivityEnded);
        if facts.dm_peer {
            self.add(Effect::PeerActivityEnded);
        }
        self.add(Effect::TouchAgent);
        self.add(Effect::RemoveSenders);
        self.add(Effect::PurgeTerminalSenders);
        self.add(Effect::RemoveCancelToken);
        self.add(Effect::ClearApprovals);
        self.release(calls);
    }

    /// Adds the effect of [`stored`].
    fn store(&mut self, calls: ToolCalls)
        ensures
            final(self)@ == old(self)@ + stored(calls),
    {
        if calls.len() > 0 {
            self.add(Effect::PersistToolCalls(calls));
        }
    }

    /// Adds what is published of a failure and returns what stands on record.
    fn publish_failure(
        &mut self,
        message: String,
        unstored: &str,
        marked: Result<bool, String>,
    ) -> (r: String)
        ensures
            final(self)@ == old(self)@ + failure_published(message@, unstored@, marked_view(marked)),
            r@ == failure_on_record(message@, unstored@, marked_view(marked)),
    {
        match marked {
            Ok(true) => {
                self.add(Effect::RunError(message.clone()));
                message
            },
            Ok(false) => {
                message
            },
            Err(error) => {
                let text: String = concat(unstored, error.as_str());
                self.add(Effect::RunError(text.clone()));
                text
            },
        }
    }

    /// Adds what is published of a cancellation and returns its error.
    fn publish_cancel(&mut self, marked: Result<bool, String>) -> (r: Option<String>)
        ensures
            final(self)@ == old(self)@ + cancel_published(marked_view(marked)),
            text_of(r) == unstored_error(
                "Run cancellation could not be persisted: "@,
                marked_view(marked),
            ),
    {
        match marked {
            Ok(true) => {
                self.add(Effect::RunCancelled);
                None
            },
            Ok(false) => {
                None
            },
            Err(error) => {
                let text: String = concat(
                    "Run cancellation could not be persisted: ",
                    error.as_str(),
                );
                self.add(Effect::RunError(text.clone()));
                Some(text)
            },
        }
    }
}

/// Takes a run's execution one step further: from the phase it is in and the
/// event that answers it, to the next phase and the effects to perform.
#[verifier::rlimit(60)]
pub fn execute_run(run: &RunSetting, phase: Phase<String>, event: Event<String>) -> (r: (
    Phase<String>,
    Effects,
))
    ensures
        (r.0@, r.1@) == exec_step(*run, phase@, event@),
{
    let mut out: Effects = Effects::none();
    let next: Phase<String> = match (phase, event) {
        (Phase::Begin, Event::Dequeued) => {
            out.add(Effect::TrackInFlight);
            if run.input_pre_persisted {
                Phase::ClaimingInput
            } else {
                Phase::PollingCancel
            }
        },
        (Phase::ClaimingInput, Event::InputClaimed(claimed)) => match claimed {
            Ok(_) => Phase::PollingCancel,
            Err(e) => Phase::ClaimFailed(
                concat("Failed to claim accepted run input: ", e.as_str()),
            ),
        },
        (Phase::ClaimFailed(message), Event::Marked(marked)) => {
            out.publish_failure(
                message,
                "Run input claim failure could not be persisted: ",
                marked,
            );
            out.add(Effect::ActivityEnded);
            out.clean_up();
            Phase::Done
        },
        (Phase::PollingCancel, Event::CancelPolled(cancelled)) => if cancelled {
            Phase::CancellingQueued
        } else {
            Phase::Resolving
        },
        (Phase::CancellingQueued, Event::Marked(marked)) => {
            let observed: Option<String> = out.publish_cancel(marked);
            out.add(Effect::ActivityEnded);
            out.add(Effect::RemoveCancelToken);
            out.add(Effect::RemoveSenders);
            Phase::QueuedVerdict(observed)
        },
        (Phase::QueuedVerdict(observed), Event::VerdictRead(verdict)) => {
            match lifecycle_persistence_error_for_peer(verdict, observed) {
                Some(message) => Phase::ReleasingAfterPeer(message),
                None => {
                    out.add(Effect::NotifyPeerCancelled);
                    out.release(None);
                    Phase::Done
                },
            }
        },
        (Phase::Resolving, Event::Resolved(resolved)) => match resolved {
            Ok(config) => Phase::CheckingBudget(config),
            Err(e) => Phase::ResolveFailed(e),
        },
        (Phase::ResolveFailed(message), Event::Marked(marked)) => {
            let on_record: String = out.publish_failure(
                message,
                "Run failure could not be persisted: ",
                marked,
            );
            out.add(Effect::ActivityEnded);
            Phase::CleaningAfterPeer(on_record)
        },
        (Phase::CheckingBudget(config), Event::BudgetChecked(checked)) => match checked {
            Ok(_) => {
                let mut snapshot: ResolvedConfig = config;
                snapshot.posture = resolve_posture_for_run(
                    snapshot.posture,
                    run.is_system_triggered,
                );
                Phase::Starting(snapshot)
            },
            Err(message) => Phase::BudgetRejected(message),
        },
        (Phase::BudgetRejected(message), Event::Marked(marked)) => {
            let on_record: String = match marked {
                Ok(_) => {
                    out.add(
                        Effect::RunErrorWithCode {
                            code: "INVALID_TOKEN_BUDGET_FOR_PROVIDER".to_owned(),
                            message: message.clone(),
                        },
                    );
                    message
                },
                Err(error) => {
                    let text: String = concat(
                        "Run failure could not be persisted: ",
                        error.as_str(),
                    );
                    out.add(Effect::RunError(text.clone()));
                    text
                },
            };
            out.add(Effect::ActivityEnded);
            Phase::CleaningAfterPeer(on_record)
        },
        (Phase::Starting(config), Event::Marked(marked)) => match marked {
            Ok(true) => {
                out.add(Effect::RunStarted(config));
                out.add(Effect::ActivityStarted);
                Phase::BuildingRuntime
            },
            Ok(false) => {
                out.add(Effect::ActivityEnded);
                out.add(Effect::RemoveCancelToken);
                out.add(Effect::RemoveSenders);
                out.add(Effect::ClearApprovals);
                Phase::RefusedVerdict
            },
            Err(error) => {
                let text: String = concat("Run start could not be persisted: ", error.as_str());
                out.add(Effect::RunError(text.clone()));
                out.add(Effect::ActivityEnded);
                out.add(Effect::RemoveCancelToken);
                out.add(Effect::RemoveSenders);
                out.add(Effect::ClearApprovals);
                Phase::ReleasingAfterPeer(text)
            },
        },
        (Phase::RefusedVerdict, Event::VerdictRead(verdict)) => {
            match lifecycle_persistence_error_for_peer(verdict, None) {
                Some(message) => Phase::ReleasingAfterPeer(message),
                None => {
                    out.add(Effect::NotifyPeerCancelled);
                    out.release(None);
                    Phase::Done
                },
            }
        },
        (Phase::ReleasingAfterPeer(_), Event::Sanitised(text)) => {
            out.add(Effect::NotifyPeerFailed(truncate_error_for_peer(text.as_str())));
            out.release(None);
            Phase::Done
        },
        (Phase::CleaningAfterPeer(_), Event::Sanitised(text)) => {
            out.add(Effect::NotifyPeerFailed(truncate_error_for_peer(text.as_str())));
            out.clean_up();
            Phase::Done
        },
        (Phase::BuildingRuntime, Event::RuntimeBuilt(built)) => match built {
            Ok(facts) => Phase::Running(facts),
            Err(e) => Phase::InitFailed { message: e.message, safe_reason: e.safe_reason },
        },
        (Phase::InitFailed { message, safe_reason }, Event::Marked(marked)) => {
            let on_record: String = out.publish_failure(
                message,
                "Run failure could not be persisted: ",
                marked,
            );
            out.add(Effect::ActivityEnded);
            if !run.internal {
                out.add(Effect::MarkInitFailure(safe_reason));
            }
            Phase::CleaningAfterPeer(on_record)
        },
        (Phase::Running(facts), Event::Finished(outcome)) => match outcome {
            Outcome::Completed(output) => {
                out.store(output.tool_calls.clone());
                if !run.internal {
                    out.add(Effect::MarkBoundary);
                }
                Phase::Completing { facts, output }
            },
            Outcome::Cancelled => Phase::Cancelling { facts, calls: None },
            Outcome::CancelledWithToolCalls(calls) => {
                out.store(calls.clone());
                Phase::Cancelling { facts, calls: Some(calls) }
            },
            Outcome::FailedWithToolCalls { message, tool_calls } => {
                out.store(tool_calls.clone());
                Phase::Failing { message, facts, calls: Some(tool_calls) }
            },
            Outcome::Failed(message) => Phase::Failing { message, facts, calls: None },
        },
        (Phase::Completing { facts, output }, Event::Marked(marked)) => match marked {
            Ok(true) => {
                out.add(Effect::RunFinished(output.usage));
                if facts.summarise {
                    out.add(Effect::SpawnSummary(output.clone()));
                }
                let calls: ToolCalls = output.tool_calls.clone();
                out.add(Effect::CompleteConversation(output));
                out.close(facts, Some(calls));
                Phase::Done
            },
            Ok(false) => Phase::EndVerdict {
                observed: None,
                facts,
                calls: Some(output.tool_calls.clone()),
            },
            Err(error) => {
                let text: String = concat(
                    "Run completion could not be persisted: ",
                    error.as_str(),
                );
                out.add(Effect::RunError(text.clone()));
                Phase::EndVerdict {
                    observed: Some(text),
                    facts,
                    calls: Some(output.tool_calls.clone()),
                }
            },
        },
        (Phase::Cancelling { facts, calls }, Event::Marked(marked)) => {
            let observed: Option<String> = out.publish_cancel(marked);
            Phase::EndVerdict { observed, facts, calls }
        },
        (Phase::Failing { message, facts, calls }, Event::Marked(marked)) => {
            let on_record: String = out.publish_failure(
                message,
                "Run failure could not be persisted: ",
                marked,
            );
            Phase::EndingAfterPeer { message: on_record, facts, calls }
        },
        (Phase::EndVerdict { observed, facts, calls }, Event::VerdictRead(verdict)) => {
            match lifecycle_persistence_error_for_peer(verdict, observed) {
                Some(message) => Phase::EndingAfterPeer { message, facts, calls },
                None => {
                    out.add(Effect::EndConversation(EndReason::UserCancelled));
                    out.close(facts, calls);
                    Phase::Done
                },
            }
        },
        (Phase::EndingAfterPeer { message: _, facts, calls }, Event::Sanitised(text)) => {
            let shown: String = truncate_error_for_peer(text.as_str());
            out.add(
                Effect::EndConversation(EndReason::Errored { message: shown, interrupted: true }),
            );
            out.close(facts, calls);
            Phase::Done
        },
        (other, _) => other,
    };
    (next, out)
}

} // verus!
