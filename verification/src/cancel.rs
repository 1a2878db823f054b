//! Cancelling a run or a subagent on request. A phase names what has to be
//! done next outside; the event that reports its result leads to the next
//! phase and to the effects to be performed, in order.

use crate::execution::marked_view;
use crate::ids::{id_text, uuid_text, RunId, SessionId};
use crate::job_card::RunStatus;
use crate::metadata::{text_value, MetaView, Metadata};
use crate::replies::{api_error, plain_error, ApiError, ErrorView, CONFLICT,
    INTERNAL_SERVER_ERROR, NOT_FOUND};
use crate::text::concat;
use vstd::prelude::*;
use vstd::string::*;

verus! {

/// Something that a cancellation makes happen.
#[derive(Debug, Clone, PartialEq, Eq)]
pub enum CancelEffect<S> {
    /// Signal the run's cancellation token.
    SignalToken,
    /// Publish `run_cancelled`.
    RunCancelled,
    /// Publish `run_error`.
    RunError(S),
    /// Publish `session_activity_ended` on the agent's feed.
    ActivityEnded,
}

impl CancelEffect<String> {
    /// The mathematical reading.
    pub open spec fn view(&self) -> CancelEffect<Seq<char>> {
        match *self {
            CancelEffect::SignalToken => CancelEffect::SignalToken,
            CancelEffect::RunCancelled => CancelEffect::RunCancelled,
            CancelEffect::RunError(m) => CancelEffect::RunError(m@),
            CancelEffect::ActivityEnded => CancelEffect::ActivityEnded,
        }
    }
}

/// The readings of effects, in order.
pub open spec fn cancel_effects(effects: Seq<CancelEffect<String>>) -> Seq<CancelEffect<Seq<char>>> {
    Seq::new(effects.len(), |i: int| effects[i]@)
}

/// What the client is told.
#[derive(Debug, Clone, PartialEq, Eq)]
pub enum CancelReply<S> {
    /// The run is cancelled.
    Cancelled,
    /// There is no such run.
    NotFound,
    /// The run was over already.
    AlreadyFinished,
    /// The cancellation could not be stored; this is the text.
    NotCommitted(S),
}

impl CancelReply<String> {
    /// The mathematical reading.
    pub open spec fn view(&self) -> CancelReply<Seq<char>> {
        match *self {
            CancelReply::Cancelled => CancelReply::Cancelled,
            CancelReply::NotFound => CancelReply::NotFound,
            CancelReply::AlreadyFinished => CancelReply::AlreadyFinished,
            CancelReply::NotCommitted(m) => CancelReply::NotCommitted(m@),
        }
    }
}

/// What has to be done next outside.
#[derive(Debug, Clone, PartialEq, Eq)]
pub enum CancelPhase<S> {
    /// Read the run and look for its cancellation token.
    Reading,
    /// Mark the run cancelled.
    Marking,
    /// Read the status of a run that refused the change.
    Rereading,
    /// Answer the client.
    Replying(CancelReply<S>),
}

impl CancelPhase<String> {
    /// The mathematical reading.
    pub open spec fn view(&self) -> CancelPhase<Seq<char>> {
        match *self {
            CancelPhase::Reading => CancelPhase::Reading,
            CancelPhase::Marking => CancelPhase::Marking,
            CancelPhase::Rereading => CancelPhase::Rereading,
            CancelPhase::Replying(r) => CancelPhase::Replying(r@),
        }
    }
}

/// What is read of a run that is to be cancelled.
#[derive(Debug, Clone, Copy, PartialEq, Eq, Structural)]
pub struct RunSnapshot {
    /// Its status.
    pub status: RunStatus,
    /// Its cancellation token is registered.
    pub has_token: bool,
}

/// What happened outside.
#[derive(Debug)]
pub enum CancelEvent<S> {
    /// The run, if there is one.
    RunRead(Option<RunSnapshot>),
    /// The run's status was changed, was refused the change, or the change
    /// could not be stored.
    Marked(Result<bool, S>),
    /// The run's status, if it is still there.
    StatusRead(Option<RunStatus>),
}

impl CancelEvent<String> {
    /// The mathematical reading.
    pub open spec fn view(&self) -> CancelEvent<Seq<char>> {
        match *self {
            CancelEvent::RunRead(s) => CancelEvent::RunRead(s),
            CancelEvent::Marked(r) => CancelEvent::Marked(marked_view(r)),
            CancelEvent::StatusRead(s) => CancelEvent::StatusRead(s),
        }
    }
}

/// A run that can still be cancelled.
pub open spec fn cancellable(run: RunSnapshot) -> bool {
    (run.status is Queued || run.status is Running) && run.has_token
}

/// The text about a cancellation that could not be stored.
pub open spec fn not_committed(error: Seq<char>) -> Seq<char> {
    "Run cancellation could not be committed: "@ + error
}

/// One step of a cancellation. An event that does not answer the phase changes
/// nothing.
pub open spec fn cancel_step(phase: CancelPhase<Seq<char>>, event: CancelEvent<Seq<char>>) -> (
    CancelPhase<Seq<char>>,
    Seq<CancelEffect<Seq<char>>>,
) {
    match (phase, event) {
        (CancelPhase::Reading, CancelEvent::RunRead(None)) => (
            CancelPhase::Replying(CancelReply::NotFound),
            seq![],
        ),
        (CancelPhase::Reading, CancelEvent::RunRead(Some(run))) => (
            if cancellable(run) {
                CancelPhase::Marking
            } else {
                CancelPhase::Replying(CancelReply::AlreadyFinished)
            },
            seq![],
        ),
        (CancelPhase::Marking, CancelEvent::Marked(Ok(true))) => (
            CancelPhase::Replying(CancelReply::Cancelled),
            seq![CancelEffect::SignalToken, CancelEffect::RunCancelled],
        ),
        (CancelPhase::Marking, CancelEvent::Marked(Ok(false))) => (CancelPhase::Rereading, seq![]),
        (CancelPhase::Marking, CancelEvent::Marked(Err(e))) => (
            CancelPhase::Replying(CancelReply::NotCommitted(not_committed(e))),
            seq![
                CancelEffect::SignalToken,
                CancelEffect::RunError(not_committed(e)),
                CancelEffect::ActivityEnded,
            ],
        ),
        (CancelPhase::Rereading, CancelEvent::StatusRead(status)) => (
            CancelPhase::Replying(
                if status == Some(RunStatus::Cancelled) {
                    CancelReply::Cancelled
                } else {
                    CancelReply::AlreadyFinished
                },
            ),
            seq![],
        ),
        _ => (phase, seq![]),
    }
}

/// Takes a cancellation one step further.
pub fn cancel_run(phase: CancelPhase<String>, event: CancelEvent<String>) -> (r: (
    CancelPhase<String>,
    Vec<CancelEffect<String>>,
))
    ensures
        (r.0@, cancel_effects(r.1@)) == cancel_step(phase@, event@),
{
    let mut out: Vec<CancelEffect<String>> = Vec::new();
    let next: CancelPhase<String> = match (phase, event) {
        (CancelPhase::Reading, CancelEvent::RunRead(found)) => match found {
            None => CancelPhase::Replying(CancelReply::NotFound),
            Some(run) => {
                let open: bool = match run.status {
                    RunStatus::Queued => true,
                    RunStatus::Running => true,
                    _ => false,
                };
                if open && run.has_token {
                    CancelPhase::Marking
                } else {
                    CancelPhase::Replying(CancelReply::AlreadyFinished)
                }
            },
        },
        (CancelPhase::Marking, CancelEvent::Marked(marked)) => match marked {
            Ok(true) => {
                out.push(CancelEffect::SignalToken);
                out.push(CancelEffect::RunCancelled);
                CancelPhase::Replying(CancelReply::Cancelled)
            },
            Ok(false) => CancelPhase::Rereading,
            Err(error) => {
                let message: String = concat(
                    "Run cancellation could not be committed: ",
                    error.as_str(),
                );
                out.push(CancelEffect::SignalToken);
                out.push(CancelEffect::RunError(message.clone()));
                out.push(CancelEffect::ActivityEnded);
                CancelPhase::Replying(CancelReply::NotCommitted(message))
            },
        },
        (CancelPhase::Rereading, CancelEvent::StatusRead(status)) => {
            let cancelled: bool = match status {
                Some(RunStatus::Cancelled) => true,
                _ => false,
            };
            CancelPhase::Replying(
                if cancelled {
                    CancelReply::Cancelled
                } else {
                    CancelReply::AlreadyFinished
                },
            )
        },
        (other, _) => other,
    };
    (next, out)
}

/// The object that confirms a request about `key`.
pub open spec fn confirmation(key: Seq<char>, id: u128, status: Seq<char>) -> Map<
    Seq<char>,
    MetaView,
> {
    Map::empty().insert(key, text_value(uuid_text(id))).insert("status"@, text_value(status))
}

/// The error reply to a cancellation, if it is one.
pub open spec fn cancel_error(reply: CancelReply<Seq<char>>) -> Option<ErrorView> {
    match reply {
        CancelReply::Cancelled => None,
        CancelReply::NotFound => Some(plain_error(NOT_FOUND, "NOT_FOUND"@, "Run not found"@)),
        CancelReply::AlreadyFinished => Some(
            plain_error(CONFLICT, "ALREADY_FINISHED"@, "Run already finished"@),
        ),
        CancelReply::NotCommitted(m) => Some(
            plain_error(INTERNAL_SERVER_ERROR, "LIFECYCLE_PERSISTENCE_FAILED"@, m),
        ),
    }
}

/// Writes the answer to a cancellation.
pub fn cancel_response(run_id: RunId, reply: &CancelReply<String>) -> (r: Result<
    Metadata,
    ApiError,
>)
    ensures
        match cancel_error(reply@) {
            None => r matches Ok(body) && body@ == confirmation("run_id"@, run_id, "cancelled"@),
            Some(error) => r matches Err(e) && e@ == error,
        },
{
    match reply {
        CancelReply::Cancelled => {
            let mut body: Metadata = Metadata::new();
            let id: String = id_text(run_id);
            body.set_text("run_id", id.as_str());
            body.set_text("status", "cancelled");
            Ok(body)
        },
        CancelReply::NotFound => Err(api_error(NOT_FOUND, "NOT_FOUND", "Run not found")),
        CancelReply::AlreadyFinished => Err(
            api_error(CONFLICT, "ALREADY_FINISHED", "Run already finished"),
        ),
        CancelReply::NotCommitted(message) => Err(
            api_error(
                INTERNAL_SERVER_ERROR,
                "LIFECYCLE_PERSISTENCE_FAILED",
                message.as_str(),
            ),
        ),
    }
}

/// Writes the answer to a request to cancel the subagent of a session. `found`
/// says whether a live one was there and was signalled.
pub fn cancel_subagent(session_id: SessionId, found: bool) -> (r: Result<Metadata, ApiError>)
    ensures
        found ==> (r matches Ok(body) && body@ == confirmation(
            "session_id"@,
            session_id,
            "cancelling"@,
        )),
        !found ==> (r matches Err(e) && e@ == plain_error(
            NOT_FOUND,
            "NO_LIVE_SUBAGENT"@,
            "No live subagent for this session"@,
        )),
{
    if !found {
        return Err(
            api_error(NOT_FOUND, "NO_LIVE_SUBAGENT", "No live subagent for this session"),
        );
    }
    let mut body: Metadata = Metadata::new();
    let id: String = id_text(session_id);
    body.set_text("session_id", id.as_str());
    body.set_text("status", "cancelling");
    Ok(body)
}

/// A cancellation is announced exactly when this request made it: a client
/// that comes second is told that the run is cancelled and nothing is
/// published again.
pub proof fn law_cancellation_is_announced_by_its_maker(
    phase: CancelPhase<Seq<char>>,
    event: CancelEvent<Seq<char>>,
)
    ensures
        cancel_step(phase, event).1.contains(CancelEffect::RunCancelled) <==> phase is Marking
            && event == CancelEvent::<Seq<char>>::Marked(Ok(true)),
{
    let (next, effects) = cancel_step(phase, event);
}

/// A cancellation that could not be stored still stops the run, and ends its
/// activity, before the client hears of the failure.
pub proof fn law_unstored_cancellation_still_stops_the_run(error: Seq<char>)
    ensures
        ({
            let (next, effects) = cancel_step(
                CancelPhase::Marking,
                CancelEvent::Marked(Err(error)),
            );
            &&& effects.contains(CancelEffect::SignalToken)
            &&& effects.contains(CancelEffect::ActivityEnded)
            &&& next is Replying
            &&& cancel_error(next->Replying_0) is Some
        }),
{
}

} // verus!
