//! Event streams: where a client resumes, what it is replayed, and whether it
//! stays connected.

use crate::ids::{parse_id, parsed_uuid, uuid_text, id_text, AgentId, RunId};
use crate::job_card::RunStatus;
use crate::read_api::{is_terminal, run_not_found, terminal};
use crate::replies::{api_error, plain_error, ApiError, INTERNAL_SERVER_ERROR, NOT_FOUND};
use crate::text::{concat, parse_u64, parsed_u64};
use vstd::prelude::*;
use vstd::string::*;

verus! {

/// What a client says about the events it has seen.
#[derive(Debug, Clone, PartialEq, Eq)]
pub struct SessionEventsQuery {
    /// The last event. This is a text because the last event may have been one
    /// that is not logged, whose name is no number.
    pub last_event_id: Option<String>,
    /// The epoch of the gateway that sent it.
    pub stream_epoch: Option<String>,
}

/// The number that an optional text denotes.
pub open spec fn number_in(text: Option<Seq<char>>) -> Option<u64> {
    match text {
        Some(t) => parsed_u64(t),
        None => None,
    }
}

/// The event after which a client resumes: the one named in the query, or else
/// the one in the header. What is no number counts as absent.
pub open spec fn resume_after(query: Option<Seq<char>>, header: Option<Seq<char>>) -> Option<u64> {
    match number_in(query) {
        Some(n) => Some(n),
        None => number_in(header),
    }
}

/// Finds the event after which a client resumes. `header` is the value of the
/// `Last-Event-Id` header.
pub fn parse_last_event_id(header: Option<&str>, query: &SessionEventsQuery) -> (r: Option<u64>)
    ensures
        r == resume_after(
            match query.last_event_id {
                Some(t) => Some(t@),
                None => None,
            },
            match header {
                Some(t) => Some(t@),
                None => None,
            },
        ),
{
    let asked: Option<u64> = match &query.last_event_id {
        Some(t) => parse_u64(t.as_str()),
        None => None,
    };
    match asked {
        Some(n) => Some(n),
        None => match header {
            Some(t) => parse_u64(t),
            None => None,
        },
    }
}

/// One logged event.
#[derive(Debug, Clone, PartialEq, Eq)]
pub struct ReplayEvent<D> {
    /// Its type.
    pub event_type: String,
    /// What it carries.
    pub data: D,
    /// When it happened.
    pub ts: i64,
    /// Its number in the log.
    pub event_id: u64,
}

/// The part of a log that a client is replayed.
#[derive(Debug)]
pub struct ReplayWindow<D> {
    /// The events, in order.
    pub events: Vec<ReplayEvent<D>>,
    /// The oldest event that is still kept.
    pub retained_from: Option<u64>,
    /// The newest event.
    pub newest: Option<u64>,
    /// Events that the client has not seen are kept no longer.
    pub replay_gap: bool,
}

/// What a client is told about the stream before anything else.
#[derive(Debug, Clone, Copy, PartialEq, Eq, Structural)]
pub struct StreamState {
    /// The gateway's epoch.
    pub epoch: u128,
    /// The oldest event that is still kept.
    pub retained_from: Option<u64>,
    /// The newest event.
    pub newest: Option<u64>,
    /// Events that the client has not seen are kept no longer.
    pub replay_gap: bool,
    /// The client's numbers are those of another epoch.
    pub epoch_mismatch: bool,
}

/// What a client is replayed.
#[derive(Debug)]
pub enum SseEventData<D> {
    /// The state of the stream.
    StreamState(StreamState),
    /// An event of the log.
    Logged {
        /// Its type.
        event_type: String,
        /// What it carries.
        data: D,
        /// When it happened.
        ts: i64,
        /// Its number in the log.
        event_id: Option<u64>,
    },
}

/// The epoch that a client names is not the gateway's.
pub open spec fn mismatched(supplied: Option<Seq<char>>, epoch: u128) -> bool {
    match supplied {
        Some(raw) => parsed_uuid(raw) != Some(epoch),
        None => false,
    }
}

/// `replay` is what a client is replayed: the state of the stream, then every
/// event of the window under its own number.
pub open spec fn replays<D>(
    replay: Seq<SseEventData<D>>,
    epoch: u128,
    supplied: Option<Seq<char>>,
    window: ReplayWindow<D>,
) -> bool {
    &&& replay.len() == window.events@.len() + 1
    &&& replay[0] == SseEventData::<D>::StreamState(
        StreamState {
            epoch,
            retained_from: window.retained_from,
            newest: window.newest,
            replay_gap: window.replay_gap,
            epoch_mismatch: mismatched(supplied, epoch),
        },
    )
    &&& forall|i: int|
        0 <= i < window.events@.len() ==> #[trigger] replay[i + 1] == (SseEventData::Logged {
            event_type: window.events@[i].event_type,
            data: window.events@[i].data,
            ts: window.events@[i].ts,
            event_id: Some(window.events@[i].event_id),
        })
}

/// Puts together what a client is replayed. A client that names no epoch is
/// taken to belong to this one.
pub fn replay_with_stream_state<D>(
    epoch: u128,
    supplied_epoch: Option<&str>,
    window: ReplayWindow<D>,
) -> (r: Vec<SseEventData<D>>)
    ensures
        replays(
            r@,
            epoch,
            match supplied_epoch {
                Some(t) => Some(t@),
                None => None,
            },
            window,
        ),
{
    let epoch_mismatch: bool = match supplied_epoch {
        Some(raw) => match parse_id(raw) {
            Some(candidate) => candidate != epoch,
            None => true,
        },
        None => false,
    };
    let ghost events = window.events@;
    let mut replay: Vec<SseEventData<D>> = Vec::new();
    replay.push(
        SseEventData::StreamState(
            StreamState {
                epoch,
                retained_from: window.retained_from,
                newest: window.newest,
                replay_gap: window.replay_gap,
                epoch_mismatch,
            },
        ),
    );
    for event in iter: window.events
        invariant
            iter.seq() == events,
            replay@.len() == iter.index() + 1,
            replay@[0] == SseEventData::<D>::StreamState(
                StreamState {
                    epoch,
                    retained_from: window.retained_from,
                    newest: window.newest,
                    replay_gap: window.replay_gap,
                    epoch_mismatch,
                },
            ),
            forall|i: int|
                0 <= i < iter.index() ==> #[trigger] replay@[i + 1] == (SseEventData::Logged {
                    event_type: events[i].event_type,
                    data: events[i].data,
                    ts: events[i].ts,
                    event_id: Some(events[i].event_id),
                }),
    {
        replay.push(
            SseEventData::Logged {
                event_type: event.event_type,
                data: event.data,
                ts: event.ts,
                event_id: Some(event.event_id),
            },
        );
    }
    replay
}

/// What has to be done next for a client that wants the events of a run.
#[derive(Debug, Clone, Copy, PartialEq, Eq, Structural)]
pub enum RunStream {
    /// Subscribe to the run's events, then read its status again.
    Subscribe,
    /// Replay the log and close.
    ReplayOnly,
    /// Drop the subscription, replay the log and close.
    Unsubscribe,
    /// Replay the log and stay connected.
    Live,
}

/// Decides how a client is connected to a run: one that is over is replayed
/// and gets no subscription, since nothing new will come.
pub fn stream_run_events(status: Option<RunStatus>) -> (r: Result<RunStream, ApiError>)
    ensures
        match status {
            None => r matches Err(e) && e@ == run_not_found(),
            Some(s) => r == Ok::<RunStream, ApiError>(
                if terminal(s) {
                    RunStream::ReplayOnly
                } else {
                    RunStream::Subscribe
                },
            ),
        },
{
    match status {
        None => Err(api_error(NOT_FOUND, "NOT_FOUND", "Run not found")),
        Some(s) => if is_terminal(s) {
            Ok(RunStream::ReplayOnly)
        } else {
            Ok(RunStream::Subscribe)
        },
    }
}

/// Decides whether a subscription that was just made stays. The run may have
/// ended, and dropped its subscribers, before this one was there.
pub fn confirm_subscription(status: Option<RunStatus>) -> (r: RunStream)
    ensures
        r == match status {
            Some(s) => if terminal(s) {
                RunStream::Unsubscribe
            } else {
                RunStream::Live
            },
            None => RunStream::Unsubscribe,
        },
{
    match status {
        Some(s) => if is_terminal(s) {
            RunStream::Unsubscribe
        } else {
            RunStream::Live
        },
        None => RunStream::Unsubscribe,
    }
}

/// What a subagent of a session is doing.
#[derive(Debug, Clone, PartialEq, Eq)]
pub struct ActivitySnapshot<L> {
    /// The run that started it, once that is registered.
    pub parent_run_id: Option<RunId>,
    /// The rest of the signal, which is passed on as it is.
    pub signal: L,
}

/// What a new subscriber is told about the subagents at work: what each of
/// them is doing, in order, under the run that started it or the nil id.
pub open spec fn activity_signals<L>(snapshots: Seq<ActivitySnapshot<L>>) -> Seq<(RunId, L)> {
    Seq::new(
        snapshots.len(),
        |i: int|
            (
                match snapshots[i].parent_run_id {
                    Some(run) => run,
                    None => 0,
                },
                snapshots[i].signal,
            ),
    )
}

/// Lists what a new subscriber is told about the subagents at work.
pub fn attach_session_stream<L>(snapshots: Vec<ActivitySnapshot<L>>) -> (r: Vec<(RunId, L)>)
    ensures
        r@ == activity_signals(snapshots@),
{
    let ghost all = snapshots@;
    let mut signals: Vec<(RunId, L)> = Vec::new();
    for snapshot in iter: snapshots
        invariant
            iter.seq() == all,
            signals@ == activity_signals(all.subrange(0, iter.index() as int)),
    {
        let run_id: RunId = match snapshot.parent_run_id {
            Some(run) => run,
            None => 0,
        };
        signals.push((run_id, snapshot.signal));
    }
    signals
}

/// Decides whether a client is connected to a session.
pub fn stream_session_events(found: bool) -> (r: Result<(), ApiError>)
    ensures
        found ==> r is Ok,
        !found ==> (r matches Err(e) && e@ == plain_error(
            NOT_FOUND,
            "NOT_FOUND"@,
            "Session not found"@,
        )),
{
    if found {
        Ok(())
    } else {
        Err(api_error(NOT_FOUND, "NOT_FOUND", "Session not found"))
    }
}

/// Decides whether a client is connected to an agent's feed. `lookup` is what
/// the registry said; a gateway without one knows no unknown agents.
pub fn stream_agent_events(agent_id: AgentId, lookup: Option<Result<bool, String>>) -> (r: Result<
    (),
    ApiError,
>)
    ensures
        match lookup {
            None => r is Ok,
            Some(Ok(true)) => r is Ok,
            Some(Ok(false)) => r matches Err(e) && e@ == plain_error(
                NOT_FOUND,
                "NOT_FOUND"@,
                "Agent not found: "@ + uuid_text(agent_id),
            ),
            Some(Err(error)) => r matches Err(e) && e@ == plain_error(
                INTERNAL_SERVER_ERROR,
                "INTERNAL"@,
                error@,
            ),
        },
{
    match lookup {
        None => Ok(()),
        Some(Ok(known)) => if known {
            Ok(())
        } else {
            let id: String = id_text(agent_id);
            let text: String = concat("Agent not found: ", id.as_str());
            Err(api_error(NOT_FOUND, "NOT_FOUND", text.as_str()))
        },
        Some(Err(error)) => Err(api_error(INTERNAL_SERVER_ERROR, "INTERNAL", error.as_str())),
    }
}

/// A client that says nothing readable about the events it has seen is
/// replayed everything, and whatever its query says in readable form counts.
pub proof fn law_query_goes_before_header(query: Option<Seq<char>>, header: Option<Seq<char>>)
    ensures
        number_in(query) is Some ==> resume_after(query, header) == number_in(query),
        number_in(query) is None ==> resume_after(query, header) == number_in(header),
        number_in(query) is None && number_in(header) is None ==> resume_after(query, header)
            is None,
{
}

/// A client that hands the gateway's own epoch back is never told that it
/// belongs to another one.
pub proof fn law_own_epoch_matches(epoch: u128)
    ensures
        !mismatched(Some(uuid_text(epoch)), epoch),
        !mismatched(None, epoch),
{
    crate::ids::law_id_text_reads_back(epoch);
}

} // verus!
