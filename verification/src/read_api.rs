//! What clients read about runs: listings, status, tool calls, and the text of
//! the turn that is under way.

use crate::clock::{valid_optional, Nanos};
use crate::completion::TokenUsage;
use crate::context::{classify_session_type, session_type, text_of};
use crate::ids::{AgentId, JobId, RunId, SessionId};
use crate::job_card::RunStatus;
use crate::queue::{position_of, queue_position, QueuedRun};
use crate::replies::{
    api_error, plain_error, ApiError, BAD_REQUEST, INTERNAL_SERVER_ERROR, NOT_FOUND,
};
use crate::text::{capped, concat, same_text, truncate_chars};
use vstd::prelude::*;
use vstd::string::*;

verus! {

/// How many runs a listing holds unless the client asks for another number.
pub const DEFAULT_LIST_LIMIT: usize = 50;

/// How many characters of its output a listed run shows.
pub const RESPONSE_TRUNCATE_LEN: usize = 200;

/// Nanoseconds in a millisecond.
pub const NANOS_PER_MILLI: i128 = 1_000_000;

/// What a client asks to be listed.
#[derive(Debug, Clone, Copy, PartialEq, Eq, Structural)]
pub struct ListRunsQuery {
    /// The runs of this session.
    pub session_id: Option<SessionId>,
    /// The runs of this agent.
    pub agent_id: Option<AgentId>,
    /// No more than this many.
    pub limit: Option<usize>,
}

/// What is to be listed.
#[derive(Debug, Clone, Copy, PartialEq, Eq, Structural)]
pub enum Listing {
    /// Runs of one agent, with the details of [`AgentRunEntry`].
    ByAgent {
        /// The agent.
        agent_id: AgentId,
        /// No more than this many.
        limit: usize,
    },
    /// Runs of one session.
    BySession {
        /// The session.
        session_id: SessionId,
        /// No more than this many.
        limit: usize,
    },
}

/// How many runs a query asks for.
pub open spec fn list_limit(query: ListRunsQuery) -> usize {
    match query.limit {
        Some(n) => n,
        None => DEFAULT_LIST_LIMIT,
    }
}

/// Decides what a query lists: exactly one of its two filters is needed.
pub fn list_runs(query: &ListRunsQuery) -> (r: Result<Listing, ApiError>)
    ensures
        match (query.agent_id, query.session_id) {
            (Some(_), Some(_)) => r matches Err(e) && e@ == plain_error(
                BAD_REQUEST,
                "AMBIGUOUS_FILTER"@,
                "Provide either `session_id` or `agent_id`, not both"@,
            ),
            (Some(agent_id), None) => r == Ok::<Listing, ApiError>(
                Listing::ByAgent { agent_id, limit: list_limit(*query) },
            ),
            (None, Some(session_id)) => r == Ok::<Listing, ApiError>(
                Listing::BySession { session_id, limit: list_limit(*query) },
            ),
            (None, None) => r matches Err(e) && e@ == plain_error(
                BAD_REQUEST,
                "MISSING_FILTER"@,
                "At least one of `session_id` or `agent_id` must be provided"@,
            ),
        },
{
    let limit: usize = match query.limit {
        Some(n) => n,
        None => DEFAULT_LIST_LIMIT,
    };
    match (query.agent_id, query.session_id) {
        (Some(_), Some(_)) => Err(
            api_error(
                BAD_REQUEST,
                "AMBIGUOUS_FILTER",
                "Provide either `session_id` or `agent_id`, not both",
            ),
        ),
        (Some(agent_id), None) => Ok(Listing::ByAgent { agent_id, limit }),
        (None, Some(session_id)) => Ok(Listing::BySession { session_id, limit }),
        (None, None) => Err(
            api_error(
                BAD_REQUEST,
                "MISSING_FILTER",
                "At least one of `session_id` or `agent_id` must be provided",
            ),
        ),
    }
}

/// The record of a run.
#[derive(Debug)]
pub struct Run {
    /// The run.
    pub run_id: RunId,
    /// The session it ran on.
    pub session_id: SessionId,
    /// The agent that ran.
    pub agent_id: AgentId,
    /// Its state.
    pub status: RunStatus,
    /// Its output.
    pub output: Option<String>,
    /// Its error.
    pub error: Option<String>,
    /// When it was asked for.
    pub created_at: Nanos,
    /// When it started.
    pub started_at: Option<Nanos>,
    /// When it ended.
    pub ended_at: Option<Nanos>,
    /// The tokens it used.
    pub usage: Option<TokenUsage>,
    /// The job whose episode it belongs to.
    pub job_id: Option<JobId>,
    /// The run that started it.
    pub parent_run_id: Option<RunId>,
}

/// One run in the listing of an agent.
#[derive(Debug)]
pub struct AgentRunEntry {
    /// The run.
    pub run_id: RunId,
    /// The session it ran on.
    pub session_id: SessionId,
    /// The agent that ran.
    pub agent_id: AgentId,
    /// Its state.
    pub status: RunStatus,
    /// The beginning of its output.
    pub response: Option<String>,
    /// Its error.
    pub error: Option<String>,
    /// When it started.
    pub started_at: Option<Nanos>,
    /// When it ended.
    pub ended_at: Option<Nanos>,
    /// The tokens it used.
    pub usage: Option<TokenUsage>,
    /// The last thing that is known to have happened to it.
    pub ts: Nanos,
    /// The job whose episode it belongs to.
    pub job_id: Option<JobId>,
    /// The run that started it.
    pub parent_run_id: Option<RunId>,
    /// How many tools it called, when that is known.
    pub tool_call_count: Option<u32>,
    /// The type of its session.
    pub session_type: String,
    /// What triggered it.
    pub trigger: String,
    /// The context id of its session.
    pub context_id: String,
    /// How long it took, in milliseconds, once it has ended.
    pub duration_ms: Option<i64>,
}

/// The whole milliseconds from one instant to another; none when the clock was
/// set back in between.
pub open spec fn elapsed_ms(start: Nanos, end: Nanos) -> int {
    if end <= start {
        0
    } else {
        (end - start) / (NANOS_PER_MILLI as int)
    }
}

/// How long a run took, once it has started and ended.
pub open spec fn duration_of(started_at: Option<Nanos>, ended_at: Option<Nanos>) -> Option<int> {
    match (started_at, ended_at) {
        (Some(start), Some(end)) => Some(elapsed_ms(start, end)),
        _ => None,
    }
}

/// Computes how long a run took, in milliseconds.
pub fn run_duration_ms(started_at: Option<Nanos>, ended_at: Option<Nanos>) -> (r: Option<i64>)
    requires
        valid_optional(started_at),
        valid_optional(ended_at),
    ensures
        match r {
            Some(ms) => duration_of(started_at, ended_at) == Some(ms as int),
            None => duration_of(started_at, ended_at) is None,
        },
{
    match (started_at, ended_at) {
        (Some(start), Some(end)) => if end <= start {
            Some(0)
        } else {
            Some(((end - start) / NANOS_PER_MILLI) as i64)
        },
        _ => None,
    }
}

/// What triggered a run: its job, the run that started it, or else what the
/// type of its session says.
pub open spec fn trigger_of(
    job: Option<JobId>,
    parent: Option<RunId>,
    context_id: Seq<char>,
) -> Seq<char> {
    if job is Some {
        "scheduled"@
    } else if parent is Some {
        "subagent"@
    } else if session_type(context_id) == "dm"@ {
        "dm"@
    } else if session_type(context_id) == "notification"@ {
        "notification"@
    } else if session_type(context_id) == "telegram"@ {
        "telegram"@
    } else {
        "user"@
    }
}

/// Names what triggered a run.
pub fn derive_trigger(run: &Run, context_id: &str) -> (r: String)
    ensures
        r@ == trigger_of(run.job_id, run.parent_run_id, context_id@),
{
    if run.job_id.is_some() {
        return "scheduled".to_owned();
    }
    if run.parent_run_id.is_some() {
        return "subagent".to_owned();
    }
    let kind: &str = classify_session_type(context_id);
    if same_text(kind, "dm") {
        "dm".to_owned()
    } else if same_text(kind, "notification") {
        "notification".to_owned()
    } else if same_text(kind, "telegram") {
        "telegram".to_owned()
    } else {
        "user".to_owned()
    }
}

/// `entry` lists a run whose session has this context id, if it is still
/// there.
pub open spec fn lists(
    entry: AgentRunEntry,
    run: Run,
    context_id: Option<Seq<char>>,
    tool_call_count: Option<u32>,
) -> bool {
    let context = match context_id {
        Some(c) => c,
        None => "unknown"@,
    };
    &&& entry.run_id == run.run_id
    &&& entry.session_id == run.session_id
    &&& entry.agent_id == run.agent_id
    &&& entry.status == run.status
    &&& text_of(entry.response) == match run.output {
        Some(t) => Some(capped(t@, RESPONSE_TRUNCATE_LEN as nat)),
        None => None,
    }
    &&& text_of(entry.error) == text_of(run.error)
    &&& entry.started_at == run.started_at
    &&& entry.ended_at == run.ended_at
    &&& entry.usage == run.usage
    &&& entry.ts == match (run.ended_at, run.started_at) {
        (Some(end), _) => end,
        (None, Some(start)) => start,
        (None, None) => run.created_at,
    }
    &&& entry.job_id == run.job_id
    &&& entry.parent_run_id == run.parent_run_id
    &&& entry.tool_call_count == tool_call_count
    &&& entry.session_type@ == match context_id {
        Some(c) => session_type(c),
        None => "chat"@,
    }
    &&& entry.trigger@ == trigger_of(run.job_id, run.parent_run_id, context)
    &&& entry.context_id@ == context
    &&& match entry.duration_ms {
        Some(ms) => duration_of(run.started_at, run.ended_at) == Some(ms as int),
        None => duration_of(run.started_at, run.ended_at) is None,
    }
}

/// Lists a run with the details that its session adds.
pub fn enrich_run(run: Run, context_id: Option<String>, tool_call_count: Option<u32>) -> (r:
    AgentRunEntry)
    requires
        valid_optional(run.started_at),
        valid_optional(run.ended_at),
    ensures
        lists(r, run, text_of(context_id), tool_call_count),
{
    let (context, kind): (String, String) = match context_id {
        Some(c) => {
            let kind: String = classify_session_type(c.as_str()).to_owned();
            (c, kind)
        },
        None => ("unknown".to_owned(), "chat".to_owned()),
    };
    let trigger: String = derive_trigger(&run, context.as_str());
    let duration_ms: Option<i64> = run_duration_ms(run.started_at, run.ended_at);
    let ts: Nanos = match run.ended_at {
        Some(end) => end,
        None => match run.started_at {
            Some(start) => start,
            None => run.created_at,
        },
    };
    let response: Option<String> = match &run.output {
        Some(text) => Some(truncate_chars(text.as_str(), RESPONSE_TRUNCATE_LEN).0),
        None => None,
    };
    AgentRunEntry {
        run_id: run.run_id,
        session_id: run.session_id,
        agent_id: run.agent_id,
        status: run.status,
        response,
        error: run.error,
        started_at: run.started_at,
        ended_at: run.ended_at,
        usage: run.usage,
        ts,
        job_id: run.job_id,
        parent_run_id: run.parent_run_id,
        tool_call_count,
        session_type: kind,
        trigger,
        context_id: context,
        duration_ms,
    }
}

/// A run as it was found for a listing: its record, the context id of its
/// session if that is still there, and how many tools it called if that is
/// known.
pub type FoundRun = (Run, Option<String>, Option<u32>);

/// `entries` list these runs, in their order.
pub open spec fn lists_all(entries: Seq<AgentRunEntry>, runs: Seq<FoundRun>) -> bool {
    entries.len() == runs.len() && forall|i: int|
        0 <= i < runs.len() ==> lists(
            #[trigger] entries[i],
            runs[i].0,
            text_of(runs[i].1),
            runs[i].2,
        )
}

/// The run's times are within the calendar's range.
pub open spec fn dated(run: Run) -> bool {
    valid_optional(run.started_at) && valid_optional(run.ended_at)
}

/// Lists runs with the details that their sessions add, in their order.
pub fn list_entries(runs: Vec<FoundRun>) -> (r: Vec<AgentRunEntry>)
    requires
        forall|i: int| 0 <= i < runs@.len() ==> dated((#[trigger] runs@[i]).0),
    ensures
        lists_all(r@, runs@),
{
    let ghost all = runs@;
    let mut entries: Vec<AgentRunEntry> = Vec::new();
    for found in iter: runs
        invariant
            iter.seq() == all,
            forall|i: int| 0 <= i < all.len() ==> dated((#[trigger] all[i]).0),
            entries@.len() == iter.index(),
            forall|i: int|
                0 <= i < entries@.len() ==> lists(
                    #[trigger] entries@[i],
                    all[i].0,
                    text_of(all[i].1),
                    all[i].2,
                ),
    {
        assert(dated(all[iter.index() as int].0));
        let (run, context_id, tool_call_count): FoundRun = found;
        entries.push(enrich_run(run, context_id, tool_call_count));
    }
    entries
}

/// The body of a listing.
#[derive(Debug)]
pub enum RunList {
    /// Runs with the details of [`AgentRunEntry`].
    Enriched(Vec<AgentRunEntry>),
    /// Runs as they are recorded.
    Plain(Vec<Run>),
}

/// The records of runs that were found.
pub open spec fn records(runs: Seq<FoundRun>) -> Seq<Run> {
    Seq::new(runs.len(), |i: int| runs[i].0)
}

/// Decides what a listing shows of the runs that were found for it: all of
/// them, in their order, with details exactly when an agent's runs are listed.
pub fn list_reply(listing: Listing, runs: Vec<FoundRun>) -> (r: RunList)
    requires
        listing is ByAgent ==> forall|i: int|
            0 <= i < runs@.len() ==> dated((#[trigger] runs@[i]).0),
    ensures
        match listing {
            Listing::ByAgent { .. } => r matches RunList::Enriched(entries) && lists_all(
                entries@,
                runs@,
            ),
            Listing::BySession { .. } => r matches RunList::Plain(plain) && plain@ == records(
                runs@,
            ),
        },
{
    match listing {
        Listing::ByAgent { .. } => RunList::Enriched(list_entries(runs)),
        Listing::BySession { .. } => {
            let ghost all = runs@;
            let mut plain: Vec<Run> = Vec::new();
            for found in iter: runs
                invariant
                    iter.seq() == all,
                    plain@.len() == iter.index(),
                    forall|i: int| 0 <= i < plain@.len() ==> plain@[i] == all[i].0,
            {
                plain.push(found.0);
            }
            assert(plain@ =~= records(all));
            RunList::Plain(plain)
        },
    }
}

/// The reply to a request about a run that is not there.
pub open spec fn run_not_found() -> crate::replies::ErrorView {
    plain_error(NOT_FOUND, "NOT_FOUND"@, "Run not found"@)
}

fn no_run() -> (r: ApiError)
    ensures
        r@ == run_not_found(),
{
    api_error(NOT_FOUND, "NOT_FOUND", "Run not found")
}

/// Decides what the request for a run's tool calls returns. `loaded` is what
/// the store returned; without a store there are none.
pub fn get_run_tool_calls<T>(found: bool, loaded: Option<Result<Vec<T>, String>>) -> (r: Result<
    Vec<T>,
    ApiError,
>)
    ensures
        !found ==> (r matches Err(e) && e@ == run_not_found()),
        found ==> match loaded {
            None => r matches Ok(records) && records@ == Seq::<T>::empty(),
            Some(Ok(records)) => r == Ok::<Vec<T>, ApiError>(records),
            Some(Err(error)) => r matches Err(e) && e@ == plain_error(
                INTERNAL_SERVER_ERROR,
                "INTERNAL_ERROR"@,
                "Failed to load tool calls: "@ + error@,
            ),
        },
{
    if !found {
        return Err(no_run());
    }
    match loaded {
        None => Ok(Vec::new()),
        Some(Ok(records)) => Ok(records),
        Some(Err(error)) => {
            let text: String = concat("Failed to load tool calls: ", error.as_str());
            Err(api_error(INTERNAL_SERVER_ERROR, "INTERNAL_ERROR", text.as_str()))
        },
    }
}

/// The entry of an event that names the subagent it comes from.
#[derive(Debug, Clone, Copy, PartialEq, Eq, Structural)]
pub enum SourceAgent {
    /// There is no such entry.
    Absent,
    /// The entry is null.
    Null,
    /// The entry holds anything else.
    Given,
}

/// One event of a session's log, as far as it is read here.
#[derive(Debug)]
pub struct LoggedEvent {
    /// Its number in the log.
    pub event_id: u64,
    /// The run it belongs to.
    pub run_id: RunId,
    /// Its type.
    pub event_type: String,
    /// Its entry on the subagent it comes from.
    pub source_agent: SourceAgent,
    /// The text it carries.
    pub text: Option<String>,
}

/// The event comes from a subagent: the entry that says so is there and is not
/// null.
pub open spec fn from_subagent(event: LoggedEvent) -> bool {
    event.source_agent == SourceAgent::Given
}

fn is_from_subagent(event: &LoggedEvent) -> (r: bool)
    ensures
        r == from_subagent(*event),
{
    match event.source_agent {
        SourceAgent::Absent => false,
        SourceAgent::Null => false,
        SourceAgent::Given => true,
    }
}

/// The event says that the run is over.
pub open spec fn seals(event: LoggedEvent, run: RunId) -> bool {
    event.run_id == run && (event.event_type@ == "run_finished"@ || event.event_type@
        == "run_cancelled"@ || event.event_type@ == "run_error"@)
}

/// The event ends a turn of the run's own agent, or starts it anew.
pub open spec fn bounds_turn(event: LoggedEvent, run: RunId) -> bool {
    event.run_id == run && !from_subagent(event) && (event.event_type@ == "stream_reset"@
        || event.event_type@ == "tool_start"@ || event.event_type@ == "tool_end"@)
}

/// The event carries reasoning of the run's own agent.
pub open spec fn reasons(event: LoggedEvent, run: RunId) -> bool {
    event.run_id == run && !from_subagent(event) && event.event_type@ == "reasoning_delta"@
}

/// The larger of a number and an optional one.
pub open spec fn later(a: Option<u64>, b: u64) -> u64 {
    match a {
        Some(x) => if x >= b {
            x
        } else {
            b
        },
        None => b,
    }
}

/// The smaller of a number and an optional one.
pub open spec fn earlier(a: Option<u64>, b: u64) -> u64 {
    match a {
        Some(x) => if x <= b {
            x
        } else {
            b
        },
        None => b,
    }
}

/// The number of the latest event that bounds a turn of the run.
pub open spec fn turn_boundary(events: Seq<LoggedEvent>, run: RunId) -> Option<u64>
    decreases events.len(),
{
    if events.len() == 0 {
        None
    } else {
        let before = turn_boundary(events.drop_last(), run);
        if bounds_turn(events.last(), run) {
            Some(later(before, events.last().event_id))
        } else {
            before
        }
    }
}

/// The number of the first event that says that the run is over.
pub open spec fn seal_id(events: Seq<LoggedEvent>, run: RunId) -> Option<u64>
    decreases events.len(),
{
    if events.len() == 0 {
        None
    } else {
        let before = seal_id(events.drop_last(), run);
        if seals(events.last(), run) {
            Some(earlier(before, events.last().event_id))
        } else {
            before
        }
    }
}

/// The event carries reasoning of the turn that follows the boundary.
pub open spec fn current(event: LoggedEvent, run: RunId, boundary: Option<u64>) -> bool {
    reasons(event, run) && match boundary {
        Some(b) => event.event_id > b,
        None => true,
    }
}

/// Pieces of text, each under the number of its event, with one more: behind
/// those that are numbered no higher, and before the others.
pub open spec fn placed(pieces: Seq<(u64, Seq<char>)>, piece: (u64, Seq<char>)) -> Seq<
    (u64, Seq<char>),
>
    decreases pieces.len(),
{
    if pieces.len() == 0 || pieces.last().0 <= piece.0 {
        pieces.push(piece)
    } else {
        placed(pieces.drop_last(), piece).push(pieces.last())
    }
}

/// The pieces of the reasoning of the turn that follows the boundary, in the
/// order of their numbers.
pub open spec fn reasoning_pieces(
    events: Seq<LoggedEvent>,
    run: RunId,
    boundary: Option<u64>,
) -> Seq<(u64, Seq<char>)>
    decreases events.len(),
{
    if events.len() == 0 {
        seq![]
    } else {
        let before = reasoning_pieces(events.drop_last(), run, boundary);
        if current(events.last(), run, boundary) {
            match events.last().text {
                Some(t) => placed(before, (events.last().event_id, t@)),
                None => before,
            }
        } else {
            before
        }
    }
}

/// All pieces of text, one behind the other.
pub open spec fn run_together(pieces: Seq<(u64, Seq<char>)>) -> Seq<char>
    decreases pieces.len(),
{
    if pieces.len() == 0 {
        seq![]
    } else {
        run_together(pieces.drop_last()) + pieces.last().1
    }
}

/// The reasoning of the turn that follows the boundary.
pub open spec fn reasoning_text(
    events: Seq<LoggedEvent>,
    run: RunId,
    boundary: Option<u64>,
) -> Seq<char> {
    run_together(reasoning_pieces(events, run, boundary))
}

/// The largest number of an event that the reasoning comes from.
pub open spec fn reasoning_cursor(
    events: Seq<LoggedEvent>,
    run: RunId,
    boundary: Option<u64>,
) -> Option<u64>
    decreases events.len(),
{
    if events.len() == 0 {
        None
    } else {
        let before = reasoning_cursor(events.drop_last(), run, boundary);
        if current(events.last(), run, boundary) {
            Some(later(before, events.last().event_id))
        } else {
            before
        }
    }
}

/// A run in this state is over.
pub open spec fn terminal(status: RunStatus) -> bool {
    status is Completed || status is Failed || status is Cancelled
}

/// Tells whether a run in this state is over.
pub fn is_terminal(status: RunStatus) -> (r: bool)
    ensures
        r == terminal(status),
{
    match status {
        RunStatus::Queued => false,
        RunStatus::Running => false,
        RunStatus::Completed => true,
        RunStatus::Failed => true,
        RunStatus::Cancelled => true,
    }
}

/// The reasoning of a run's turn that is under way.
#[derive(Debug, PartialEq, Eq)]
pub struct Reasoning<S> {
    /// The text.
    pub text: S,
    /// From where on the client reads the event log.
    pub last_event_id: Option<u64>,
    /// The run is over.
    pub terminal: bool,
    /// The event that says so.
    pub seal_event_id: Option<u64>,
}

impl Reasoning<String> {
    /// The mathematical reading.
    pub open spec fn view(&self) -> Reasoning<Seq<char>> {
        Reasoning {
            text: self.text@,
            last_event_id: self.last_event_id,
            terminal: self.terminal,
            seal_event_id: self.seal_event_id,
        }
    }
}

/// What a client reads of a run's reasoning. The reasoning of a run that is
/// over stands in the session's history and is not returned again; the client
/// gets the event that sealed it instead.
pub open spec fn reasoning_of(events: Seq<LoggedEvent>, run: RunId, over: bool) -> Reasoning<
    Seq<char>,
> {
    let boundary = turn_boundary(events, run);
    if over {
        Reasoning {
            text: seq![],
            last_event_id: None,
            terminal: true,
            seal_event_id: seal_id(events, run),
        }
    } else {
        Reasoning {
            text: reasoning_text(events, run, boundary),
            last_event_id: reasoning_cursor(events, run, boundary),
            terminal: false,
            seal_event_id: None,
        }
    }
}

fn is_seal(event: &LoggedEvent, run_id: RunId) -> (r: bool)
    ensures
        r == seals(*event, run_id),
{
    let kind: &str = event.event_type.as_str();
    event.run_id == run_id && (same_text(kind, "run_finished") || same_text(kind, "run_cancelled")
        || same_text(kind, "run_error"))
}

fn is_boundary(event: &LoggedEvent, run_id: RunId) -> (r: bool)
    ensures
        r == bounds_turn(*event, run_id),
{
    let kind: &str = event.event_type.as_str();
    event.run_id == run_id && !is_from_subagent(event) && (same_text(kind, "stream_reset")
        || same_text(kind, "tool_start") || same_text(kind, "tool_end"))
}

fn is_reasoning(event: &LoggedEvent, run_id: RunId) -> (r: bool)
    ensures
        r == reasons(*event, run_id),
{
    event.run_id == run_id && !is_from_subagent(event) && same_text(
        event.event_type.as_str(),
        "reasoning_delta",
    )
}

fn find_anchors(events: &Vec<LoggedEvent>, run_id: RunId) -> (r: (Option<u64>, Option<u64>))
    ensures
        r.0 == turn_boundary(events@, run_id),
        r.1 == seal_id(events@, run_id),
{
    let mut boundary: Option<u64> = None;
    let mut seal: Option<u64> = None;
    let mut i: usize = 0;
    while i < events.len()
        invariant
            i <= events@.len(),
            boundary == turn_boundary(events@.subrange(0, i as int), run_id),
            seal == seal_id(events@.subrange(0, i as int), run_id),
        decreases events@.len() - i,
    {
        let event: &LoggedEvent = &events[i];
        proof {
            let seen = events@.subrange(0, i + 1);
            assert(seen.drop_last() =~= events@.subrange(0, i as int));
        }
        if is_seal(event, run_id) {
            seal = Some(
                match seal {
                    Some(s) => if s <= event.event_id {
                        s
                    } else {
                        event.event_id
                    },
                    None => event.event_id,
                },
            );
        }
        if is_boundary(event, run_id) {
            boundary = Some(
                match boundary {
                    Some(b) => if b >= event.event_id {
                        b
                    } else {
                        event.event_id
                    },
                    None => event.event_id,
                },
            );
        }
        i = i + 1;
    }
    assert(events@.subrange(0, i as int) =~= events@);
    (boundary, seal)
}

/// The readings of numbered pieces of text.
pub open spec fn pieces_view(pieces: Seq<(u64, String)>) -> Seq<(u64, Seq<char>)> {
    Seq::new(pieces.len(), |i: int| (pieces[i].0, pieces[i].1@))
}

/// Where a piece belongs is where all before it are numbered no higher and all
/// from there on are numbered higher.
proof fn lemma_placed(pieces: Seq<(u64, Seq<char>)>, piece: (u64, Seq<char>), at: int)
    requires
        0 <= at <= pieces.len(),
        at > 0 ==> pieces[at - 1].0 <= piece.0,
        forall|k: int| at <= k < pieces.len() ==> (#[trigger] pieces[k]).0 > piece.0,
    ensures
        placed(pieces, piece) == pieces.insert(at, piece),
    decreases pieces.len(),
{
    if at < pieces.len() {
        lemma_placed(pieces.drop_last(), piece, at);
        assert(pieces.drop_last().insert(at, piece).push(pieces.last()) =~= pieces.insert(
            at,
            piece,
        ));
    } else {
        assert(pieces.push(piece) =~= pieces.insert(at, piece));
    }
}

fn place(pieces: &mut Vec<(u64, String)>, event_id: u64, text: String)
    ensures
        pieces_view(final(pieces)@) == placed(pieces_view(old(pieces)@), (event_id, text@)),
{
    let mut at: usize = pieces.len();
    while at > 0 && pieces[at - 1].0 > event_id
        invariant
            at <= pieces@.len(),
            forall|k: int| at <= k < pieces@.len() ==> (#[trigger] pieces@[k]).0 > event_id,
        decreases at,
    {
        at = at - 1;
    }
    proof {
        lemma_placed(pieces_view(pieces@), (event_id, text@), at as int);
    }
    pieces.insert(at, (event_id, text));
    assert(pieces_view(pieces@) =~= pieces_view(old(pieces)@).insert(at as int, (event_id, text@)));
}

fn join_pieces(pieces: &Vec<(u64, String)>) -> (r: String)
    ensures
        r@ == run_together(pieces_view(pieces@)),
{
    let ghost all = pieces_view(pieces@);
    let mut text: String = String::new();
    let mut i: usize = 0;
    while i < pieces.len()
        invariant
            i <= pieces@.len(),
            all == pieces_view(pieces@),
            text@ == run_together(all.subrange(0, i as int)),
        decreases pieces@.len() - i,
    {
        assert(all.subrange(0, i + 1).drop_last() =~= all.subrange(0, i as int));
        text = concat(text.as_str(), pieces[i].1.as_str());
        i = i + 1;
    }
    assert(all.subrange(0, i as int) =~= all);
    text
}

fn collect_reasoning(events: &Vec<LoggedEvent>, run_id: RunId, boundary: Option<u64>) -> (r: (
    String,
    Option<u64>,
))
    ensures
        r.0@ == reasoning_text(events@, run_id, boundary),
        r.1 == reasoning_cursor(events@, run_id, boundary),
{
    let mut pieces: Vec<(u64, String)> = Vec::new();
    let mut cursor: Option<u64> = None;
    let mut i: usize = 0;
    assert(pieces_view(pieces@) =~= reasoning_pieces(events@.subrange(0, 0), run_id, boundary));
    while i < events.len()
        invariant
            i <= events@.len(),
            pieces_view(pieces@) == reasoning_pieces(
                events@.subrange(0, i as int),
                run_id,
                boundary,
            ),
            cursor == reasoning_cursor(events@.subrange(0, i as int), run_id, boundary),
        decreases events@.len() - i,
    {
        let event: &LoggedEvent = &events[i];
        proof {
            let seen = events@.subrange(0, i + 1);
            assert(seen.drop_last() =~= events@.subrange(0, i as int));
        }
        let ahead: bool = match boundary {
            Some(b) => event.event_id > b,
            None => true,
        };
        if ahead && is_reasoning(event, run_id) {
            if let Some(t) = &event.text {
                place(&mut pieces, event.event_id, t.clone());
            }
            cursor = Some(
                match cursor {
                    Some(c) => if c >= event.event_id {
                        c
                    } else {
                        event.event_id
                    },
                    None => event.event_id,
                },
            );
        }
        i = i + 1;
    }
    assert(events@.subrange(0, i as int) =~= events@);
    (join_pieces(&pieces), cursor)
}

/// Decides what a client reads of a run's reasoning. `snapshot` is the run's
/// state before the log was read, `fresh` its state after that; a run that
/// ended in between counts as over.
pub fn get_run_reasoning(
    run_id: RunId,
    snapshot: Option<RunStatus>,
    events: &Vec<LoggedEvent>,
    fresh: Option<RunStatus>,
) -> (r: Result<Reasoning<String>, ApiError>)
    ensures
        match snapshot {
            None => r matches Err(e) && e@ == run_not_found(),
            Some(before) => r matches Ok(reasoning) && reasoning@ == reasoning_of(
                events@,
                run_id,
                terminal(
                    match fresh {
                        Some(now) => now,
                        None => before,
                    },
                ),
            ),
        },
{
    let before: RunStatus = match snapshot {
        Some(status) => status,
        None => return Err(no_run()),
    };
    let (boundary, seal): (Option<u64>, Option<u64>) = find_anchors(events, run_id);
    let over: bool = is_terminal(
        match fresh {
            Some(now) => now,
            None => before,
        },
    );
    if over {
        return Ok(
            Reasoning {
                text: String::new(),
                last_event_id: None,
                terminal: true,
                seal_event_id: seal,
            },
        );
    }
    let (text, cursor): (String, Option<u64>) = collect_reasoning(events, run_id, boundary);
    Ok(Reasoning { text, last_event_id: cursor, terminal: false, seal_event_id: None })
}

/// The visible text of a run's turn that is under way.
#[derive(Debug)]
pub struct TextBuffer {
    /// The text.
    pub text: String,
    /// From where on the client reads the event log.
    pub last_session_event_id: Option<u64>,
}

/// Decides what a client reads of the visible text of a run's turn: nothing
/// when no text has been produced since the turn began.
pub fn get_run_text(found: bool, buffer: Option<TextBuffer>) -> (r: Result<TextBuffer, ApiError>)
    ensures
        !found ==> (r matches Err(e) && e@ == run_not_found()),
        found ==> match buffer {
            Some(b) => r == Ok::<TextBuffer, ApiError>(b),
            None => r matches Ok(b) && b.text@.len() == 0 && b.last_session_event_id is None,
        },
{
    if !found {
        return Err(no_run());
    }
    match buffer {
        Some(b) => Ok(b),
        None => Ok(TextBuffer { text: String::new(), last_session_event_id: None }),
    }
}

/// What a status request adds to the record of a run.
#[derive(Debug, Clone, Copy, PartialEq, Eq, Structural)]
pub struct StatusDetails {
    /// How many tools it called, when that is known.
    pub tool_call_count: Option<u32>,
    /// How many runs are ahead of it, while it waits.
    pub queue_position: Option<usize>,
}

/// Decides what a status request adds to the record of a run. `queued` are the
/// waiting runs of its agent, in first-in, first-out order.
pub fn get_run_status(
    run: Option<&Run>,
    tool_call_count: Option<u32>,
    queued: &Vec<QueuedRun>,
    agent_running: bool,
) -> (r: Result<StatusDetails, ApiError>)
    ensures
        match run {
            None => r matches Err(e) && e@ == run_not_found(),
            Some(found) => r == Ok::<StatusDetails, ApiError>(
                StatusDetails {
                    tool_call_count,
                    queue_position: if found.status is Queued {
                        position_of(queued@, agent_running, found.run_id)
                    } else {
                        None
                    },
                },
            ),
        },
{
    match run {
        None => Err(no_run()),
        Some(found) => {
            let waiting: bool = match found.status {
                RunStatus::Queued => true,
                _ => false,
            };
            let position: Option<usize> = if waiting {
                queue_position(queued, agent_running, found.run_id)
            } else {
                None
            };
            Ok(StatusDetails { tool_call_count, queue_position: position })
        },
    }
}

/// Reading on from the returned cursor neither repeats nor loses reasoning:
/// every event whose text was returned is numbered at most like the cursor,
/// and every event that comes to the log later, under a number of its own
/// above the others, is numbered above the cursor too.
pub proof fn law_cursor_separates_read_from_unread(
    events: Seq<LoggedEvent>,
    run: RunId,
    later_event: LoggedEvent,
    i: int,
)
    requires
        forall|a: int|
            0 <= a < events.len() ==> (#[trigger] events[a]).event_id < later_event.event_id,
        0 <= i < events.len(),
        current(events[i], run, turn_boundary(events, run)),
    ensures
        reasoning_of(events, run, false).last_event_id is Some,
        events[i].event_id <= reasoning_of(events, run, false).last_event_id->0,
        later_event.event_id > reasoning_of(events, run, false).last_event_id->0,
{
    lemma_cursor_bound(events, run, turn_boundary(events, run), i);
    let k = lemma_cursor_source(events, run, turn_boundary(events, run));
    assert(events[k].event_id < later_event.event_id);
}

/// No event that counts is numbered above the cursor.
proof fn lemma_cursor_bound(events: Seq<LoggedEvent>, run: RunId, boundary: Option<u64>, i: int)
    requires
        0 <= i < events.len(),
        current(events[i], run, boundary),
    ensures
        reasoning_cursor(events, run, boundary) is Some,
        events[i].event_id <= reasoning_cursor(events, run, boundary)->0,
    decreases events.len(),
{
    if i < events.len() - 1 {
        lemma_cursor_bound(events.drop_last(), run, boundary, i);
    }
}

/// A cursor comes from an event that counts.
proof fn lemma_cursor_source(events: Seq<LoggedEvent>, run: RunId, boundary: Option<u64>) -> (j:
    int)
    requires
        reasoning_cursor(events, run, boundary) is Some,
    ensures
        0 <= j < events.len(),
        current(events[j], run, boundary),
        events[j].event_id == reasoning_cursor(events, run, boundary)->0,
    decreases events.len(),
{
    let before = reasoning_cursor(events.drop_last(), run, boundary);
    if current(events.last(), run, boundary) && later(before, events.last().event_id)
        == events.last().event_id {
        events.len() - 1
    } else {
        lemma_cursor_source(events.drop_last(), run, boundary)
    }
}

/// Reasoning of a turn that has ended is never returned: every event whose text
/// is returned is numbered above every event that bounds a turn of the run.
pub proof fn law_ended_turns_are_not_repeated(
    events: Seq<LoggedEvent>,
    run: RunId,
    i: int,
    j: int,
)
    requires
        0 <= i < events.len(),
        0 <= j < events.len(),
        bounds_turn(events[i], run),
        current(events[j], run, turn_boundary(events, run)),
    ensures
        events[j].event_id > events[i].event_id,
{
    lemma_boundary_is_latest(events, run, i);
}

proof fn lemma_boundary_is_latest(events: Seq<LoggedEvent>, run: RunId, i: int)
    requires
        0 <= i < events.len(),
        bounds_turn(events[i], run),
    ensures
        turn_boundary(events, run) is Some,
        events[i].event_id <= turn_boundary(events, run)->0,
    decreases events.len(),
{
    if i < events.len() - 1 {
        lemma_boundary_is_latest(events.drop_last(), run, i);
    }
}

/// What subagents do leaves the reasoning that is returned as it is.
pub proof fn law_subagents_do_not_disturb(events: Seq<LoggedEvent>, run: RunId, event: LoggedEvent)
    requires
        from_subagent(event),
    ensures
        reasoning_of(events.push(event), run, false) == reasoning_of(events, run, false),
{
    assert(events.push(event).drop_last() =~= events);
}

/// Every piece is numbered no lower than those before it.
pub open spec fn numbered_in_order(pieces: Seq<(u64, Seq<char>)>) -> bool {
    forall|a: int, b: int|
        0 <= a <= b < pieces.len() ==> (#[trigger] pieces[a]).0 <= (#[trigger] pieces[b]).0
}

/// A piece is put where it belongs, and the others keep their order.
proof fn lemma_placed_is_ordered(pieces: Seq<(u64, Seq<char>)>, piece: (u64, Seq<char>))
    requires
        numbered_in_order(pieces),
    ensures
        numbered_in_order(placed(pieces, piece)),
        placed(pieces, piece).len() == pieces.len() + 1,
        placed(pieces, piece).contains(piece),
        forall|other: (u64, Seq<char>)|
            pieces.contains(other) ==> #[trigger] placed(pieces, piece).contains(other),
        forall|k: int|
            0 <= k < placed(pieces, piece).len() ==> (#[trigger] placed(pieces, piece)[k]).0
                <= piece.0 || pieces.len() > 0 && placed(pieces, piece)[k].0 <= pieces.last().0,
    decreases pieces.len(),
{
    let result = placed(pieces, piece);
    if pieces.len() == 0 || pieces.last().0 <= piece.0 {
        assert(result[pieces.len() as int] == piece);
        assert forall|other: (u64, Seq<char>)| pieces.contains(other) implies #[trigger] result.contains(
            other,
        ) by {
            let k = choose|k: int| 0 <= k < pieces.len() && pieces[k] == other;
            assert(result[k] == other);
        }
    } else {
        let rest = pieces.drop_last();
        lemma_placed_is_ordered(rest, piece);
        let shorter = placed(rest, piece);
        let at = choose|k: int| 0 <= k < shorter.len() && shorter[k] == piece;
        assert(result[at] == piece);
        assert(result[shorter.len() as int] == pieces.last());
        assert forall|other: (u64, Seq<char>)| pieces.contains(other) implies #[trigger] result.contains(
            other,
        ) by {
            let k = choose|k: int| 0 <= k < pieces.len() && pieces[k] == other;
            if k < rest.len() {
                assert(rest[k] == other);
                assert(rest.contains(other));
                assert(shorter.contains(other));
                let n = choose|n: int| 0 <= n < shorter.len() && shorter[n] == other;
                assert(result[n] == other);
            }
        }
    }
}

/// Reasoning is returned in the order of the events' numbers, whatever their
/// order in the log, and no event that counts is left out.
pub proof fn law_reasoning_follows_the_numbers(
    events: Seq<LoggedEvent>,
    run: RunId,
    boundary: Option<u64>,
)
    ensures
        numbered_in_order(reasoning_pieces(events, run, boundary)),
        forall|i: int|
            0 <= i < events.len() && current(#[trigger] events[i], run, boundary)
                && events[i].text is Some ==> reasoning_pieces(events, run, boundary).contains(
                (events[i].event_id, events[i].text->0@),
            ),
    decreases events.len(),
{
    if events.len() > 0 {
        let rest = events.drop_last();
        law_reasoning_follows_the_numbers(rest, run, boundary);
        let before = reasoning_pieces(rest, run, boundary);
        if current(events.last(), run, boundary) && events.last().text is Some {
            lemma_placed_is_ordered(before, (events.last().event_id, events.last().text->0@));
        }
        assert forall|i: int|
            0 <= i < events.len() && current(#[trigger] events[i], run, boundary)
                && events[i].text is Some implies reasoning_pieces(events, run, boundary).contains(
            (events[i].event_id, events[i].text->0@),
        ) by {
            if i < rest.len() {
                assert(rest[i] == events[i]);
            }
        }
    }
}

/// Every piece of reasoning is numbered below a number that no event reaches.
proof fn lemma_pieces_are_below(
    events: Seq<LoggedEvent>,
    run: RunId,
    boundary: Option<u64>,
    limit: u64,
)
    requires
        forall|a: int| 0 <= a < events.len() ==> (#[trigger] events[a]).event_id < limit,
    ensures
        numbered_in_order(reasoning_pieces(events, run, boundary)),
        reasoning_pieces(events, run, boundary).len() > 0 ==> reasoning_pieces(
            events,
            run,
            boundary,
        ).last().0 < limit,
    decreases events.len(),
{
    law_reasoning_follows_the_numbers(events, run, boundary);
    if events.len() > 0 {
        let rest = events.drop_last();
        assert forall|a: int| 0 <= a < rest.len() implies (#[trigger] rest[a]).event_id < limit by {
            assert(rest[a] == events[a]);
        }
        lemma_pieces_are_below(rest, run, boundary, limit);
        let before = reasoning_pieces(rest, run, boundary);
        if current(events.last(), run, boundary) && events.last().text is Some {
            let piece = (events.last().event_id, events.last().text->0@);
            lemma_placed_is_ordered(before, piece);
            let after = placed(before, piece);
            assert(after[after.len() - 1].0 < limit);
        }
    }
}

/// A boundary is the number of an event.
proof fn lemma_boundary_is_below(events: Seq<LoggedEvent>, run: RunId, limit: u64)
    requires
        forall|a: int| 0 <= a < events.len() ==> (#[trigger] events[a]).event_id < limit,
    ensures
        turn_boundary(events, run) matches Some(b) ==> b < limit,
    decreases events.len(),
{
    if events.len() > 0 {
        let rest = events.drop_last();
        assert forall|a: int| 0 <= a < rest.len() implies (#[trigger] rest[a]).event_id < limit by {
            assert(rest[a] == events[a]);
        }
        lemma_boundary_is_below(rest, run, limit);
        assert(events[events.len() - 1].event_id < limit);
    }
}

/// Reasoning that comes to the log is put behind what was returned before.
pub proof fn law_new_reasoning_is_appended(
    events: Seq<LoggedEvent>,
    run: RunId,
    event: LoggedEvent,
)
    requires
        forall|a: int| 0 <= a < events.len() ==> (#[trigger] events[a]).event_id < event.event_id,
        reasons(event, run),
        event.text is Some,
    ensures
        reasoning_of(events.push(event), run, false).text == reasoning_of(events, run, false).text
            + event.text->0@,
        reasoning_of(events.push(event), run, false).last_event_id == Some(event.event_id),
{
    reveal_strlit("reasoning_delta");
    reveal_strlit("stream_reset");
    reveal_strlit("tool_start");
    reveal_strlit("tool_end");
    assert("reasoning_delta"@.len() != "stream_reset"@.len());
    let all = events.push(event);
    assert(all.drop_last() =~= events);
    let boundary = turn_boundary(events, run);
    assert(turn_boundary(all, run) == boundary);
    lemma_boundary_is_below(events, run, event.event_id);
    lemma_pieces_are_below(events, run, boundary, event.event_id);
    let before = reasoning_pieces(events, run, boundary);
    let piece = (event.event_id, event.text->0@);
    assert(before.push(piece).drop_last() =~= before);
    if reasoning_cursor(events, run, boundary) is Some {
        let k = lemma_cursor_source(events, run, boundary);
        assert(events[k].event_id < event.event_id);
    }
}

} // verus!
