//! What clients are owed of the things they read: listings, status, reasoning,
//! positions and streams, stated of the operations and their results.

use crate::clock::{rfc3339_of, to_rfc3339, Nanos};
use crate::context::{classify_session_type, internal_context, text_of};
use crate::ids::{parsed_uuid, uuid_text, AgentId, RunId};
use crate::job_card::RunStatus;
use crate::queue::{broadcast_queue_advance, index_of, queue_position, QueuePosition, QueuedRun};
use crate::read_api::{
    derive_trigger, enrich_run, get_run_reasoning, get_run_status, get_run_text, get_run_tool_calls,
    is_terminal, law_new_reasoning_is_appended, list_entries, list_reply, list_runs, placed,
    reasoning_cursor, reasoning_pieces, run_duration_ms, seal_id, seals, turn_boundary,
    AgentRunEntry, FoundRun, ListRunsQuery, Listing, LoggedEvent, Reasoning, Run, RunList,
    SourceAgent, StatusDetails, TextBuffer,
};
use crate::replies::ApiError;
use crate::reply_laws::{answers_with, lemma_error_object};
use crate::streaming::{
    attach_session_stream, confirm_subscription, parse_last_event_id, replay_with_stream_state,
    stream_agent_events, stream_run_events, stream_session_events, ActivitySnapshot, ReplayWindow,
    RunStream, SessionEventsQuery, SseEventData,
};
use crate::text::{begins_with, parsed_u64};
use vstd::prelude::*;

verus! {

/// Every listed entry carries the run record's own data. Its error is there
/// exactly when the record has one, and is the same text.
pub proof fn law_entry_carries_the_record(
    run: Run,
    context_id: Option<String>,
    tool_calls: Option<u32>,
    entry: AgentRunEntry,
)
    requires
        call_ensures(enrich_run, (run, context_id, tool_calls), entry),
    ensures
        entry.error is Some <==> run.error is Some,
        run.error matches Some(text) ==> entry.error->0@ == text@,
        entry.run_id == run.run_id,
        entry.session_id == run.session_id,
        entry.agent_id == run.agent_id,
        entry.status == run.status,
        entry.started_at == run.started_at,
        entry.ended_at == run.ended_at,
        entry.usage == run.usage,
        entry.job_id == run.job_id,
        entry.parent_run_id == run.parent_run_id,
        entry.tool_call_count == tool_calls,
{
}

/// A listed entry shows output exactly when the record has one: all of it up
/// to two hundred characters, and the first two hundred with three dots behind
/// them when it is longer.
pub proof fn law_entry_shows_the_beginning_of_the_output(
    run: Run,
    context_id: Option<String>,
    tool_calls: Option<u32>,
    entry: AgentRunEntry,
)
    requires
        call_ensures(enrich_run, (run, context_id, tool_calls), entry),
    ensures
        entry.response is Some <==> run.output is Some,
        run.output matches Some(text) ==> {
            let shown = entry.response->0@;
            &&& text@.len() <= 200 ==> shown == text@
            &&& text@.len() > 200 ==> {
                &&& shown.len() == 203
                &&& forall|i: int| 0 <= i < 200 ==> #[trigger] shown[i] == text@[i]
                &&& forall|i: int| 200 <= i < 203 ==> #[trigger] shown[i] == '.'
            }
        },
{
}

/// A listed entry is dated by the last thing that happened to the run: its end,
/// before its start, before its request.
pub proof fn law_entry_is_dated_by_its_last_event(
    run: Run,
    context_id: Option<String>,
    tool_calls: Option<u32>,
    entry: AgentRunEntry,
)
    requires
        call_ensures(enrich_run, (run, context_id, tool_calls), entry),
    ensures
        run.ended_at matches Some(end) ==> entry.ts == end,
        run.ended_at is None ==> (run.started_at matches Some(start) ==> entry.ts == start),
        run.ended_at is None && run.started_at is None ==> entry.ts == run.created_at,
        entry.duration_ms is Some <==> run.started_at is Some && run.ended_at is Some,
        run.started_at matches Some(start) ==> (run.ended_at matches Some(end) ==> {
            let ms = entry.duration_ms->0 as int;
            &&& end <= start ==> ms == 0
            &&& end > start ==> ms * 1_000_000 <= end - start < (ms + 1) * 1_000_000
        }),
{
}

/// A listed entry names the context of the run's session, as far as the session
/// is still there; the type it names is the one that the context id begins
/// with, and what triggered the run is its job, the run that started it, or
/// else what that type says.
pub proof fn law_entry_names_its_session(
    run: Run,
    context_id: Option<String>,
    tool_calls: Option<u32>,
    entry: AgentRunEntry,
)
    requires
        call_ensures(enrich_run, (run, context_id, tool_calls), entry),
    ensures
        context_id is None ==> entry.context_id@ == "unknown"@ && entry.session_type@ == "chat"@,
        context_id matches Some(c) ==> {
            let kind = entry.session_type@;
            &&& entry.context_id@ == c@
            &&& begins_with(c@, "dm:"@) ==> kind == "dm"@
            &&& begins_with(c@, "notifications:"@) ==> kind == "notification"@
            &&& begins_with(c@, "job_"@) ==> kind == "job"@
            &&& begins_with(c@, "subagent_"@) ==> kind == "subagent"@
            &&& begins_with(c@, "telegram_"@) ==> kind == "telegram"@
            &&& begins_with(c@, "episodic:"@) ==> kind == "episodic"@
            &&& internal_context(c@) || begins_with(c@, "telegram_"@) || kind
                == "chat"@
        },
        run.job_id is Some ==> entry.trigger@ == "scheduled"@,
        run.job_id is None && run.parent_run_id is Some ==> entry.trigger@ == "subagent"@,
        run.job_id is None && run.parent_run_id is None ==> (entry.session_type@ == "dm"@
            || entry.session_type@ == "notification"@ || entry.session_type@ == "telegram"@
            ==> entry.trigger@ == entry.session_type@),
{
    reveal_strlit("chat");
    reveal_strlit("dm");
    reveal_strlit("notification");
    reveal_strlit("telegram");
    assert("chat"@.len() != "dm"@.len());
    if let Some(c) = context_id {
        lemma_prefixes_exclude_each_other(c@);
    }
    assert("chat"@.len() != "notification"@.len() && "chat"@.len() != "telegram"@.len());
}

/// A run is triggered by its job before anything else, then by the run that
/// started it, and only then by the kind of its session, which its context id
/// begins with; whatever else it is, a person asked for it.
pub proof fn law_trigger_is_what_started_the_run(run: Run, context_id: &str, r: String)
    requires
        call_ensures(derive_trigger, (&run, context_id), r),
    ensures
        run.job_id is Some ==> r@ == "scheduled"@,
        run.job_id is None && run.parent_run_id is Some ==> r@ == "subagent"@,
        run.job_id is None && run.parent_run_id is None ==> {
            let c = context_id@;
            &&& begins_with(c, "dm:"@) ==> r@ == "dm"@
            &&& begins_with(c, "notifications:"@) ==> r@ == "notification"@
            &&& begins_with(c, "telegram_"@) ==> r@ == "telegram"@
            &&& !begins_with(c, "dm:"@) && !begins_with(c, "notifications:"@) && !begins_with(
                c,
                "telegram_"@,
            ) ==> r@ == "user"@
        },
{
    let c = context_id@;
    lemma_prefixes_exclude_each_other(c);
    reveal_strlit("dm");
    reveal_strlit("notification");
    reveal_strlit("job");
    reveal_strlit("subagent");
    reveal_strlit("telegram");
    reveal_strlit("episodic");
    reveal_strlit("chat");
    assert("telegram"@[0] != "subagent"@[0] && "telegram"@[0] != "episodic"@[0]);
    assert("dm"@.len() != "job"@.len());
}

/// A context id begins with no more than one of the known prefixes.
pub proof fn lemma_prefixes_exclude_each_other(c: Seq<char>)
    ensures
        begins_with(c, "dm:"@) ==> !begins_with(c, "notifications:"@) && !begins_with(c, "job_"@)
            && !begins_with(c, "subagent_"@) && !begins_with(c, "telegram_"@) && !begins_with(
            c,
            "episodic:"@,
        ),
        begins_with(c, "notifications:"@) ==> !begins_with(c, "job_"@) && !begins_with(
            c,
            "subagent_"@,
        ) && !begins_with(c, "telegram_"@) && !begins_with(c, "episodic:"@),
        begins_with(c, "job_"@) ==> !begins_with(c, "subagent_"@) && !begins_with(c, "telegram_"@)
            && !begins_with(c, "episodic:"@),
        begins_with(c, "subagent_"@) ==> !begins_with(c, "telegram_"@) && !begins_with(
            c,
            "episodic:"@,
        ),
        begins_with(c, "telegram_"@) ==> !begins_with(c, "episodic:"@),
{
    reveal_strlit("dm:");
    reveal_strlit("notifications:");
    reveal_strlit("job_");
    reveal_strlit("subagent_");
    reveal_strlit("telegram_");
    reveal_strlit("episodic:");
    if begins_with(c, "dm:"@) {
        assert(c.subrange(0, 3)[0] == 'd');
    }
    if begins_with(c, "notifications:"@) {
        assert(c.subrange(0, 14)[0] == 'n');
    }
    if begins_with(c, "job_"@) {
        assert(c.subrange(0, 4)[0] == 'j');
    }
    if begins_with(c, "subagent_"@) {
        assert(c.subrange(0, 9)[0] == 's');
    }
    if begins_with(c, "telegram_"@) {
        assert(c.subrange(0, 9)[0] == 't');
    }
    if begins_with(c, "episodic:"@) {
        assert(c.subrange(0, 9)[0] == 'e');
    }
}

/// A context id's prefix is its session's type; without a known prefix it is a
/// chat.
pub proof fn law_prefix_is_the_session_type(context_id: &str, r: &'static str)
    requires
        call_ensures(classify_session_type, (context_id,), r),
    ensures
        ({
            let c = context_id@;
            &&& begins_with(c, "dm:"@) ==> r@ == "dm"@
            &&& begins_with(c, "notifications:"@) ==> r@ == "notification"@
            &&& begins_with(c, "job_"@) ==> r@ == "job"@
            &&& begins_with(c, "subagent_"@) ==> r@ == "subagent"@
            &&& begins_with(c, "telegram_"@) ==> r@ == "telegram"@
            &&& begins_with(c, "episodic:"@) ==> r@ == "episodic"@
            &&& !(begins_with(c, "dm:"@) || begins_with(c, "notifications:"@) || begins_with(
                c,
                "job_"@,
            ) || begins_with(c, "subagent_"@) || begins_with(c, "telegram_"@) || begins_with(
                c,
                "episodic:"@,
            )) ==> r@ == "chat"@
        }),
{
    lemma_prefixes_exclude_each_other(context_id@);
}

/// How long a run took: nothing before it has started and ended, never less
/// than nothing, and else the whole milliseconds in between.
pub proof fn law_duration_is_whole_milliseconds(
    started_at: Option<Nanos>,
    ended_at: Option<Nanos>,
    r: Option<i64>,
)
    requires
        call_ensures(run_duration_ms, (started_at, ended_at), r),
    ensures
        r is Some <==> started_at is Some && ended_at is Some,
        started_at matches Some(start) ==> (ended_at matches Some(end) ==> {
            let ms = r->0 as int;
            &&& ms >= 0
            &&& end <= start ==> ms == 0
            &&& end > start ==> ms * 1_000_000 <= end - start < (ms + 1) * 1_000_000
        }),
{
}

/// A listing holds all runs that were found for it, in their order; an agent's
/// listing with details, a session's with the bare records.
pub proof fn law_listing_keeps_every_run(listing: Listing, runs: Vec<FoundRun>, r: RunList)
    requires
        call_ensures(list_reply, (listing, runs), r),
    ensures
        listing is ByAgent ==> (r matches RunList::Enriched(entries) && {
            &&& entries@.len() == runs@.len()
            &&& forall|i: int|
                0 <= i < runs@.len() ==> {
                    let entry = #[trigger] entries@[i];
                    &&& entry.run_id == runs@[i].0.run_id
                    &&& entry.status == runs@[i].0.status
                    &&& text_of(entry.error) == text_of(runs@[i].0.error)
                    &&& entry.tool_call_count == runs@[i].2
                    &&& runs@[i].1 matches Some(c) ==> entry.context_id@ == c@
                }
        }),
        listing is BySession ==> (r matches RunList::Plain(plain) && {
            &&& plain@.len() == runs@.len()
            &&& forall|i: int| 0 <= i < runs@.len() ==> #[trigger] plain@[i] == runs@[i].0
        }),
{
}

/// Details are added run by run, in order.
pub proof fn law_details_are_added_in_order(runs: Vec<FoundRun>, r: Vec<AgentRunEntry>, i: int)
    requires
        call_ensures(list_entries, (runs,), r),
        0 <= i < runs@.len(),
    ensures
        r@.len() == runs@.len(),
        r@[i].run_id == runs@[i].0.run_id,
        text_of(r@[i].error) == text_of(runs@[i].0.error),
        r@[i].status == runs@[i].0.status,
        r@[i].tool_call_count == runs@[i].2,
        runs@[i].1 matches Some(c) ==> r@[i].context_id@ == c@,
        runs@[i].1 is None ==> r@[i].context_id@ == "unknown"@,
{
}

/// A listing needs exactly one filter, and keeps to it; it holds as many runs
/// as were asked for, or fifty.
pub proof fn law_listing_takes_one_filter(query: ListRunsQuery, r: Result<Listing, ApiError>)
    requires
        call_ensures(list_runs, (&query,), r),
    ensures
        r is Ok <==> (query.agent_id is Some) != (query.session_id is Some),
        r matches Ok(Listing::ByAgent { agent_id, limit }) ==> Some(agent_id) == query.agent_id && (
        query.limit matches Some(n) ==> limit == n) && (query.limit is None ==> limit == 50),
        r matches Ok(Listing::BySession { session_id, limit }) ==> Some(session_id)
            == query.session_id && (query.limit matches Some(n) ==> limit == n) && (
        query.limit is None ==> limit == 50),
        r matches Err(e) ==> (query.agent_id is Some ==> answers_with(
            e,
            400,
            "AMBIGUOUS_FILTER"@,
            "Provide either `session_id` or `agent_id`, not both"@,
        )) && (query.agent_id is None ==> answers_with(
            e,
            400,
            "MISSING_FILTER"@,
            "At least one of `session_id` or `agent_id` must be provided"@,
        )),
{
    lemma_error_object(
        "AMBIGUOUS_FILTER"@,
        "Provide either `session_id` or `agent_id`, not both"@,
    );
    lemma_error_object(
        "MISSING_FILTER"@,
        "At least one of `session_id` or `agent_id` must be provided"@,
    );
}

/// A run that is not there is answered as such, whatever is asked about it.
pub proof fn law_missing_run_is_not_found(
    calls: Result<Vec<u8>, ApiError>,
    loaded: Option<Result<Vec<u8>, String>>,
    text: Result<TextBuffer, ApiError>,
    buffer: Option<TextBuffer>,
    status: Result<StatusDetails, ApiError>,
    count: Option<u32>,
    queued: Vec<QueuedRun>,
    busy: bool,
    reasoning: Result<Reasoning<String>, ApiError>,
    run: RunId,
    events: Vec<LoggedEvent>,
    fresh: Option<RunStatus>,
    stream: Result<RunStream, ApiError>,
)
    requires
        call_ensures(get_run_tool_calls::<u8>, (false, loaded), calls),
        call_ensures(get_run_text, (false, buffer), text),
        call_ensures(get_run_status, (None::<&Run>, count, &queued, busy), status),
        call_ensures(get_run_reasoning, (run, None::<RunStatus>, &events, fresh), reasoning),
        call_ensures(stream_run_events, (None::<RunStatus>,), stream),
    ensures
        calls matches Err(e) && answers_with(e, 404, "NOT_FOUND"@, "Run not found"@),
        text matches Err(e) && answers_with(e, 404, "NOT_FOUND"@, "Run not found"@),
        status matches Err(e) && answers_with(e, 404, "NOT_FOUND"@, "Run not found"@),
        reasoning matches Err(e) && answers_with(e, 404, "NOT_FOUND"@, "Run not found"@),
        stream matches Err(e) && answers_with(e, 404, "NOT_FOUND"@, "Run not found"@),
{
    lemma_error_object("NOT_FOUND"@, "Run not found"@);
}

/// The tool calls of a run are what the store holds, none without a store, and
/// the store's own error when it fails.
pub proof fn law_tool_calls_come_from_the_store<T>(
    loaded: Option<Result<Vec<T>, String>>,
    r: Result<Vec<T>, ApiError>,
)
    requires
        call_ensures(get_run_tool_calls::<T>, (true, loaded), r),
    ensures
        loaded is None ==> (r matches Ok(records) && records@.len() == 0),
        loaded matches Some(Ok(stored)) ==> (r matches Ok(records) && records == stored),
        loaded matches Some(Err(error)) ==> (r matches Err(e) && answers_with(
            e,
            500,
            "INTERNAL_ERROR"@,
            "Failed to load tool calls: "@ + error@,
        )),
{
    if let Some(Err(error)) = loaded {
        lemma_error_object("INTERNAL_ERROR"@, "Failed to load tool calls: "@ + error@);
    }
}

/// The visible text of a turn is what was buffered, with its place in the log;
/// without a buffer it is empty.
pub proof fn law_text_is_what_was_buffered(
    buffer: Option<TextBuffer>,
    r: Result<TextBuffer, ApiError>,
)
    requires
        call_ensures(get_run_text, (true, buffer), r),
    ensures
        buffer matches Some(b) ==> (r matches Ok(shown) && shown == b),
        buffer is None ==> (r matches Ok(shown) && shown.text@.len() == 0
            && shown.last_session_event_id is None),
{
}

/// A status tells the position of a run exactly while it waits; then it is the
/// position in its agent's queue.
pub proof fn law_status_tells_the_position(
    run: Run,
    count: Option<u32>,
    queued: Vec<QueuedRun>,
    busy: bool,
    r: Result<StatusDetails, ApiError>,
    position: Option<usize>,
)
    requires
        call_ensures(get_run_status, (Some(&run), count, &queued, busy), r),
        call_ensures(queue_position, (&queued, busy, run.run_id), position),
    ensures
        r matches Ok(details) && details.tool_call_count == count && details.queue_position
            == if run.status is Queued {
            position
        } else {
            None
        },
{
}

/// A run is over exactly when it completed, failed or was cancelled.
pub proof fn law_three_states_are_final(status: RunStatus, r: bool)
    requires
        call_ensures(is_terminal, (status,), r),
    ensures
        r <==> !(status is Queued || status is Running),
{
}

/// The run's end is told by this event.
pub open spec fn ends_run(event: LoggedEvent, run: RunId) -> bool {
    event.run_id == run && (event.event_type@ == "run_finished"@ || event.event_type@
        == "run_cancelled"@ || event.event_type@ == "run_error"@)
}

/// The seal of a sequence is the smallest number among the events that tell the
/// run's end.
proof fn lemma_seal_is_smallest(events: Seq<LoggedEvent>, run: RunId)
    ensures
        seal_id(events, run) is Some <==> exists|i: int|
            0 <= i < events.len() && ends_run(#[trigger] events[i], run),
        forall|i: int|
            0 <= i < events.len() && ends_run(#[trigger] events[i], run) ==> seal_id(
                events,
                run,
            )->0 <= events[i].event_id,
        seal_id(events, run) matches Some(s) ==> exists|i: int|
            0 <= i < events.len() && ends_run(#[trigger] events[i], run) && events[i].event_id
                == s,
    decreases events.len(),
{
    if events.len() > 0 {
        let rest = events.drop_last();
        lemma_seal_is_smallest(rest, run);
        let last = events.len() - 1;
        assert(seals(events[last], run) <==> ends_run(events[last], run));
        if seal_id(rest, run) is Some {
            let i = choose|i: int|
                0 <= i < rest.len() && ends_run(#[trigger] rest[i], run) && rest[i].event_id
                    == seal_id(rest, run)->0;
            assert(ends_run(events[i], run));
        }
        assert forall|i: int| 0 <= i < events.len() && ends_run(#[trigger] events[i], run) implies
            seal_id(events, run) is Some && seal_id(events, run)->0 <= events[i].event_id by {
            if i < last {
                assert(ends_run(rest[i], run));
            }
        }
        if seal_id(events, run) is Some && !ends_run(events[last], run) {
            let i = choose|i: int|
                0 <= i < rest.len() && ends_run(#[trigger] rest[i], run) && rest[i].event_id
                    == seal_id(rest, run)->0;
            assert(ends_run(events[i], run));
        }
    }
}

/// A run that is over is returned with its seal: the smallest number among the
/// events of the log that tell its end, finished, cancelled or failed alike;
/// none exactly when the log holds no such event. Its reasoning is not returned
/// again. A run that is not over has no seal. A run that ended while the log
/// was read counts as over.
pub proof fn law_seal_is_the_first_end_in_the_log(
    run: RunId,
    before: RunStatus,
    events: Vec<LoggedEvent>,
    fresh: Option<RunStatus>,
    r: Result<Reasoning<String>, ApiError>,
)
    requires
        call_ensures(get_run_reasoning, (run, Some(before), &events, fresh), r),
    ensures
        r is Ok,
        ({
            let state = match fresh {
                Some(now) => now,
                None => before,
            };
            let over = state is Completed || state is Failed || state is Cancelled;
            let reasoning = r->Ok_0;
            &&& reasoning.terminal == over
            &&& !over ==> reasoning.seal_event_id is None
            &&& over ==> {
                &&& reasoning.text@.len() == 0
                &&& reasoning.last_event_id is None
                &&& reasoning.seal_event_id is Some <==> exists|i: int|
                    0 <= i < events@.len() && ends_run(#[trigger] events@[i], run)
                &&& forall|i: int|
                    0 <= i < events@.len() && ends_run(#[trigger] events@[i], run)
                        ==> reasoning.seal_event_id->0 <= events@[i].event_id
                &&& reasoning.seal_event_id matches Some(s) ==> exists|i: int|
                    0 <= i < events@.len() && ends_run(#[trigger] events@[i], run)
                        && events@[i].event_id == s
            }
        }),
{
    lemma_seal_is_smallest(events@, run);
}

/// The event is a piece of reasoning of the run's own agent.
pub open spec fn own_reasoning(event: LoggedEvent, run: RunId) -> bool {
    event.run_id == run && event.event_type@ == "reasoning_delta"@ && event.source_agent
        != SourceAgent::Given
}

/// The event ends a turn of the run's own agent, or starts it anew.
pub open spec fn own_boundary(event: LoggedEvent, run: RunId) -> bool {
    event.run_id == run && (event.event_type@ == "stream_reset"@ || event.event_type@
        == "tool_start"@ || event.event_type@ == "tool_end"@) && event.source_agent
        != SourceAgent::Given
}

/// The four types of events that the reasoning depends on are different.
proof fn lemma_types_differ()
    ensures
        "reasoning_delta"@ != "stream_reset"@,
        "reasoning_delta"@ != "tool_start"@,
        "reasoning_delta"@ != "tool_end"@,
{
    reveal_strlit("reasoning_delta");
    reveal_strlit("stream_reset");
    reveal_strlit("tool_start");
    reveal_strlit("tool_end");
    assert("reasoning_delta"@.len() != "stream_reset"@.len());
    assert("reasoning_delta"@.len() != "tool_start"@.len());
    assert("reasoning_delta"@.len() != "tool_end"@.len());
}

/// The two logs are one and the same, but for one more event at the end of the
/// second, which is numbered above the others.
pub open spec fn grew_by(
    events: Seq<LoggedEvent>,
    longer: Seq<LoggedEvent>,
    event: LoggedEvent,
) -> bool {
    &&& longer == events.push(event)
    &&& forall|i: int| 0 <= i < events.len() ==> (#[trigger] events[i]).event_id < event.event_id
}

/// No reasoning is numbered above a boundary that is numbered like the newest
/// event.
proof fn lemma_nothing_after_the_newest(events: Seq<LoggedEvent>, run: RunId, newest: u64)
    requires
        forall|i: int| 0 <= i < events.len() ==> (#[trigger] events[i]).event_id <= newest,
    ensures
        reasoning_pieces(events, run, Some(newest)).len() == 0,
        reasoning_cursor(events, run, Some(newest)) is None,
    decreases events.len(),
{
    if events.len() > 0 {
        let rest = events.drop_last();
        assert forall|i: int| 0 <= i < rest.len() implies (#[trigger] rest[i]).event_id
            <= newest by {
            assert(rest[i] == events[i]);
        }
        lemma_nothing_after_the_newest(rest, run, newest);
        assert(events[events.len() - 1].event_id <= newest);
    }
}

/// The boundary of a log whose newest event bounds a turn is that event.
proof fn lemma_boundary_is_below_limit(events: Seq<LoggedEvent>, run: RunId, limit: u64)
    requires
        forall|i: int| 0 <= i < events.len() ==> (#[trigger] events[i]).event_id < limit,
    ensures
        turn_boundary(events, run) matches Some(b) ==> b < limit,
    decreases events.len(),
{
    if events.len() > 0 {
        let rest = events.drop_last();
        assert forall|i: int| 0 <= i < rest.len() implies (#[trigger] rest[i]).event_id < limit by {
            assert(rest[i] == events[i]);
        }
        lemma_boundary_is_below_limit(rest, run, limit);
        assert(events[events.len() - 1].event_id < limit);
    }
}

/// While a run is under way, its reasoning grows with the log: a new piece of
/// its own agent comes behind what was there, and the client reads on after it;
/// a tool call that begins or ends, or a reset of the stream, starts with an
/// empty text; whatever else comes, of another run, of a subagent or of another
/// type, leaves the text and the place as they were.
pub proof fn law_reasoning_grows_with_the_log(
    run: RunId,
    state: RunStatus,
    events: Vec<LoggedEvent>,
    longer: Vec<LoggedEvent>,
    event: LoggedEvent,
    before: Reasoning<String>,
    after: Reasoning<String>,
)
    requires
        state is Queued || state is Running,
        grew_by(events@, longer@, event),
        call_ensures(get_run_reasoning, (run, Some(state), &events, Some(state)), Ok(before)),
        call_ensures(get_run_reasoning, (run, Some(state), &longer, Some(state)), Ok(after)),
    ensures
        own_reasoning(event, run) ==> {
            &&& after.last_event_id == Some(event.event_id)
            &&& event.text matches Some(t) ==> after.text@ == before.text@ + t@
            &&& event.text is None ==> after.text@ == before.text@
        },
        own_boundary(event, run) ==> after.text@.len() == 0 && after.last_event_id is None,
        !own_reasoning(event, run) && !own_boundary(event, run) ==> after.text@ == before.text@
            && after.last_event_id == before.last_event_id,
{
    lemma_types_differ();
    let all = longer@;
    assert(all.drop_last() =~= events@);
    assert(all.last() == event);
    lemma_boundary_is_below_limit(events@, run, event.event_id);
    if own_boundary(event, run) {
        assert forall|i: int| 0 <= i < all.len() implies (#[trigger] all[i]).event_id
            <= event.event_id by {
            if i < events@.len() {
                assert(all[i] == events@[i]);
            }
        }
        lemma_nothing_after_the_newest(all, run, event.event_id);
        assert(turn_boundary(all, run) == Some(event.event_id));
    } else if own_reasoning(event, run) {
        if event.text is Some {
            law_new_reasoning_is_appended(events@, run, event);
        } else {
            assert(turn_boundary(all, run) == turn_boundary(events@, run));
            lemma_cursor_below(events@, run, turn_boundary(events@, run), event.event_id);
        }
    } else {
        assert(turn_boundary(all, run) == turn_boundary(events@, run));
    }
}

/// A cursor is the number of an event.
proof fn lemma_cursor_below(
    events: Seq<LoggedEvent>,
    run: RunId,
    boundary: Option<u64>,
    limit: u64,
)
    requires
        forall|i: int| 0 <= i < events.len() ==> (#[trigger] events[i]).event_id < limit,
    ensures
        reasoning_cursor(events, run, boundary) matches Some(c) ==> c < limit,
    decreases events.len(),
{
    if events.len() > 0 {
        let rest = events.drop_last();
        assert forall|i: int| 0 <= i < rest.len() implies (#[trigger] rest[i]).event_id < limit by {
            assert(rest[i] == events[i]);
        }
        lemma_cursor_below(rest, run, boundary, limit);
        assert(events[events.len() - 1].event_id < limit);
    }
}

/// A log without events has no reasoning.
pub proof fn law_empty_log_has_no_reasoning(
    run: RunId,
    state: RunStatus,
    events: Vec<LoggedEvent>,
    r: Reasoning<String>,
)
    requires
        events@.len() == 0,
        call_ensures(get_run_reasoning, (run, Some(state), &events, Some(state)), Ok(r)),
    ensures
        r.text@.len() == 0,
        r.last_event_id is None,
        r.seal_event_id is None,
{
}

/// When the head of a queue advances, every waiting run is told how many runs
/// are ahead of it, counted from one; the first is left out exactly when the
/// agent is free to start it.
pub proof fn law_positions_count_the_runs_ahead(
    queued: Vec<QueuedRun>,
    busy: bool,
    r: Vec<QueuePosition>,
)
    requires
        call_ensures(broadcast_queue_advance, (&queued, busy), r),
    ensures
        busy ==> r@.len() == queued@.len(),
        !busy && queued@.len() > 0 ==> r@.len() + 1 == queued@.len(),
        queued@.len() == 0 ==> r@.len() == 0,
        forall|i: int|
            0 <= i < r@.len() ==> {
                let waiting = queued@[if busy {
                    i
                } else {
                    i + 1
                }];
                &&& (#[trigger] r@[i]).run_id == waiting.run_id
                &&& r@[i].session_id == waiting.session_id
                &&& r@[i].position == i + 1
            },
{
    assert(queued.len() == queued@.len());
}

/// A status request shows how many runs are ahead of a waiting one, the one
/// under way included; nothing for a run that is next or not in the queue.
pub proof fn law_position_is_the_place_in_line(
    queued: Vec<QueuedRun>,
    busy: bool,
    run: RunId,
    n: int,
    r: Option<usize>,
)
    requires
        call_ensures(queue_position, (&queued, busy, run), r),
        0 <= n <= queued@.len(),
        forall|j: int| 0 <= j < n ==> (#[trigger] queued@[j]).run_id != run,
        n < queued@.len() ==> queued@[n].run_id == run,
    ensures
        n == queued@.len() ==> r is None,
        n < queued@.len() && busy ==> (r matches Some(p) && p == n + 1),
        n < queued@.len() && !busy && n > 0 ==> (r matches Some(p) && p == n),
        n == 0 && !busy ==> r is None,
{
    lemma_first_index(queued@, run, n);
    assert(queued.len() == queued@.len());
}

/// The index of a run is where it first stands.
proof fn lemma_first_index(queued: Seq<QueuedRun>, run: RunId, n: int)
    requires
        0 <= n <= queued.len(),
        forall|j: int| 0 <= j < n ==> (#[trigger] queued[j]).run_id != run,
        n < queued.len() ==> queued[n].run_id == run,
    ensures
        index_of(queued, run) == n,
    decreases n,
{
    if n > 0 {
        let rest = queued.subrange(1, queued.len() as int);
        assert forall|j: int| 0 <= j < n - 1 implies (#[trigger] rest[j]).run_id != run by {
            assert(rest[j] == queued[j + 1]);
        }
        lemma_first_index(rest, run, n - 1);
    }
}

/// A client gets a live stream of a run only while the run is not over; one
/// that is over is replayed. What changed while it subscribed counts.
pub proof fn law_finished_runs_are_only_replayed(
    status: RunStatus,
    r: Result<RunStream, ApiError>,
    later: Option<RunStatus>,
    confirmed: RunStream,
)
    requires
        call_ensures(stream_run_events, (Some(status),), r),
        call_ensures(confirm_subscription, (later,), confirmed),
    ensures
        status is Queued || status is Running ==> (r matches Ok(s) && s is Subscribe),
        !(status is Queued || status is Running) ==> (r matches Ok(s) && s is ReplayOnly),
        confirmed is Live <==> later is Some && (later->0 is Queued || later->0 is Running),
        !(confirmed is Live) ==> confirmed is Unsubscribe,
{
}

/// A client is replayed the state of the stream first and then every event of
/// the window, each once, in order and as it was logged. It is told of another
/// epoch exactly when it names one that is not the gateway's.
pub proof fn law_replay_is_the_window<D>(
    epoch: u128,
    supplied: Option<&str>,
    window: ReplayWindow<D>,
    r: Vec<SseEventData<D>>,
)
    requires
        call_ensures(replay_with_stream_state::<D>, (epoch, supplied, window), r),
    ensures
        r@.len() == window.events@.len() + 1,
        r@[0] matches SseEventData::StreamState(state) && {
            &&& state.epoch == epoch
            &&& state.retained_from == window.retained_from
            &&& state.newest == window.newest
            &&& state.replay_gap == window.replay_gap
            &&& state.epoch_mismatch <==> (supplied matches Some(t) && parsed_uuid(t@) != Some(
                epoch,
            ))
        },
        forall|i: int|
            1 <= i < r@.len() ==> ((#[trigger] r@[i]) matches SseEventData::Logged {
                event_type,
                data,
                ts,
                event_id,
            } && event_type == window.events@[i - 1].event_type && data == window.events@[i
                - 1].data && ts == window.events@[i - 1].ts && event_id == Some(
                window.events@[i - 1].event_id,
            )),
{
    assert forall|i: int| 1 <= i < r@.len() implies ((#[trigger] r@[i]) matches
        SseEventData::Logged { event_type, data, ts, event_id } && event_type == window.events@[i
        - 1].event_type && data == window.events@[i - 1].data && ts == window.events@[i - 1].ts
        && event_id == Some(window.events@[i - 1].event_id)) by {
        let k = i - 1;
        assert(r@[k + 1] == r@[i]);
    }
}

/// A client resumes after the event that its query names; only when the query
/// names no number does the header count, and without either it resumes
/// nowhere.
pub proof fn law_client_resumes_where_it_says(
    header: Option<&str>,
    query: SessionEventsQuery,
    r: Option<u64>,
)
    requires
        call_ensures(parse_last_event_id, (header, &query), r),
    ensures
        ({
            let asked = match query.last_event_id {
                Some(t) => parsed_u64(t@),
                None => None,
            };
            let fallback = match header {
                Some(t) => parsed_u64(t@),
                None => None,
            };
            &&& asked is Some ==> r == asked
            &&& asked is None ==> r == fallback
        }),
{
}

/// A new subscriber hears what every subagent is doing, in order, each under
/// the run that started it; the nil id stands for a run that is not known yet.
pub proof fn law_subscriber_hears_of_every_subagent<L>(
    snapshots: Vec<ActivitySnapshot<L>>,
    r: Vec<(RunId, L)>,
    i: int,
)
    requires
        call_ensures(attach_session_stream::<L>, (snapshots,), r),
        0 <= i < snapshots@.len(),
    ensures
        r@.len() == snapshots@.len(),
        r@[i].1 == snapshots@[i].signal,
        snapshots@[i].parent_run_id matches Some(run) ==> r@[i].0 == run,
        snapshots@[i].parent_run_id is None ==> r@[i].0 == 0,
{
}

/// A client is connected to a session exactly when the session is there, and to
/// an agent's feed unless the registry does not know the agent or fails.
pub proof fn law_streams_need_their_subject(
    found: bool,
    session: Result<(), ApiError>,
    agent: AgentId,
    lookup: Option<Result<bool, String>>,
    feed: Result<(), ApiError>,
)
    requires
        call_ensures(stream_session_events, (found,), session),
        call_ensures(stream_agent_events, (agent, lookup), feed),
    ensures
        session is Ok <==> found,
        session matches Err(e) ==> answers_with(e, 404, "NOT_FOUND"@, "Session not found"@),
        feed is Ok <==> lookup is None || lookup == Some(Ok::<bool, String>(true)),
        lookup == Some(Ok::<bool, String>(false)) ==> (feed matches Err(e) && answers_with(
            e,
            404,
            "NOT_FOUND"@,
            "Agent not found: "@ + uuid_text(agent),
        )),
        lookup matches Some(Err(error)) ==> (feed matches Err(e) && answers_with(
            e,
            500,
            "INTERNAL"@,
            error@,
        )),
{
    lemma_error_object("NOT_FOUND"@, "Session not found"@);
    lemma_error_object("NOT_FOUND"@, "Agent not found: "@ + uuid_text(agent));
    if let Some(Err(error)) = lookup {
        lemma_error_object("INTERNAL"@, error@);
    }
}

/// An instant is written as its whole seconds since the start of 1970 and the
/// nanoseconds behind them, before 1970 too.
pub proof fn law_instant_is_written_by_its_seconds(at: Nanos, r: String, secs: int, nanos: nat)
    requires
        call_ensures(to_rfc3339, (at,), r),
        at == secs * 1_000_000_000 + nanos,
        nanos < 1_000_000_000,
    ensures
        r@ == rfc3339_of(secs, nanos),
{
    assert(at as int / 1_000_000_000 == secs);
    assert(at as int % 1_000_000_000 == nanos);
}

/// Two pieces with different numbers find the same places in either order.
proof fn lemma_placing_commutes(
    pieces: Seq<(u64, Seq<char>)>,
    a: (u64, Seq<char>),
    b: (u64, Seq<char>),
)
    requires
        a.0 < b.0,
    ensures
        placed(placed(pieces, a), b) == placed(placed(pieces, b), a),
    decreases pieces.len(),
{
    let with_a = placed(pieces, a);
    let with_b = placed(pieces, b);
    if pieces.len() == 0 || pieces.last().0 <= a.0 {
        assert(with_a == pieces.push(a));
        assert(with_b == pieces.push(b));
        assert(with_b.drop_last() =~= pieces);
        assert(placed(with_a, b) == with_a.push(b));
        assert(placed(with_b, a) == placed(pieces, a).push(b));
    } else {
        let rest = pieces.drop_last();
        let last = pieces.last();
        assert(with_a == placed(rest, a).push(last));
        assert(with_a.drop_last() =~= placed(rest, a));
        if last.0 <= b.0 {
            assert(with_b == pieces.push(b));
            assert(with_b.drop_last() =~= pieces);
            assert(placed(with_b, a) == with_a.push(b));
        } else {
            lemma_placing_commutes(rest, a, b);
            assert(with_b == placed(rest, b).push(last));
            assert(with_b.drop_last() =~= placed(rest, b));
        }
    }
}

/// What is read off a log does not change where two neighbours trade places.
proof fn lemma_neighbours_trade_places(
    events: Seq<LoggedEvent>,
    swapped: Seq<LoggedEvent>,
    i: int,
    run: RunId,
    boundary: Option<u64>,
)
    requires
        0 <= i < events.len() - 1,
        events[i].event_id != events[i + 1].event_id,
        swapped == events.update(i, events[i + 1]).update(i + 1, events[i]),
    ensures
        turn_boundary(swapped, run) == turn_boundary(events, run),
        seal_id(swapped, run) == seal_id(events, run),
        reasoning_pieces(swapped, run, boundary) == reasoning_pieces(events, run, boundary),
        reasoning_cursor(swapped, run, boundary) == reasoning_cursor(events, run, boundary),
    decreases events.len(),
{
    let n = events.len() as int;
    let rest = events.drop_last();
    let other = swapped.drop_last();
    if i < n - 2 {
        assert(other =~= rest.update(i, rest[i + 1]).update(i + 1, rest[i]));
        lemma_neighbours_trade_places(rest, other, i, run, boundary);
        assert(swapped.last() == events.last());
    } else {
        let a = events[n - 2];
        let b = events[n - 1];
        let head = rest.drop_last();
        assert(other.drop_last() =~= head);
        assert(rest.last() == a && other.last() == b && swapped.last() == a);
        reveal_with_fuel(turn_boundary, 3);
        reveal_with_fuel(seal_id, 3);
        reveal_with_fuel(reasoning_cursor, 3);
        reveal_with_fuel(reasoning_pieces, 3);
        let before = reasoning_pieces(head, run, boundary);
        if a.text is Some && b.text is Some {
            let first = (a.event_id, a.text->0@);
            let second = (b.event_id, b.text->0@);
            if a.event_id < b.event_id {
                lemma_placing_commutes(before, first, second);
            } else {
                lemma_placing_commutes(before, second, first);
            }
        }
    }
}

/// What is read of a run's reasoning depends on the numbers of the events and
/// not on where they stand in the log: two neighbours with different numbers may
/// trade places.
pub proof fn law_numbers_and_not_places_count(
    run: RunId,
    before: RunStatus,
    fresh: Option<RunStatus>,
    events: Vec<LoggedEvent>,
    swapped: Vec<LoggedEvent>,
    i: int,
    first: Reasoning<String>,
    second: Reasoning<String>,
)
    requires
        0 <= i < events@.len() - 1,
        events@[i].event_id != events@[i + 1].event_id,
        swapped@ == events@.update(i, events@[i + 1]).update(i + 1, events@[i]),
        call_ensures(get_run_reasoning, (run, Some(before), &events, fresh), Ok(first)),
        call_ensures(get_run_reasoning, (run, Some(before), &swapped, fresh), Ok(second)),
    ensures
        first.text@ == second.text@,
        first.last_event_id == second.last_event_id,
        first.terminal == second.terminal,
        first.seal_event_id == second.seal_event_id,
{
    lemma_neighbours_trade_places(events@, swapped@, i, run, turn_boundary(events@, run));
    assert(first@.text == second@.text);
    assert(first@.last_event_id == second@.last_event_id);
    assert(first@.seal_event_id == second@.seal_event_id);
}

/// An entry of a listing names the trigger that is derived for its run and the
/// context that it shows.
pub proof fn law_entry_names_its_trigger(
    run: Run,
    context_id: Option<String>,
    tool_calls: Option<u32>,
    entry: AgentRunEntry,
    context: &str,
    trigger: String,
    kind: &'static str,
)
    requires
        call_ensures(enrich_run, (run, context_id, tool_calls), entry),
        context@ == entry.context_id@,
        call_ensures(derive_trigger, (&run, context), trigger),
        call_ensures(classify_session_type, (context,), kind),
    ensures
        entry.trigger@ == trigger@,
        context_id is Some ==> entry.session_type@ == kind@,
{
}

} // verus!
