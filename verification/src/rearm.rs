//! Recording a job when its episode closes, and arming it again. A write that
//! fails is repeated a few times; a recurring job whose close cannot be
//! stored is still armed for its next occurrence, so it never stops silently.

use crate::clock::{valid_instant, valid_optional, Nanos};
use crate::jobs::{doubled, JOB_REARM_MAX_ATTEMPTS, JOB_REARM_RETRY_BASE_MS};
use vstd::prelude::*;

verus! {

/// When a job runs.
#[derive(Debug, Clone, Copy, PartialEq, Eq, Structural)]
pub enum Schedule {
    /// Once.
    Once,
    /// Again and again.
    Recurring {
        /// The first occurrence after the episode was opened.
        after_start: Option<Nanos>,
        /// The first occurrence after now.
        next: Option<Nanos>,
    },
}

/// The status that a job is recorded with.
#[derive(Debug, Clone, Copy, PartialEq, Eq, Structural)]
pub enum JobStatus {
    /// It will run again.
    Active,
    /// It is over.
    Completed,
}

/// Why a job is over.
#[derive(Debug, Clone, Copy, PartialEq, Eq, Structural)]
pub enum TerminalReason {
    /// Its episode came to rest.
    Completed,
    /// Its episode ran into its deadline.
    DeadlineReached,
}

/// What is written to a job's record.
#[derive(Debug, Clone, Copy, PartialEq, Eq, Structural)]
pub struct CloseWrite {
    /// The new status.
    pub status: JobStatus,
    /// When it runs next.
    pub next_run_at: Option<Nanos>,
    /// Why it is over.
    pub terminal_reason: Option<TerminalReason>,
}

/// At least one occurrence of a recurring job passed while its episode was
/// open, or a firing was absorbed meanwhile.
pub open spec fn missed(schedule: Schedule, catch_up_queued: bool, now: Nanos) -> bool {
    match schedule {
        Schedule::Once => false,
        Schedule::Recurring { after_start, next } => catch_up_queued || (after_start matches Some(
            t,
        ) && t <= now),
    }
}

/// What is written when an episode closes.
pub open spec fn close_write(
    schedule: Schedule,
    catch_up_queued: bool,
    timed_out: bool,
    now: Nanos,
) -> CloseWrite {
    match schedule {
        Schedule::Once => CloseWrite {
            status: JobStatus::Completed,
            next_run_at: None,
            terminal_reason: Some(
                if timed_out {
                    TerminalReason::DeadlineReached
                } else {
                    TerminalReason::Completed
                },
            ),
        },
        Schedule::Recurring { after_start, next } => CloseWrite {
            status: JobStatus::Active,
            next_run_at: if missed(schedule, catch_up_queued, now) {
                Some(now)
            } else {
                next
            },
            terminal_reason: None,
        },
    }
}

/// What the job store answered.
#[derive(Debug, Clone, Copy, PartialEq, Eq, Structural)]
pub enum RecordOutcome {
    /// The write was made.
    Recorded,
    /// The job is over: it was cancelled meanwhile.
    RefusedTerminal,
    /// The job is gone.
    NotFound,
}

/// Something that closing an episode makes happen.
#[derive(Debug, Clone, Copy, PartialEq, Eq, Structural)]
pub enum RearmEffect {
    /// Wait this many milliseconds and write again.
    RetryAfter(u64),
    /// Count a close that could not be stored.
    CountFailure,
    /// Fire the job now, once for all occurrences it missed.
    FireNow,
    /// Arm the job to fire after this many nanoseconds.
    ArmAfter(u128),
}

/// The close of an episode under way.
#[derive(Debug, Clone, Copy, PartialEq, Eq, Structural)]
pub struct RearmState {
    /// When the job runs.
    pub schedule: Schedule,
    /// It fired while its episode was open.
    pub catch_up_queued: bool,
    /// The episode ran into its deadline.
    pub timed_out: bool,
    /// When the episode closed.
    pub now: Nanos,
    /// The number of the current attempt, or zero when all is done.
    pub attempt: u32,
}

impl RearmState {
    /// The state is within the calendar's range, and an attempt is numbered
    /// from one up to the limit.
    pub open spec fn valid(self) -> bool {
        &&& valid_instant(self.now)
        &&& self.attempt <= JOB_REARM_MAX_ATTEMPTS
        &&& match self.schedule {
            Schedule::Once => true,
            Schedule::Recurring { after_start, next } => valid_optional(after_start)
                && valid_optional(next),
        }
    }
}

/// The time from `now` to `at`, or none when `at` has passed.
pub open spec fn delay_until(at: Nanos, now: Nanos) -> int {
    if at > now {
        at - now
    } else {
        0
    }
}

/// What arms a recurring job for its next occurrence, if it has one.
pub open spec fn armed_for(next: Option<Nanos>, now: Nanos) -> Seq<RearmEffect> {
    match next {
        Some(at) => seq![RearmEffect::ArmAfter(delay_until(at, now) as u128)],
        None => seq![],
    }
}

/// What follows a write that was made.
pub open spec fn recorded_effects(state: RearmState) -> Seq<RearmEffect> {
    match state.schedule {
        Schedule::Once => seq![],
        Schedule::Recurring { after_start, next } => if missed(
            state.schedule,
            state.catch_up_queued,
            state.now,
        ) {
            seq![RearmEffect::FireNow]
        } else {
            armed_for(next, state.now)
        },
    }
}

/// What follows a write that could not be made for good. The next occurrence
/// is used and not an immediate firing, so that a failing store cannot turn
/// every close into another firing.
pub open spec fn failed_effects(state: RearmState) -> Seq<RearmEffect> {
    seq![RearmEffect::CountFailure] + match state.schedule {
        Schedule::Once => seq![],
        Schedule::Recurring { after_start, next } => armed_for(next, state.now),
    }
}

/// One step: the answer to the current attempt leads to the next attempt or to
/// the end.
pub open spec fn rearm_step(state: RearmState, written: Option<RecordOutcome>) -> (
    RearmState,
    Seq<RearmEffect>,
) {
    if state.attempt == 0 {
        (state, seq![])
    } else {
        match written {
            Some(RecordOutcome::Recorded) => (
                RearmState { attempt: 0, ..state },
                recorded_effects(state),
            ),
            Some(_) => (RearmState { attempt: 0, ..state }, seq![]),
            None => if state.attempt < JOB_REARM_MAX_ATTEMPTS {
                (
                    RearmState { attempt: (state.attempt + 1) as u32, ..state },
                    seq![
                        RearmEffect::RetryAfter(
                            (JOB_REARM_RETRY_BASE_MS * doubled((state.attempt - 1) as nat)) as u64,
                        ),
                    ],
                )
            } else {
                (RearmState { attempt: 0, ..state }, failed_effects(state))
            },
        }
    }
}

/// Begins the close of an episode and says what is to be written.
pub fn begin_close(
    schedule: Schedule,
    catch_up_queued: bool,
    timed_out: bool,
    now: Nanos,
) -> (r: (RearmState, CloseWrite))
    ensures
        r.0 == (RearmState { schedule, catch_up_queued, timed_out, now, attempt: 1 }),
        r.1 == close_write(schedule, catch_up_queued, timed_out, now),
{
    let write: CloseWrite = match schedule {
        Schedule::Once => CloseWrite {
            status: JobStatus::Completed,
            next_run_at: None,
            terminal_reason: Some(
                if timed_out {
                    TerminalReason::DeadlineReached
                } else {
                    TerminalReason::Completed
                },
            ),
        },
        Schedule::Recurring { after_start, next } => CloseWrite {
            status: JobStatus::Active,
            next_run_at: if has_missed(schedule, catch_up_queued, now) {
                Some(now)
            } else {
                next
            },
            terminal_reason: None,
        },
    };
    (RearmState { schedule, catch_up_queued, timed_out, now, attempt: 1 }, write)
}

fn has_missed(schedule: Schedule, catch_up_queued: bool, now: Nanos) -> (r: bool)
    ensures
        r == missed(schedule, catch_up_queued, now),
{
    match schedule {
        Schedule::Once => false,
        Schedule::Recurring { after_start, next: _ } => {
            catch_up_queued || match after_start {
                Some(t) => t <= now,
                None => false,
            }
        },
    }
}

fn arm_for(out: &mut Vec<RearmEffect>, next: Option<Nanos>, now: Nanos)
    requires
        valid_instant(now),
        valid_optional(next),
    ensures
        final(out)@ == old(out)@ + armed_for(next, now),
{
    match next {
        Some(at) => {
            let delay: u128 = if at > now {
                (at - now) as u128
            } else {
                0
            };
            out.push(RearmEffect::ArmAfter(delay));
        },
        None => {},
    }
}

/// Takes the close of an episode one step further. `written` is the job
/// store's answer, or `None` when the write failed.
pub fn record_and_rearm(state: RearmState, written: Option<RecordOutcome>) -> (r: (
    RearmState,
    Vec<RearmEffect>,
))
    requires
        state.valid(),
    ensures
        (r.0, r.1@) == rearm_step(state, written),
        r.0.valid(),
{
    let mut out: Vec<RearmEffect> = Vec::new();
    if state.attempt == 0 {
        return (state, out);
    }
    match written {
        Some(RecordOutcome::Recorded) => {
            match state.schedule {
                Schedule::Once => {},
                Schedule::Recurring { after_start: _, next } => {
                    if has_missed(state.schedule, state.catch_up_queued, state.now) {
                        out.push(RearmEffect::FireNow);
                    } else {
                        arm_for(&mut out, next, state.now);
                    }
                },
            }
            (RearmState { attempt: 0, ..state }, out)
        },
        Some(_) => (RearmState { attempt: 0, ..state }, out),
        None => {
            if state.attempt < JOB_REARM_MAX_ATTEMPTS {
                proof {
                    reveal_with_fuel(doubled, 3);
                }
                let wait: u64 = if state.attempt == 1 {
                    JOB_REARM_RETRY_BASE_MS
                } else {
                    JOB_REARM_RETRY_BASE_MS * 2
                };
                out.push(RearmEffect::RetryAfter(wait));
                (RearmState { attempt: state.attempt + 1, ..state }, out)
            } else {
                out.push(RearmEffect::CountFailure);
                match state.schedule {
                    Schedule::Once => {},
                    Schedule::Recurring { after_start: _, next } => {
                        arm_for(&mut out, next, state.now);
                    },
                }
                (RearmState { attempt: 0, ..state }, out)
            }
        },
    }
}

/// A job that was cancelled while its episode was open is never armed again.
pub proof fn law_cancelled_job_is_not_resurrected(state: RearmState, outcome: RecordOutcome)
    requires
        outcome != RecordOutcome::Recorded,
    ensures
        rearm_step(state, Some(outcome)).1 == Seq::<RearmEffect>::empty(),
        rearm_step(state, Some(outcome)).0.attempt == 0,
{
}

/// The answers to all attempts of a close, one after the other.
pub open spec fn rearm_trace(state: RearmState, answers: Seq<Option<RecordOutcome>>) -> (
    RearmState,
    Seq<RearmEffect>,
)
    decreases answers.len(),
{
    if answers.len() == 0 {
        (state, seq![])
    } else {
        let (before, effects) = rearm_trace(state, answers.drop_last());
        let (after, more) = rearm_step(before, answers.last());
        (after, effects + more)
    }
}

/// The write that closes an episode is tried three times at most, whatever the
/// store answers.
pub proof fn law_close_is_tried_three_times(
    state: RearmState,
    a: Option<RecordOutcome>,
    b: Option<RecordOutcome>,
    c: Option<RecordOutcome>,
)
    requires
        state.attempt == 1,
    ensures
        rearm_trace(state, seq![a, b, c]).0.attempt == 0,
{
    reveal_with_fuel(rearm_trace, 4);
}

/// A recurring job whose close cannot be stored is counted and armed for its
/// next occurrence, never fired at once; it stops only if it has none.
pub proof fn law_failed_close_keeps_the_job_alive(
    state: RearmState,
    after_start: Option<Nanos>,
    next: Nanos,
)
    requires
        state.schedule == (Schedule::Recurring { after_start, next: Some(next) }),
        state.attempt == JOB_REARM_MAX_ATTEMPTS,
    ensures
        rearm_step(state, None) == (
            RearmState { attempt: 0, ..state },
            seq![
                RearmEffect::CountFailure,
                RearmEffect::ArmAfter(delay_until(next, state.now) as u128),
            ],
        ),
{
}

/// Occurrences that an episode outlived are caught up by one firing, however
/// many they were, and only when the close was recorded.
pub proof fn law_missed_occurrences_fire_once(state: RearmState)
    requires
        state.attempt > 0,
        missed(state.schedule, state.catch_up_queued, state.now),
    ensures
        rearm_step(state, Some(RecordOutcome::Recorded)).1 == seq![RearmEffect::FireNow],
        !rearm_step(state, None).1.contains(RearmEffect::FireNow),
        close_write(
            state.schedule,
            state.catch_up_queued,
            state.timed_out,
            state.now,
        ).next_run_at == Some(state.now),
{
    let effects = rearm_step(state, None).1;
}

} // verus!
