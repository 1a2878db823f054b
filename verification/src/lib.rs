//! The decisions behind a gateway's agent runs: what a request is answered,
//! what a run's exit publishes, which follow-up runs an event produces, and
//! when a scheduled job counts as finished. Every function here maps plain
//! values to plain values; performing the effects is left to the caller.

pub mod admission;
pub mod admission_laws;
pub mod cancel;
pub mod clock;
pub mod completion;
pub mod context;
pub mod create;
pub mod dm_notice;
pub mod enqueue;
pub mod episode_laws;
pub mod execution;
pub mod execution_laws;
pub mod guard;
pub mod ids;
pub mod job_card;
pub mod job_episode;
pub mod job_laws;
pub mod jobs;
pub mod launch;
pub mod markers;
pub mod messages;
pub mod metadata;
pub mod notice_laws;
pub mod outcome_laws;
pub mod peer;
pub mod queue;
pub mod read_api;
pub mod read_laws;
pub mod rearm;
pub mod replies;
pub mod reply_laws;
pub mod request_laws;
pub mod runtime_plan;
pub mod start_laws;
pub mod streaming;
pub mod text;
pub mod text_laws;
pub mod tool_calls;
pub mod trigger_laws;
pub mod triggers;
