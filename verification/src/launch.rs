//! What a run is recorded, announced and executed with, for each way in which
//! a run comes about: a client asks for it, an event triggers it, or a job
//! fires.

use crate::context::{internal_context, is_internal_context_id, text_of};
use crate::execution::RunSetting;
use crate::ids::{job_context, job_context_id, AgentId, JobId, RunId, SessionId};
use crate::job_card::RunStatus;
use vstd::prelude::*;
use vstd::string::*;

verus! {

/// A run that the gateway starts by itself, as the event behind it asks for it.
#[derive(Debug, Clone, PartialEq, Eq)]
pub struct RunRequest<S> {
    /// The agent that runs.
    pub agent_id: AgentId,
    /// The session it runs on.
    pub session_id: SessionId,
    /// The context id of that session.
    pub context_id: S,
    /// What the agent is told.
    pub input: S,
    /// What started the run, in a word.
    pub source_label: S,
    /// The run answers a peer's message.
    pub is_peer_message: bool,
    /// The job whose episode the run continues.
    pub job_id: Option<JobId>,
    /// The peer whose conversation has just ended.
    pub dm_ended_peer: Option<S>,
}

impl RunRequest<String> {
    /// The mathematical reading.
    pub open spec fn view(&self) -> RunRequest<Seq<char>> {
        RunRequest {
            agent_id: self.agent_id,
            session_id: self.session_id,
            context_id: self.context_id@,
            input: self.input@,
            source_label: self.source_label@,
            is_peer_message: self.is_peer_message,
            job_id: self.job_id,
            dm_ended_peer: text_of(self.dm_ended_peer),
        }
    }
}

/// What a run is stored with.
#[derive(Debug, Clone, PartialEq, Eq)]
pub struct RunRecord<S> {
    /// The run.
    pub run_id: RunId,
    /// The session it runs on.
    pub session_id: SessionId,
    /// The agent that runs.
    pub agent_id: AgentId,
    /// What the agent is told.
    pub input: S,
    /// The job whose episode the run belongs to.
    pub job_id: Option<JobId>,
    /// Its state.
    pub status: RunStatus,
}

impl RunRecord<String> {
    /// The mathematical reading.
    pub open spec fn view(&self) -> RunRecord<Seq<char>> {
        RunRecord {
            run_id: self.run_id,
            session_id: self.session_id,
            agent_id: self.agent_id,
            input: self.input@,
            job_id: self.job_id,
            status: self.status,
        }
    }
}

/// What a run executes with.
#[derive(Debug, Clone, PartialEq, Eq)]
pub struct RunParams<S> {
    /// The run.
    pub run_id: RunId,
    /// The session it runs on.
    pub session_id: SessionId,
    /// The agent that runs.
    pub agent_id: AgentId,
    /// What the agent is told.
    pub input: S,
    /// The context id of the session.
    pub context_id: S,
    /// The run answers a peer's message, which is in the session already.
    pub is_peer_message: bool,
    /// No person asked for the run, and none is there to approve anything.
    pub is_system_triggered: bool,
    /// The input was stored when the run was accepted.
    pub input_pre_persisted: bool,
    /// The peer whose conversation has just ended, and whom the run may not
    /// message.
    pub dm_ended_peer: Option<S>,
}

impl RunParams<String> {
    /// The mathematical reading.
    pub open spec fn view(&self) -> RunParams<Seq<char>> {
        RunParams {
            run_id: self.run_id,
            session_id: self.session_id,
            agent_id: self.agent_id,
            input: self.input@,
            context_id: self.context_id@,
            is_peer_message: self.is_peer_message,
            is_system_triggered: self.is_system_triggered,
            input_pre_persisted: self.input_pre_persisted,
            dm_ended_peer: text_of(self.dm_ended_peer),
        }
    }
}

/// The event `run_created`, but for how many runs it waits for.
#[derive(Debug, Clone, PartialEq, Eq)]
pub struct RunCreated<S> {
    /// The run.
    pub run_id: RunId,
    /// The session whose subscribers are told.
    pub session_id: SessionId,
    /// No person asked for the run.
    pub system: bool,
    /// What started the run, in a word.
    pub source: S,
}

impl RunCreated<String> {
    /// The mathematical reading.
    pub open spec fn view(&self) -> RunCreated<Seq<char>> {
        RunCreated {
            run_id: self.run_id,
            session_id: self.session_id,
            system: self.system,
            source: self.source@,
        }
    }
}

/// All that a run is started with.
#[derive(Debug, Clone, PartialEq, Eq)]
pub struct Launch<S> {
    /// What it is stored with.
    pub record: RunRecord<S>,
    /// What it executes with.
    pub params: RunParams<S>,
    /// How it is announced.
    pub created: RunCreated<S>,
}

impl Launch<String> {
    /// The mathematical reading.
    pub open spec fn view(&self) -> Launch<Seq<char>> {
        Launch { record: self.record@, params: self.params@, created: self.created@ }
    }
}

/// A run that a client asked for. Its input is stored with it.
pub open spec fn requested_launch(
    run: RunId,
    session: SessionId,
    agent: AgentId,
    context_id: Seq<char>,
    input: Seq<char>,
) -> Launch<Seq<char>> {
    Launch {
        record: RunRecord {
            run_id: run,
            session_id: session,
            agent_id: agent,
            input,
            job_id: None,
            status: RunStatus::Queued,
        },
        params: RunParams {
            run_id: run,
            session_id: session,
            agent_id: agent,
            input,
            context_id,
            is_peer_message: false,
            is_system_triggered: false,
            input_pre_persisted: true,
            dm_ended_peer: None,
        },
        created: RunCreated { run_id: run, session_id: session, system: false, source: "user"@ },
    }
}

/// Puts together what a run that a client asked for is started with.
pub fn launch_requested(
    run_id: RunId,
    session_id: SessionId,
    agent_id: AgentId,
    context_id: String,
    input: String,
) -> (r: Launch<String>)
    ensures
        r@ == requested_launch(run_id, session_id, agent_id, context_id@, input@),
{
    Launch {
        record: RunRecord {
            run_id,
            session_id,
            agent_id,
            input: input.clone(),
            job_id: None,
            status: RunStatus::Queued,
        },
        params: RunParams {
            run_id,
            session_id,
            agent_id,
            input,
            context_id,
            is_peer_message: false,
            is_system_triggered: false,
            input_pre_persisted: true,
            dm_ended_peer: None,
        },
        created: RunCreated { run_id, session_id, system: false, source: "user".to_owned() },
    }
}

/// A run that an event triggered: all that the request says of it is kept, and
/// the system is behind it.
pub open spec fn triggered_launch(run: RunId, request: RunRequest<Seq<char>>) -> Launch<Seq<char>> {
    Launch {
        record: RunRecord {
            run_id: run,
            session_id: request.session_id,
            agent_id: request.agent_id,
            input: request.input,
            job_id: request.job_id,
            status: RunStatus::Queued,
        },
        params: RunParams {
            run_id: run,
            session_id: request.session_id,
            agent_id: request.agent_id,
            input: request.input,
            context_id: request.context_id,
            is_peer_message: request.is_peer_message,
            is_system_triggered: true,
            input_pre_persisted: false,
            dm_ended_peer: request.dm_ended_peer,
        },
        created: RunCreated {
            run_id: run,
            session_id: request.session_id,
            system: true,
            source: request.source_label,
        },
    }
}

/// Puts together what a run that an event triggered is started with.
pub fn launch_triggered(run_id: RunId, request: RunRequest<String>) -> (r: Launch<String>)
    ensures
        r@ == triggered_launch(run_id, request@),
{
    Launch {
        record: RunRecord {
            run_id,
            session_id: request.session_id,
            agent_id: request.agent_id,
            input: request.input.clone(),
            job_id: request.job_id,
            status: RunStatus::Queued,
        },
        params: RunParams {
            run_id,
            session_id: request.session_id,
            agent_id: request.agent_id,
            input: request.input,
            context_id: request.context_id,
            is_peer_message: request.is_peer_message,
            is_system_triggered: true,
            input_pre_persisted: false,
            dm_ended_peer: request.dm_ended_peer,
        },
        created: RunCreated {
            run_id,
            session_id: request.session_id,
            system: true,
            source: request.source_label,
        },
    }
}

/// The first turn of a job that fired, in the job's own context.
pub open spec fn job_launch(
    run: RunId,
    session: SessionId,
    agent: AgentId,
    job: JobId,
    prompt: Seq<char>,
) -> Launch<Seq<char>> {
    triggered_launch(
        run,
        RunRequest {
            agent_id: agent,
            session_id: session,
            context_id: job_context(job),
            input: prompt,
            source_label: "job"@,
            is_peer_message: false,
            job_id: Some(job),
            dm_ended_peer: None,
        },
    )
}

/// Puts together what the first turn of a job that fired is started with.
pub fn launch_job(
    run_id: RunId,
    session_id: SessionId,
    agent_id: AgentId,
    job_id: JobId,
    prompt: String,
) -> (r: Launch<String>)
    ensures
        r@ == job_launch(run_id, session_id, agent_id, job_id, prompt@),
{
    launch_triggered(
        run_id,
        RunRequest {
            agent_id,
            session_id,
            context_id: job_context_id(job_id),
            input: prompt,
            source_label: "job".to_owned(),
            is_peer_message: false,
            job_id: Some(job_id),
            dm_ended_peer: None,
        },
    )
}

/// What is fixed about the execution of a run with these parameters.
pub open spec fn setting_of(params: RunParams<Seq<char>>) -> RunSetting {
    RunSetting {
        input_pre_persisted: params.input_pre_persisted,
        internal: internal_context(params.context_id),
        is_system_triggered: params.is_system_triggered,
    }
}

/// Reads off what is fixed about the execution of a run.
pub fn run_setting(params: &RunParams<String>) -> (r: RunSetting)
    ensures
        r == setting_of(params@),
{
    RunSetting {
        input_pre_persisted: params.input_pre_persisted,
        internal: is_internal_context_id(params.context_id.as_str()),
        is_system_triggered: params.is_system_triggered,
    }
}

/// What a run executes with agrees with its record and its announcement, and
/// only a run that a client asked for has its input stored beforehand.
pub proof fn law_launch_is_consistent(
    run: RunId,
    session: SessionId,
    agent: AgentId,
    context_id: Seq<char>,
    input: Seq<char>,
    request: RunRequest<Seq<char>>,
)
    ensures
        agree(requested_launch(run, session, agent, context_id, input)),
        agree(triggered_launch(run, request)),
        requested_launch(run, session, agent, context_id, input).params.input_pre_persisted,
        !triggered_launch(run, request).params.input_pre_persisted,
{
}

/// Record, parameters and announcement speak of the same run.
pub open spec fn agree(launch: Launch<Seq<char>>) -> bool {
    &&& launch.record.run_id == launch.params.run_id == launch.created.run_id
    &&& launch.record.session_id == launch.params.session_id == launch.created.session_id
    &&& launch.record.agent_id == launch.params.agent_id
    &&& launch.record.input == launch.params.input
    &&& launch.created.system == launch.params.is_system_triggered
}

} // verus!
