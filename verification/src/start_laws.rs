//! What runs are started with, and what their runtimes may do, stated of the
//! operations and their results.

use crate::context::{
    dm_names, extract_peer_from_dm_context, find_user_facing_session, internal_context,
    is_internal_context_id, lemma_colon_at, lemma_user_facing, text_of, Session,
};
use crate::execution::{RunFacts, RunSetting};
use crate::ids::{
    id_text, job_context_id, job_for_context, law_id_text_reads_back, law_job_context_reads_back,
    parse_id, uuid_text, AgentId, JobId, RunId, SessionId,
};
use crate::launch::{
    launch_job, launch_requested, launch_triggered, run_setting, Launch, RunParams, RunRequest,
};
use crate::messages::{Message, Role};
use crate::metadata::flag_value;
use crate::notice_laws::{noted, shown};
use crate::runtime_plan::{
    apply_send_message_fold, begin_notification_input, choose_input_mode, notification_message,
    persist_notification_input, plan_runtime, resolve_posture_for_run, run_facts, AgentSetup,
    InputMode, InputStore, Posture, RuntimePlan, SendFold,
};
use crate::text::{after, begins_with};
use vstd::prelude::*;

verus! {

/// A run that a client asked for is stored, executed and announced as that run:
/// queued, under no job, with the client's words, which are in the session
/// already. A person is behind it, and it may message anyone.
pub proof fn law_requested_run_is_the_clients(
    run: RunId,
    session: SessionId,
    agent: AgentId,
    context_id: String,
    input: String,
    r: Launch<String>,
)
    requires
        call_ensures(launch_requested, (run, session, agent, context_id, input), r),
    ensures
        r.record.run_id == run && r.params.run_id == run && r.created.run_id == run,
        r.record.session_id == session && r.params.session_id == session,
        r.created.session_id == session,
        r.record.agent_id == agent && r.params.agent_id == agent,
        r.record.input@ == input@ && r.params.input@ == input@,
        r.params.context_id@ == context_id@,
        r.record.status is Queued,
        r.record.job_id is None,
        !r.params.is_peer_message,
        !r.params.is_system_triggered,
        !r.created.system,
        r.params.input_pre_persisted,
        r.params.dm_ended_peer is None,
        r.created.source@ == "user"@,
{
    assert(r@.params.dm_ended_peer is None);
    assert(r@.record.input == input@);
    assert(r@.created.source == "user"@);
}

/// A triggered run is stored, executed and announced as its request says:
/// queued, under the request's job, with an input that is not in the session
/// yet. The system is behind it, and it may not message whom the request names.
pub proof fn law_triggered_run_is_what_was_requested(
    run: RunId,
    request: RunRequest<String>,
    r: Launch<String>,
)
    requires
        call_ensures(launch_triggered, (run, request), r),
    ensures
        r.record.run_id == run && r.params.run_id == run && r.created.run_id == run,
        r.record.session_id == request.session_id,
        r.params.session_id == request.session_id,
        r.created.session_id == request.session_id,
        r.record.agent_id == request.agent_id && r.params.agent_id == request.agent_id,
        r.record.input@ == request.input@ && r.params.input@ == request.input@,
        r.params.context_id@ == request.context_id@,
        r.record.status is Queued,
        r.record.job_id == request.job_id,
        r.params.is_peer_message == request.is_peer_message,
        r.params.is_system_triggered,
        r.created.system,
        !r.params.input_pre_persisted,
        text_of(r.params.dm_ended_peer) == text_of(request.dm_ended_peer),
        r.created.source@ == request.source_label@,
{
    assert(r@.record.input == request.input@);
    assert(r@.params.dm_ended_peer == text_of(request.dm_ended_peer));
    assert(r@.created.source == request.source_label@);
}

/// The first turn of a job runs for that job, with its prompt, in the job's own
/// context: the context id reads back as the job.
pub proof fn law_job_runs_in_its_own_context(
    run: RunId,
    session: SessionId,
    agent: AgentId,
    job: JobId,
    prompt: String,
    r: Launch<String>,
    context: &str,
    found: Option<JobId>,
)
    requires
        call_ensures(launch_job, (run, session, agent, job, prompt), r),
        context@ == r.params.context_id@,
        call_ensures(job_for_context, (context,), found),
    ensures
        found == Some(job),
        r.params.context_id@ == "job_"@ + uuid_text(job),
        r.record.job_id == Some(job),
        r.record.run_id == run && r.params.run_id == run && r.created.run_id == run,
        r.record.session_id == session && r.params.session_id == session,
        r.created.session_id == session,
        r.record.agent_id == agent && r.params.agent_id == agent,
        r.record.input@ == prompt@ && r.params.input@ == prompt@,
        r.record.status is Queued,
        !r.params.is_peer_message,
        r.params.is_system_triggered,
        r.created.system,
        !r.params.input_pre_persisted,
        r.params.dm_ended_peer is None,
        r.created.source@ == "job"@,
{
    law_job_context_reads_back(job);
    assert(r@.params.context_id == "job_"@ + uuid_text(job));
    assert(r@.record.input == prompt@);
    assert(r@.created.source == "job"@);
    assert(r@.params.dm_ended_peer is None);
}

/// A context id is a job's exactly when it is `job_` and an identifier behind
/// it, and then it is that job's; the context id that is written for a job is
/// such a one.
pub proof fn law_context_names_its_job(
    context_id: &str,
    found: Option<JobId>,
    rest: &str,
    parsed: Option<u128>,
)
    requires
        call_ensures(job_for_context, (context_id,), found),
        call_ensures(parse_id, (rest,), parsed),
    ensures
        context_id@ == "job_"@ + rest@ ==> found == parsed,
        !begins_with(context_id@, "job_"@) ==> found is None,
{
    if context_id@ == "job_"@ + rest@ {
        assert(context_id@.subrange(0, "job_"@.len() as int) =~= "job_"@);
        assert(after(context_id@, "job_"@.len() as int) =~= rest@);
    }
}

/// The context id that is written for a job leads back to that job and to no
/// other.
pub proof fn law_job_context_leads_back(
    job: JobId,
    written: String,
    context_id: &str,
    found: Option<JobId>,
)
    requires
        call_ensures(job_context_id, (job,), written),
        context_id@ == written@,
        call_ensures(job_for_context, (context_id,), found),
    ensures
        found == Some(job),
        begins_with(written@, "job_"@),
{
    law_job_context_reads_back(job);
    assert(written@ == "job_"@ + uuid_text(job));
    assert(written@.subrange(0, "job_"@.len() as int) =~= "job_"@);
}

/// What is written for an identifier reads back as that identifier.
pub proof fn law_written_id_reads_back(id: u128, written: String, text: &str, read: Option<u128>)
    requires
        call_ensures(id_text, (id,), written),
        text@ == written@,
        call_ensures(parse_id, (text,), read),
    ensures
        read == Some(id),
{
    law_id_text_reads_back(id);
}

/// The setting of a run is read off its parameters; the session is internal
/// exactly when its context id has one of the internal prefixes.
pub proof fn law_setting_is_read_off_the_run(params: RunParams<String>, r: RunSetting)
    requires
        call_ensures(run_setting, (&params,), r),
    ensures
        r.input_pre_persisted == params.input_pre_persisted,
        r.is_system_triggered == params.is_system_triggered,
        r.internal <==> begins_with(params.context_id@, "job_"@) || begins_with(
            params.context_id@,
            "subagent_"@,
        ) || begins_with(params.context_id@, "dm:"@) || begins_with(
            params.context_id@,
            "notifications:"@,
        ) || begins_with(params.context_id@, "episodic:"@),
{
}

/// A session is internal exactly when its context id begins as one of a job, a
/// subagent, a conversation between agents, a notification inbox or an episodic
/// memory does.
pub proof fn law_five_prefixes_are_internal(context_id: &str, r: bool)
    requires
        call_ensures(is_internal_context_id, (context_id,), r),
    ensures
        r <==> begins_with(context_id@, "job_"@) || begins_with(context_id@, "subagent_"@)
            || begins_with(context_id@, "dm:"@) || begins_with(context_id@, "notifications:"@)
            || begins_with(context_id@, "episodic:"@),
{
}

/// The user-facing session of an agent is the first in the list that is the
/// agent's and not internal, and there is none exactly when no session is.
pub proof fn law_first_suitable_session_is_found(
    sessions: Vec<Session>,
    agent: AgentId,
    r: Option<&Session>,
    n: int,
)
    requires
        call_ensures(find_user_facing_session, (&sessions, agent), r),
        0 <= n <= sessions@.len(),
        forall|j: int|
            0 <= j < n ==> (#[trigger] sessions@[j]).agent_id != agent || internal_context(
                sessions@[j].context_id@,
            ),
        n < sessions@.len() ==> sessions@[n].agent_id == agent && !internal_context(
            sessions@[n].context_id@,
        ),
    ensures
        n == sessions@.len() ==> r is None,
        n < sessions@.len() ==> (r matches Some(s) && s.id == sessions@[n].id && s.agent_id == agent
            && !internal_context(s.context_id@)),
{
    assert forall|j: int| 0 <= j < n implies !crate::context::faces_user(
        #[trigger] sessions@[j],
        agent,
    ) by {}
    lemma_user_facing(sessions@, agent, n);
}

/// Seen from either party of a conversation, the peer is the other one; for
/// anybody else there is none.
pub proof fn law_peer_is_the_other_party(
    first: Seq<char>,
    second: Seq<char>,
    context_id: &str,
    agent: &str,
    r: Option<String>,
)
    requires
        context_id@ == "dm:"@ + first + ":"@ + second,
        forall|i: int| 0 <= i < first.len() ==> first[i] != ':',
        call_ensures(extract_peer_from_dm_context, (context_id, agent), r),
    ensures
        agent@ == first ==> text_of(r) == Some(second),
        agent@ == second && first != second ==> text_of(r) == Some(first),
        agent@ != first && agent@ != second ==> r is None,
{
    reveal_strlit(":");
    let d = "dm:"@.len() as int;
    let names = after(context_id@, d);
    assert(context_id@.subrange(0, d) =~= "dm:"@);
    assert(names =~= first + ":"@ + second);
    let n = first.len() as int;
    assert forall|j: int| 0 <= j < n implies names[j] != ':' by {
        assert(names[j] == first[j]);
    }
    assert(names[n] == ":"@[0]);
    lemma_colon_at(names, n);
    assert(names.subrange(0, n) =~= first);
    assert(after(names, n + 1) =~= second);
    assert(dm_names(context_id@) == Some((first, second)));
}

/// A context id that is no conversation's, or names only one party, names no
/// peer.
pub proof fn law_other_contexts_name_no_peer(
    context_id: &str,
    agent: &str,
    r: Option<String>,
    only: Seq<char>,
)
    requires
        !begins_with(context_id@, "dm:"@) || context_id@ == "dm:"@ + only,
        forall|i: int| 0 <= i < only.len() ==> only[i] != ':',
        call_ensures(extract_peer_from_dm_context, (context_id, agent), r),
    ensures
        r is None,
{
    if begins_with(context_id@, "dm:"@) {
        let names = after(context_id@, "dm:"@.len() as int);
        assert(names =~= only);
        lemma_colon_at(names, names.len() as int);
        assert(dm_names(context_id@) is None);
    }
}

/// Only a guarded posture changes, and only where the system triggered the run:
/// nobody would be there to approve anything.
pub proof fn law_posture_gives_way_only_unattended(posture: Posture, system: bool, r: Posture)
    requires
        call_ensures(resolve_posture_for_run, (posture, system), r),
    ensures
        system && posture is Guarded ==> r is Autonomous,
        !(system && posture is Guarded) ==> r == posture,
{
}

/// A run that answers a peer holds back what it would send to that peer; any
/// other run holds back what it would send to the peer whose conversation has
/// ended, if there is one.
pub proof fn law_fold_names_the_right_peer(
    peer_message: bool,
    context_id: &str,
    agent: &str,
    ended: Option<String>,
    r: SendFold<String>,
    peer: Option<String>,
)
    requires
        call_ensures(apply_send_message_fold, (peer_message, context_id, agent, ended), r),
        call_ensures(extract_peer_from_dm_context, (context_id, agent), peer),
    ensures
        peer_message ==> (r matches SendFold::CurrentPeer(p) && text_of(p) == text_of(peer)),
        !peer_message ==> (r matches SendFold::EndedPeer(p) && text_of(p) == text_of(ended)),
{
    assert(r@ == match r {
        SendFold::CurrentPeer(p) => SendFold::CurrentPeer(text_of(p)),
        SendFold::EndedPeer(p) => SendFold::EndedPeer(text_of(p)),
    });
}

/// An input that is in the session already is not put there again. Of the
/// others, one that a person typed goes in with the run; one of the system is
/// stored as a notification where a person looks, and goes in with the run
/// where nobody does.
pub proof fn law_input_is_stored_once(
    peer_message: bool,
    pre_persisted: bool,
    system: bool,
    context_id: &str,
    r: InputMode,
    internal: bool,
)
    requires
        call_ensures(choose_input_mode, (peer_message, pre_persisted, system, context_id), r),
        call_ensures(is_internal_context_id, (context_id,), internal),
    ensures
        r is OnSession <==> peer_message || pre_persisted,
        r is StoreThenOnSession <==> !peer_message && !pre_persisted && system && !internal,
        r is EnsureSessionThenRun <==> !peer_message && !pre_persisted && system && internal,
        r is Run <==> !peer_message && !pre_persisted && !system,
{
}

/// How the runtime of a run is set up follows from its agent and its origin:
/// an agent without a name has no workspace, no message tools and no access
/// beyond the project; full access goes only to a named agent on the operator's
/// list; and only a run that answers a peer in a conversation replies with its
/// final text.
pub proof fn law_runtime_gives_only_what_is_due(
    run: RunParams<String>,
    agent: AgentSetup,
    r: RuntimePlan,
    posture: Posture,
    mode: InputMode,
    context_id: &str,
)
    requires
        call_ensures(plan_runtime, (&run, agent), r),
        context_id@ == run.context_id@,
        call_ensures(
            choose_input_mode,
            (run.is_peer_message, run.input_pre_persisted, run.is_system_triggered, context_id),
            mode,
        ),
        call_ensures(resolve_posture_for_run, (agent.posture, run.is_system_triggered), posture),
    ensures
        r.posture == posture,
        r.input_mode == mode,
        r.sandbox is Unrestricted <==> agent.agent_name is Some && agent.full_os_access,
        r.sandbox is Worktree <==> agent.agent_name is Some && !agent.full_os_access
            && agent.git_worktree,
        r.attach_workspace <==> agent.workspace_configured && agent.agent_name is Some,
        r.bootstrap_prompt <==> r.attach_workspace && agent.needs_bootstrap,
        r.implicit_dm_reply <==> run.is_peer_message && begins_with(run.context_id@, "dm:"@),
        r.ignore_tool <==> agent.agent_name is Some && begins_with(run.context_id@, "dm:"@),
        r.summarise <==> agent.summaries_on && agent.has_source_label,
        r.dedicated_summary_client <==> agent.summary_provider is Some,
        agent.summary_model is Some ==> text_of(r.summary_model) == text_of(agent.summary_model),
        agent.summary_model is None && agent.summary_provider is Some ==> r.summary_model is None,
        agent.summary_model is None && agent.summary_provider is None ==> text_of(r.summary_model)
            == Some(agent.agent_model@),
        r.send_fold is Some <==> agent.agent_name is Some,
        agent.agent_name is None ==> r.webchat_peer is None,
{
}

/// The runtime of a named agent's run holds back the messages that the fold
/// says, and shows the peer that the context id names.
pub proof fn law_runtime_holds_back_the_folded_peer(
    run: RunParams<String>,
    agent: AgentSetup,
    r: RuntimePlan,
    context_id: &str,
    name: &str,
    peer: Option<String>,
)
    requires
        call_ensures(plan_runtime, (&run, agent), r),
        context_id@ == run.context_id@,
        text_of(agent.agent_name) == Some(name@),
        call_ensures(extract_peer_from_dm_context, (context_id, name), peer),
    ensures
        text_of(r.webchat_peer) == text_of(peer),
        run.is_peer_message ==> (r.send_fold matches Some(SendFold::CurrentPeer(p)) && text_of(p)
            == text_of(peer)),
        !run.is_peer_message ==> (r.send_fold matches Some(SendFold::EndedPeer(p)) && text_of(p)
            == text_of(run.dm_ended_peer)),
{
    let fold = r.send_fold->0;
    assert(fold@ == match fold {
        SendFold::CurrentPeer(p) => SendFold::CurrentPeer(text_of(p)),
        SendFold::EndedPeer(p) => SendFold::EndedPeer(text_of(p)),
    });
}

/// What the execution is told of the plan.
pub proof fn law_facts_are_read_off_the_plan(plan: RuntimePlan, r: RunFacts)
    requires
        call_ensures(run_facts, (&plan,), r),
    ensures
        r.summarise == plan.summarise,
        r.dm_peer <==> plan.webchat_peer is Some,
{
}

/// A stored notification holds the input as the user's turn, dated, and flagged
/// as a notification and as nothing else.
pub proof fn law_notification_is_flagged(input: String, at: i64, r: Message, key: Seq<char>)
    requires
        call_ensures(notification_message, (input, at), r),
    ensures
        r.role == Role::User,
        shown(r) == input@,
        r.content is Text,
        r.timestamp == at,
        noted(r, "notification_input"@) == Some(flag_value(true)),
        key != "notification_input"@ ==> noted(r, key) is None,
{
}

/// Where there is a durable store, a notification is written to it first; where
/// there is none, it goes into the session at once.
pub proof fn law_store_comes_first(has_store: bool, r: InputStore<String>)
    requires
        call_ensures(begin_notification_input, (has_store,), r),
    ensures
        has_store ==> r is SaveMessage,
        !has_store ==> r is AppendMessage,
{
    assert(r@ is SaveMessage <==> r is SaveMessage);
    assert(r@ is AppendMessage <==> r is AppendMessage);
}

/// Storing a notification goes through its writes in order. The first that
/// fails ends it with its error, except that the session's activity need not be
/// written; what is settled stays so.
pub proof fn law_failed_store_is_told(
    step: InputStore<String>,
    result: Result<(), String>,
    r: InputStore<String>,
)
    requires
        call_ensures(persist_notification_input, (step, result), r),
    ensures
        step is SaveMessage && result is Ok ==> r is AppendPersisted,
        step is AppendPersisted && result is Ok ==> r is SaveSession,
        step is AppendMessage && result is Ok ==> r is Stored,
        step is SaveSession ==> r is Stored,
        step is Stored ==> r is Stored,
        step matches InputStore::Failed(e) ==> (r matches InputStore::Failed(kept) && kept@ == e@),
        result matches Err(e) ==> (step is SaveMessage || step is AppendPersisted || step
            is AppendMessage ==> (r matches InputStore::Failed(kept) && kept@ == e@)),
{
    assert(r@ == match r {
        InputStore::SaveMessage => InputStore::SaveMessage,
        InputStore::AppendPersisted => InputStore::AppendPersisted,
        InputStore::SaveSession => InputStore::SaveSession,
        InputStore::AppendMessage => InputStore::AppendMessage,
        InputStore::Stored => InputStore::Stored,
        InputStore::Failed(e) => InputStore::Failed(e@),
    });
}

} // verus!
