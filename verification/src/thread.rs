//! The thread handle: the conduit for the bidirectional stream of messages
//! that compose a thread.
use vstd::prelude::*;
use crate::error::RuneErr;
use vstd::string::StrSliceExecFns;
use crate::protocol::AskForApproval;
use crate::protocol::event_like;
use crate::protocol::Event;
use crate::protocol::Op;
use crate::protocol::Personality;
use crate::protocol::ReasoningEffort;
use crate::protocol::SandboxPolicy;
use crate::protocol::SessionSource;
use crate::protocol::Submission;
use crate::protocol::UserInput;
use crate::runtime::AgentStatus;
use crate::runtime::Clock;
use crate::runtime::SteerInputError;
use crate::runtime::ThreadRuntime;

verus! {

/// A handle to the state database that indexes threads by id.
#[derive(Clone, Debug, PartialEq, Eq)]
pub struct StateDbHandle {
    pub path: String,
}

/// The thread's effective configuration, as of now.
#[derive(Clone, Debug)]
pub struct ThreadConfigSnapshot {
    pub model: String,
    pub model_provider_id: String,
    pub approval_policy: AskForApproval,
    pub sandbox_policy: SandboxPolicy,
    pub cwd: String,
    pub reasoning_effort: Option<ReasoningEffort>,
    pub personality: Option<Personality>,
    pub session_source: SessionSource,
}

/// Two sandbox policies with the same shape and the same roots.
pub open spec fn sandbox_eq(a: SandboxPolicy, b: SandboxPolicy) -> bool {
    match (a, b) {
        (SandboxPolicy::ReadOnly, SandboxPolicy::ReadOnly) => true,
        (SandboxPolicy::DangerFullAccess, SandboxPolicy::DangerFullAccess) => true,
        (
            SandboxPolicy::WorkspaceWrite { grant_roots: x },
            SandboxPolicy::WorkspaceWrite { grant_roots: y },
        ) => x@ == y@,
        _ => false,
    }
}

fn clone_sandbox(p: &SandboxPolicy) -> (r: SandboxPolicy)
    ensures
        sandbox_eq(r, *p),
{
    match p {
        SandboxPolicy::ReadOnly => SandboxPolicy::ReadOnly,
        SandboxPolicy::DangerFullAccess => SandboxPolicy::DangerFullAccess,
        SandboxPolicy::WorkspaceWrite { grant_roots } => {
            let mut roots: Vec<String> = Vec::new();
            let n = grant_roots.len();
            for i in 0..n
                invariant
                    n == grant_roots@.len(),
                    roots@ =~= grant_roots@.take(i as int),
            {
                roots.push(grant_roots[i].clone());
                proof {
                    assert(roots@ =~= grant_roots@.take(i + 1));
                }
            }
            proof {
                assert(grant_roots@.take(n as int) =~= grant_roots@);
            }
            SandboxPolicy::WorkspaceWrite { grant_roots: roots }
        },
    }
}

/// A thread: the runtime plus what the manager resolved for it.
#[derive(Clone, Debug)]
pub struct RuneThread {
    pub rune: ThreadRuntime,
    pub rollout_path: Option<String>,
    pub state_db_handle: Option<StateDbHandle>,
}

impl RuneThread {
    pub open spec fn inv(self) -> bool {
        self.rune.inv()
    }

    pub fn new(rune: ThreadRuntime, rollout_path: Option<String>) -> (r: RuneThread)
        ensures
            r.rune == rune,
            r.rollout_path == rollout_path,
            r.state_db_handle is None,
    {
        RuneThread { rune, rollout_path, state_db_handle: None }
    }

    /// Submit an operation; its minted submission id comes back.
    pub fn submit(&mut self, op: Op, clock: &Clock) -> (r: Result<String, RuneErr>)
        requires
            old(self).inv(),
            old(self).rune.next_turn_index < u64::MAX,
            old(self).rune.next_submission_index < u64::MAX,
        ensures
            final(self).inv(),
            final(self).rollout_path == old(self).rollout_path,
            final(self).state_db_handle == old(self).state_db_handle,
            old(self).rune.shutdown_complete ==> r is Err && *final(self) == *old(self),
            !old(self).rune.shutdown_complete ==> (r matches Ok(sid) && sid@
                == crate::runtime::submission_id_view(old(self).rune.next_submission_index as nat)
                && ThreadRuntime::handles(
                (ThreadRuntime {
                    next_submission_index: (old(self).rune.next_submission_index + 1) as u64,
                    ..old(self).rune
                }),
                (Submission { id: sid, op }),
                final(self).rune,
            )),
    {
        if self.rune.shutdown_complete {
            return Err(RuneErr::Fatal("thread is shut down".to_owned()));
        }
        Ok(self.rune.submit(op, clock))
    }

    /// Submit with a caller-chosen id.
    pub fn submit_with_id(&mut self, sub: Submission, clock: &Clock) -> (r: Result<(), RuneErr>)
        requires
            old(self).inv(),
            old(self).rune.next_turn_index < u64::MAX,
        ensures
            final(self).inv(),
            final(self).rollout_path == old(self).rollout_path,
            final(self).state_db_handle == old(self).state_db_handle,
            old(self).rune.shutdown_complete ==> r is Err && *final(self) == *old(self),
            !old(self).rune.shutdown_complete ==> r is Ok && ThreadRuntime::handles(
                old(self).rune,
                sub,
                final(self).rune,
            ),
    {
        if self.rune.shutdown_complete {
            return Err(RuneErr::Fatal("thread is shut down".to_owned()));
        }
        self.rune.handle_submission(sub, clock);
        Ok(())
    }

    /// Atomically add user items to the live turn when its id matches: they
    /// join the turn's next model request, with no new turn announced.
    pub fn steer_input(&mut self, input: Vec<UserInput>, expected_turn_id: Option<&String>) -> (r:
        Result<String, SteerInputError>)
        requires
            old(self).inv(),
        ensures
            final(self).inv(),
            final(self).rollout_path == old(self).rollout_path,
            final(self).state_db_handle == old(self).state_db_handle,
            final(self).rune.emitted() == old(self).rune.emitted(),
            match old(self).rune.active {
                Some(t) => {
                    if (match expected_turn_id {
                        Some(e) => e@ == t.turn_id@,
                        None => true,
                    }) {
                        &&& (r matches Ok(id) && id@ == t.turn_id@)
                        &&& (final(self).rune.active matches Some(t2) && t2.turn_id == t.turn_id
                            && t2.index == t.index && t2.policy == t.policy && t2.model == t.model
                            && t2.pending_approval == t.pending_approval && t2.running_tool
                            == t.running_tool && t2.steered@ == t.steered@ + input@)
                        &&& final(self).rune == (ThreadRuntime {
                            active: final(self).rune.active,
                            ..old(self).rune
                        })
                    } else {
                        r == Err::<String, SteerInputError>(SteerInputError::TurnMismatch)
                            && *final(self) == *old(self)
                    }
                },
                None => r == Err::<String, SteerInputError>(SteerInputError::TurnMismatch)
                    && *final(self) == *old(self),
            },
    {
        self.rune.steer_input(input, expected_turn_id)
    }

    /// The next event, in emission order, if one is waiting.
    pub fn next_event(&mut self) -> (r: Option<Event>)
        requires
            old(self).inv(),
        ensures
            final(self).inv(),
            final(self).rollout_path == old(self).rollout_path,
            old(self).rune.delivered < old(self).rune.emitted().len() ==> (r matches Some(e)
                && event_like(e, old(self).rune.emitted()[old(self).rune.delivered as int])),
            old(self).rune.delivered >= old(self).rune.emitted().len() ==> r is None,
    {
        self.rune.next_event()
    }

    pub fn agent_status(&self) -> (r: AgentStatus)
        ensures
            r == self.rune.status_spec(),
    {
        self.rune.agent_status()
    }

    /// The rollout file's path, when the thread has one.
    pub fn rollout_path(&self) -> (r: Option<String>)
        ensures
            r == self.rollout_path,
    {
        match &self.rollout_path {
            Some(p) => Some(p.clone()),
            None => None,
        }
    }

    /// The state database handle, when one is attached.
    pub fn state_db(&self) -> (r: Option<StateDbHandle>)
        ensures
            r == self.state_db_handle,
    {
        match &self.state_db_handle {
            Some(h) => Some(StateDbHandle { path: h.path.clone() }),
            None => None,
        }
    }

    /// The configuration the next turn would freeze.
    pub fn config_snapshot(&self) -> (r: ThreadConfigSnapshot)
        ensures
            r.model@ == self.rune.context.model@,
            r.model_provider_id@ == self.rune.context.model_provider_id@,
            r.approval_policy == self.rune.context.approval_policy,
            sandbox_eq(r.sandbox_policy, self.rune.context.sandbox_policy),
            r.cwd@ == self.rune.context.cwd@,
            r.reasoning_effort == self.rune.context.effort,
            r.personality == self.rune.context.personality,
            r.session_source == self.rune.context.session_source,
    {
        ThreadConfigSnapshot {
            model: self.rune.context.model.clone(),
            model_provider_id: self.rune.context.model_provider_id.clone(),
            approval_policy: self.rune.context.approval_policy,
            sandbox_policy: clone_sandbox(&self.rune.context.sandbox_policy),
            cwd: self.rune.context.cwd.clone(),
            reasoning_effort: self.rune.context.effort,
            personality: self.rune.context.personality,
            session_source: self.rune.context.session_source,
        }
    }
}

} // verus!
