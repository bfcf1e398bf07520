//! The per-thread runtime: the state machine that orders submissions, turns,
//! tool calls, approvals and shutdown, journaling every event it emits.
//!
//! The surrounding process runs the loop: it feeds submissions, stream items
//! and exec results in, performs the IO, and drains events with
//! [`ThreadRuntime::next_event`]. Every decision lives here.
use vstd::prelude::*;
use vstd::pervasive::unreached;
use vstd::string::StringExecFns;
use crate::protocol::AskForApproval;
use crate::protocol::Event;
use crate::protocol::event_like;
use crate::protocol::EventMsg;
use crate::protocol::FileChange;
use crate::protocol::FileChangeEntry;
use crate::protocol::ParsedCommand;
use crate::protocol::Op;
use crate::protocol::Personality;
use crate::protocol::ReasoningEffort;
use crate::protocol::ResponseItem;
use crate::protocol::ReviewDecision;
use crate::protocol::SandboxPolicy;
use crate::protocol::SessionSource;
use crate::protocol::Submission;
use crate::protocol::ThreadId;
use crate::protocol::TokenUsage;
use crate::protocol::TurnContextOverride;
use crate::protocol::UserInput;
use crate::recorder::journaled_events;
use crate::recorder::journaled_response_items;
use crate::recorder::lemma_journaled_events_prepend_other;
use crate::recorder::lemma_journaled_events_push_event;
use crate::recorder::lemma_journaled_events_push_other;
use crate::recorder::lemma_journaled_response_push;
use crate::recorder::RolloutItem;
use crate::recorder::RolloutLine;
use crate::recorder::RolloutRecorder;
use crate::recorder::SessionMetaLine;
use crate::text::dec_digits;
use crate::text::str_eq;
use crate::text::u64_to_dec_string;
use crate::tools::assess_command;
use crate::tools::safety_table;
use crate::tools::CommandClass;
use crate::tools::SafetyDecision;

verus! {

/// Clock readings the caller supplies with each input: the line timestamp and
/// the date parts a new rollout file would be named with.
#[derive(Clone, Debug)]
pub struct Clock {
    pub timestamp: String,
    pub date_dir: String,
    pub file_ts: String,
}

/// The context a turn runs under, frozen at turn start.
#[derive(Clone, Debug)]
pub struct TurnContext {
    pub model: String,
    pub model_provider_id: String,
    pub effort: Option<ReasoningEffort>,
    pub approval_policy: AskForApproval,
    pub sandbox_policy: SandboxPolicy,
    pub cwd: String,
    pub personality: Option<Personality>,
    pub session_source: SessionSource,
}

/// The per-field result of applying an override: a present field replaces,
/// an absent one keeps the old value.
pub open spec fn apply_override_spec(ctx: TurnContext, o: TurnContextOverride) -> TurnContext {
    TurnContext {
        model: match o.model {
            Some(m) => m,
            None => ctx.model,
        },
        effort: match o.effort {
            Some(e) => Some(e),
            None => ctx.effort,
        },
        approval_policy: match o.approval_policy {
            Some(p) => p,
            None => ctx.approval_policy,
        },
        sandbox_policy: match o.sandbox_policy {
            Some(p) => p,
            None => ctx.sandbox_policy,
        },
        personality: match o.personality {
            Some(p) => Some(p),
            None => ctx.personality,
        },
        cwd: match o.cwd {
            Some(c) => c,
            None => ctx.cwd,
        },
        model_provider_id: ctx.model_provider_id,
        session_source: ctx.session_source,
    }
}

/// An empty override changes nothing: applying it returns the very context.
pub proof fn lemma_empty_override_is_noop(ctx: TurnContext, o: TurnContextOverride)
    requires
        o.is_empty_spec(),
    ensures
        apply_override_spec(ctx, o) == ctx,
{
}

/// Apply an override to the context in place.
pub fn apply_override(ctx: &mut TurnContext, o: TurnContextOverride)
    ensures
        *final(ctx) == apply_override_spec(*old(ctx), o),
{
    let TurnContextOverride { model, effort, sandbox_policy, approval_policy, personality, cwd } = o;
    if let Some(m) = model {
        ctx.model = m;
    }
    if let Some(e) = effort {
        ctx.effort = Some(e);
    }
    if let Some(p) = approval_policy {
        ctx.approval_policy = p;
    }
    if let Some(p) = sandbox_policy {
        ctx.sandbox_policy = p;
    }
    if let Some(p) = personality {
        ctx.personality = Some(p);
    }
    if let Some(c) = cwd {
        ctx.cwd = c;
    }
}

/// Which tool a pending approval gates.
#[derive(Clone, Copy, Debug, PartialEq, Eq, Structural)]
pub enum ToolKind {
    Exec,
    Patch,
}

/// An approval the turn is paused on.
#[derive(Clone, Debug)]
pub struct PendingApproval {
    pub call_id: String,
    pub kind: ToolKind,
    pub command: String,
    pub cwd: String,
}

/// A tool the turn is waiting on.
#[derive(Clone, Debug)]
pub struct RunningTool {
    pub call_id: String,
    pub kind: ToolKind,
}

/// One tool call as the dispatcher receives it: the call's identity, its
/// display command and directory, and — for a patch — the model's reason,
/// the requested writable root and the proposed changeset.
#[derive(Clone, Debug)]
pub struct ToolCallRequest {
    pub kind: ToolKind,
    pub call_id: String,
    pub command: String,
    pub cwd: String,
    pub parsed_cmd: Vec<ParsedCommand>,
    pub reason: Option<String>,
    pub grant_root: Option<String>,
    pub changes: Vec<FileChangeEntry>,
}

/// The live state of one turn: its id, and the policy and model frozen for
/// it at turn start.
#[derive(Clone, Debug)]
pub struct ActiveTurn {
    pub turn_id: String,
    pub index: u64,
    pub policy: AskForApproval,
    pub model: String,
    pub pending_approval: Option<PendingApproval>,
    pub running_tool: Option<RunningTool>,
    /// User items steered into this turn, for the next model request.
    pub steered: Vec<UserInput>,
}

/// Why steering user input into a turn can fail.
#[derive(Clone, Copy, Debug, PartialEq, Eq, Structural)]
pub enum SteerInputError {
    /// The addressed turn is not the one running.
    TurnMismatch,
}

/// What the thread is doing right now.
#[derive(Clone, Copy, Debug, PartialEq, Eq, Structural)]
pub enum AgentStatus {
    Idle,
    Working,
    AwaitingApproval,
    ShuttingDown,
}

/// The id minted for the `i`-th turn of a thread.
pub open spec fn turn_id_view(i: nat) -> Seq<char> {
    "turn-"@ + dec_digits(i)
}

/// The id minted for the `i`-th submission accepted without one.
pub open spec fn submission_id_view(i: nat) -> Seq<char> {
    "sub-"@ + dec_digits(i)
}

/// The state machine of one thread.
#[derive(Clone, Debug)]
pub struct ThreadRuntime {
    pub thread_id: ThreadId,
    pub originator: String,
    pub cli_version: String,
    /// The context the next turn will freeze.
    pub context: TurnContext,
    pub active: Option<ActiveTurn>,
    /// Turn-starting submissions that arrived while a turn was running.
    pub queued: Vec<Submission>,
    /// Commands approved for the rest of the session.
    pub session_approved: Vec<String>,
    pub recorder: RolloutRecorder,
    /// How many journaled events were already handed to the front end.
    pub delivered: usize,
    pub next_turn_index: u64,
    pub next_submission_index: u64,
    pub shutting_down: bool,
    pub shutdown_complete: bool,
}

impl ThreadRuntime {
    /// Everything the thread has emitted, in order: the event lines of its
    /// journal.
    pub open spec fn emitted(self) -> Seq<Event> {
        journaled_events(self.recorder.lines@)
    }

    /// The structural invariant every reachable state satisfies.
    pub open spec fn inv(self) -> bool {
        &&& self.recorder.wf(self.thread_id)
        &&& (self.active matches Some(t) ==> t.turn_id@ == turn_id_view(t.index as nat) && t.index
            < self.next_turn_index)
        &&& (self.active matches Some(t) ==> (t.pending_approval is Some
            ==> t.running_tool is None))
        &&& (self.shutdown_complete ==> self.active is None && self.shutting_down)
        &&& self.delivered <= self.emitted().len()
        &&& (forall|i: int|
            0 <= i < self.queued@.len() ==> (#[trigger] self.queued@[i].op) is UserInput
                || self.queued@[i].op is UserTurn)
    }

    /// Any event this step added is scoped: it belongs to the turn that was
    /// active, to the turn started this step, or it is the shutdown
    /// acknowledgement.
    pub open spec fn events_scoped(pre: Self, post: Self) -> bool {
        &&& post.emitted().len() >= pre.emitted().len()
        &&& post.emitted().take(pre.emitted().len() as int) == pre.emitted()
        &&& forall|i: int|
            pre.emitted().len() <= i < post.emitted().len() ==> (#[trigger] post.emitted()[i]).msg
                is ShutdownComplete || (pre.active matches Some(t) && post.emitted()[i].id@
                == turn_id_view(t.index as nat)) || post.emitted()[i].id@ == turn_id_view(
                pre.next_turn_index as nat,
            )
    }

    /// A step that leaves the journal alone is trivially scoped.
    proof fn lemma_scoped_still(pre: Self, post: Self)
        requires
            post.emitted() == pre.emitted(),
        ensures
            Self::events_scoped(pre, post),
    {
        assert(post.emitted().take(pre.emitted().len() as int) =~= pre.emitted());
    }

    pub open spec fn status_spec(self) -> AgentStatus {
        if self.shutting_down {
            AgentStatus::ShuttingDown
        } else {
            match self.active {
                Some(t) => if t.pending_approval is Some {
                    AgentStatus::AwaitingApproval
                } else {
                    AgentStatus::Working
                },
                None => AgentStatus::Idle,
            }
        }
    }

    /// What the thread is doing right now.
    pub fn agent_status(&self) -> (r: AgentStatus)
        ensures
            r == self.status_spec(),
    {
        if self.shutting_down {
            AgentStatus::ShuttingDown
        } else {
            match &self.active {
                Some(t) => if t.pending_approval.is_some() {
                    AgentStatus::AwaitingApproval
                } else {
                    AgentStatus::Working
                },
                None => AgentStatus::Idle,
            }
        }
    }

    pub fn new(
        thread_id: ThreadId,
        originator: String,
        cli_version: String,
        context: TurnContext,
        ephemeral: bool,
        rune_home: String,
    ) -> (r: ThreadRuntime)
        ensures
            r.inv(),
            r.thread_id == thread_id,
            r.originator == originator,
            r.cli_version == cli_version,
            r.context == context,
            r.active is None,
            r.queued@.len() == 0,
            r.session_approved@.len() == 0,
            r.emitted().len() == 0,
            r.recorder.ephemeral == ephemeral,
            r.recorder.rune_home == rune_home,
            r.recorder.persisted_path is None,
            r.delivered == 0,
            r.next_turn_index == 0,
            r.next_submission_index == 0,
            !r.shutting_down,
            !r.shutdown_complete,
    {
        ThreadRuntime {
            thread_id,
            originator,
            cli_version,
            context,
            active: None,
            queued: Vec::new(),
            session_approved: Vec::new(),
            recorder: RolloutRecorder::new(ephemeral, rune_home),
            delivered: 0,
            next_turn_index: 0,
            next_submission_index: 0,
            shutting_down: false,
            shutdown_complete: false,
        }
    }

    /// The fields no transition changes.
    pub open spec fn core_unchanged(pre: Self, post: Self) -> bool {
        &&& post.thread_id == pre.thread_id
        &&& post.originator == pre.originator
        &&& post.cli_version == pre.cli_version
        &&& post.recorder.ephemeral == pre.recorder.ephemeral
        &&& post.recorder.rune_home == pre.recorder.rune_home
        &&& post.delivered == pre.delivered
    }

    /// Emit one event: it is journaled and becomes visible to the front end,
    /// atomically.
    fn emit(&mut self, id: String, msg: EventMsg, timestamp: String)
        ensures
            final(self).emitted() == old(self).emitted().push(Event { id, msg }),
            final(self).recorder.lines@ == old(self).recorder.lines@.push(
                RolloutLine { timestamp, item: RolloutItem::EventLine(Event { id, msg }) },
            ),
            final(self).recorder.persisted_path == old(self).recorder.persisted_path,
            final(self).recorder.ephemeral == old(self).recorder.ephemeral,
            final(self).recorder.rune_home == old(self).recorder.rune_home,
            forall|tid: ThreadId| old(self).recorder.wf(tid) ==> final(self).recorder.wf(tid),
            *final(self) == (ThreadRuntime { recorder: final(self).recorder, ..*old(self) }),
    {
        let line = RolloutLine { timestamp, item: RolloutItem::EventLine(Event { id, msg }) };
        proof {
            lemma_journaled_events_push_event(self.recorder.lines@, line);
        }
        self.recorder.append(line);
    }

    /// Journal a non-event line; nothing becomes visible to the front end.
    fn journal(&mut self, item: RolloutItem, timestamp: String)
        requires
            !(item is EventLine),
        ensures
            final(self).emitted() == old(self).emitted(),
            final(self).recorder.lines@ == old(self).recorder.lines@.push(
                RolloutLine { timestamp, item },
            ),
            final(self).recorder.persisted_path == old(self).recorder.persisted_path,
            final(self).recorder.ephemeral == old(self).recorder.ephemeral,
            final(self).recorder.rune_home == old(self).recorder.rune_home,
            forall|tid: ThreadId| old(self).recorder.wf(tid) ==> final(self).recorder.wf(tid),
            *final(self) == (ThreadRuntime { recorder: final(self).recorder, ..*old(self) }),
    {
        let line = RolloutLine { timestamp, item };
        proof {
            lemma_journaled_events_push_other(self.recorder.lines@, line);
        }
        self.recorder.append(line);
    }

    /// What holds after a turn was started, frozen to `policy` and `model`.
    pub open spec fn turn_started(
        pre: Self,
        post: Self,
        policy: AskForApproval,
        model: Seq<char>,
    ) -> bool {
        &&& Self::core_unchanged(pre, post)
        &&& (post.active matches Some(t) && t.index == pre.next_turn_index && t.turn_id@
            == turn_id_view(pre.next_turn_index as nat) && t.policy == policy && t.model@ == model
            && t.pending_approval is None && t.running_tool is None && t.steered@.len() == 0)
        &&& post.next_turn_index == pre.next_turn_index + 1
        &&& Self::one_event_appended(pre, post, turn_id_view(pre.next_turn_index as nat))
        &&& (post.emitted().last().msg matches EventMsg::TurnStarted { turn_id } && turn_id@
            == turn_id_view(pre.next_turn_index as nat))
        &&& (pre.recorder.ephemeral ==> post.recorder.persisted_path is None)
        &&& (!pre.recorder.ephemeral ==> post.recorder.persisted_path is Some)
        &&& post.context == pre.context
        &&& post.queued == pre.queued
        &&& post.session_approved == pre.session_approved
        &&& post.shutting_down == pre.shutting_down
        &&& post.shutdown_complete == pre.shutdown_complete
        &&& post.next_submission_index == pre.next_submission_index
    }

    /// Start the next turn: create the rollout file if one is owed, then
    /// announce the turn.
    fn start_turn(&mut self, policy: AskForApproval, model: String, clock: &Clock)
        requires
            old(self).inv(),
            old(self).active is None,
            !old(self).shutting_down,
            old(self).next_turn_index < u64::MAX,
        ensures
            final(self).inv(),
            Self::turn_started(*old(self), *final(self), policy, model@),
            Self::events_scoped(*old(self), *final(self)),
    {
        let mut tid = String::new();
        tid.append("turn-");
        let digits = u64_to_dec_string(self.next_turn_index);
        tid.append(digits.as_str());
        if !self.recorder.ephemeral && self.recorder.persisted_path.is_none() {
            let meta = SessionMetaLine {
                id: ThreadId { id: self.thread_id.id.clone() },
                cwd: self.context.cwd.clone(),
                originator: self.originator.clone(),
                cli_version: self.cli_version.clone(),
                model_provider: self.context.model_provider_id.clone(),
            };
            proof {
                assert(meta.id == self.thread_id);
            }
            let ghost pre_lines = self.recorder.lines@;
            let meta_ts = clock.timestamp.clone();
            self.recorder.persist(meta, meta_ts, clock.date_dir.as_str(), clock.file_ts.as_str());
            proof {
                let l0 = self.recorder.lines@[0];
                assert(self.recorder.lines@ =~= seq![l0] + pre_lines);
                lemma_journaled_events_prepend_other(pre_lines, l0);
            }
        }
        let event_ts = clock.timestamp.clone();
        self.emit(tid.clone(), EventMsg::TurnStarted { turn_id: tid.clone() }, event_ts);
        self.active = Some(
            ActiveTurn {
                turn_id: tid,
                index: self.next_turn_index,
                policy,
                model,
                pending_approval: None,
                running_tool: None,
                steered: Vec::new(),
            },
        );
        self.next_turn_index = self.next_turn_index + 1;
        proof {
            assert(self.emitted().take(old(self).emitted().len() as int) =~= old(self).emitted());
        }
    }

    /// Exactly one event was appended, carrying the id `id_view`.
    pub open spec fn one_event_appended(pre: Self, post: Self, id_view: Seq<char>) -> bool {
        &&& post.emitted().len() == pre.emitted().len() + 1
        &&& post.emitted().take(pre.emitted().len() as int) == pre.emitted()
        &&& post.emitted().last().id@ == id_view
    }

    /// The active turn was canceled: one `TurnComplete{interrupted}` event
    /// for it, and the thread is idle again. Nothing else moved.
    pub open spec fn turn_canceled(pre: Self, post: Self) -> bool {
        &&& pre.active matches Some(t) && Self::one_event_appended(
            pre,
            post,
            turn_id_view(t.index as nat),
        )
        &&& (post.emitted().last().msg matches EventMsg::TurnComplete { interrupted, token_usage }
            && interrupted && token_usage is None)
        &&& post.active is None
        &&& post.recorder.persisted_path == pre.recorder.persisted_path
        &&& post.context == pre.context
        &&& post.queued == pre.queued
        &&& post.session_approved == pre.session_approved
        &&& post.next_turn_index == pre.next_turn_index
        &&& post.next_submission_index == pre.next_submission_index
        &&& post.shutting_down == pre.shutting_down
        &&& post.shutdown_complete == pre.shutdown_complete
        &&& Self::core_unchanged(pre, post)
    }

    /// Cancel the active turn: outstanding approvals are dropped (denied), a
    /// running tool is abandoned, and the turn is acknowledged interrupted.
    fn cancel_active(&mut self, clock: &Clock)
        requires
            old(self).inv(),
            old(self).active is Some,
        ensures
            final(self).inv(),
            Self::turn_canceled(*old(self), *final(self)),
            Self::events_scoped(*old(self), *final(self)),
    {
        let turn_id = match &self.active {
            Some(t) => t.turn_id.clone(),
            None => String::new(),
        };
        self.active = None;
        self.emit(
            turn_id,
            EventMsg::TurnComplete { interrupted: true, token_usage: None },
            clock.timestamp.clone(),
        );
        proof {
            assert(self.emitted().take(old(self).emitted().len() as int) =~= old(self).emitted());
        }
    }

    /// A previously requested tool was approved and began: the begin event
    /// is out, the tool is running, and with `remember` the command is
    /// approved for the rest of the session.
    pub open spec fn tool_begun(
        pre: Self,
        t: ActiveTurn,
        p: PendingApproval,
        post: Self,
        remember: bool,
    ) -> bool {
        &&& Self::one_event_appended(pre, post, turn_id_view(t.index as nat))
        &&& (match p.kind {
            ToolKind::Exec => post.emitted().last().msg matches EventMsg::ExecBegin {
                call_id,
                command,
                cwd,
            } && call_id@ == p.call_id@ && command@ == p.command@ && cwd@ == p.cwd@,
            ToolKind::Patch => post.emitted().last().msg matches EventMsg::PatchBegin { call_id }
                && call_id@ == p.call_id@,
        })
        &&& (post.active matches Some(t2) && t2.turn_id == t.turn_id && t2.index == t.index
            && t2.policy == t.policy && t2.model == t.model && t2.pending_approval is None && (
            t2.running_tool matches Some(rt) && rt.call_id@ == p.call_id@ && rt.kind == p.kind))
        &&& (remember ==> post.session_approved@.len() == pre.session_approved@.len() + 1
            && post.session_approved@.take(pre.session_approved@.len() as int)
            == pre.session_approved@ && post.session_approved@.last()@ == p.command@)
        &&& (!remember ==> post.session_approved == pre.session_approved)
        &&& post.recorder.persisted_path == pre.recorder.persisted_path
        &&& post.context == pre.context
        &&& post.queued == pre.queued
        &&& post.next_turn_index == pre.next_turn_index
        &&& post.next_submission_index == pre.next_submission_index
        &&& post.shutting_down == pre.shutting_down
        &&& post.shutdown_complete == pre.shutdown_complete
        &&& Self::core_unchanged(pre, post)
    }

    /// A previously requested tool was denied: no begin event; a tool-result
    /// marked as an error is journaled for the model, and streaming resumes.
    pub open spec fn tool_denied(pre: Self, t: ActiveTurn, p: PendingApproval, post: Self) -> bool {
        &&& post.emitted() == pre.emitted()
        &&& journaled_response_items(post.recorder.lines@) == journaled_response_items(
            pre.recorder.lines@,
        ).push(journaled_response_items(post.recorder.lines@).last())
        &&& (journaled_response_items(post.recorder.lines@).last()
            matches ResponseItem::ToolResult { call_id, output, is_error } && call_id@
            == p.call_id@ && is_error)
        &&& (post.active matches Some(t2) && t2.turn_id == t.turn_id && t2.index == t.index
            && t2.policy == t.policy && t2.model == t.model && t2.pending_approval is None
            && t2.running_tool is None)
        &&& post.recorder.persisted_path == pre.recorder.persisted_path
        &&& post.context == pre.context
        &&& post.queued == pre.queued
        &&& post.session_approved == pre.session_approved
        &&& post.next_turn_index == pre.next_turn_index
        &&& post.next_submission_index == pre.next_submission_index
        &&& post.shutting_down == pre.shutting_down
        &&& post.shutdown_complete == pre.shutdown_complete
        &&& Self::core_unchanged(pre, post)
    }

    /// The decision taken on an approval submission with id `id`.
    pub open spec fn approval_case(
        pre: Self,
        id: Seq<char>,
        decision: ReviewDecision,
        kind: ToolKind,
        post: Self,
    ) -> bool {
        match pre.active {
            Some(t) => match t.pending_approval {
                Some(p) => if p.call_id@ == id && p.kind == kind {
                    match decision {
                        ReviewDecision::Approved => Self::tool_begun(pre, t, p, post, false),
                        ReviewDecision::ApprovedForSession => Self::tool_begun(
                            pre,
                            t,
                            p,
                            post,
                            true,
                        ),
                        ReviewDecision::Denied => Self::tool_denied(pre, t, p, post),
                        ReviewDecision::Abort => Self::turn_canceled(pre, post),
                    }
                } else {
                    post == pre
                },
                None => post == pre,
            },
            None => post == pre,
        }
    }

    /// A turn-starting submission: dropped while shutting down, queued while
    /// a turn is active, started otherwise.
    pub open spec fn turn_start_case(
        pre: Self,
        sub: Submission,
        policy: AskForApproval,
        model: Seq<char>,
        post: Self,
    ) -> bool {
        if pre.shutting_down {
            post == pre
        } else if pre.active is Some {
            &&& post == (ThreadRuntime { queued: post.queued, ..pre })
            &&& post.queued@ == pre.queued@.push(sub)
        } else {
            Self::turn_started(pre, post, policy, model)
        }
    }

    /// Shutdown: an active turn is canceled first, then the shutdown is
    /// acknowledged with the submission's own id.
    pub open spec fn shutdown_case(pre: Self, sub: Submission, post: Self) -> bool {
        &&& post.shutting_down
        &&& post.shutdown_complete
        &&& post.active is None
        &&& post.emitted().len() == pre.emitted().len() + (if pre.active is Some {
            2int
        } else {
            1int
        })
        &&& post.emitted().take(pre.emitted().len() as int) == pre.emitted()
        &&& post.emitted().last().msg is ShutdownComplete
        &&& post.emitted().last().id@ == sub.id@
        &&& (pre.active matches Some(t) ==> (post.emitted()[pre.emitted().len() as int].msg
            matches EventMsg::TurnComplete { interrupted, token_usage } && interrupted)
            && post.emitted()[pre.emitted().len() as int].id@ == turn_id_view(t.index as nat))
        &&& post.recorder.persisted_path == pre.recorder.persisted_path
        &&& post.context == pre.context
        &&& post.queued == pre.queued
        &&& post.session_approved == pre.session_approved
        &&& post.next_turn_index == pre.next_turn_index
        &&& post.next_submission_index == pre.next_submission_index
        &&& Self::core_unchanged(pre, post)
    }

    /// The full submission-handling relation, by operation.
    pub open spec fn handles(pre: Self, sub: Submission, post: Self) -> bool {
        match sub.op {
            Op::OverrideTurnContext { context: o } => post == (ThreadRuntime {
                context: apply_override_spec(pre.context, o),
                ..pre
            }),
            Op::UserInput { items: _ } => Self::turn_start_case(
                pre,
                sub,
                pre.context.approval_policy,
                pre.context.model@,
                post,
            ),
            Op::UserTurn { items: _, context: o } => Self::turn_start_case(
                pre,
                sub,
                apply_override_spec(pre.context, o).approval_policy,
                apply_override_spec(pre.context, o).model@,
                post,
            ),
            Op::ExecApproval { id, decision } => Self::approval_case(
                pre,
                id@,
                decision,
                ToolKind::Exec,
                post,
            ),
            Op::PatchApproval { id, decision } => Self::approval_case(
                pre,
                id@,
                decision,
                ToolKind::Patch,
                post,
            ),
            Op::Interrupt => if pre.active is Some {
                Self::turn_canceled(pre, post)
            } else {
                post == pre
            },
            Op::Shutdown => Self::shutdown_case(pre, sub, post),
        }
    }

    /// Handle one submission now. Turn-starting submissions that find the
    /// thread busy wait in the queue; everything else acts immediately.
    pub fn handle_submission(&mut self, sub: Submission, clock: &Clock)
        requires
            old(self).inv(),
            old(self).next_turn_index < u64::MAX,
        ensures
            final(self).inv(),
            Self::handles(*old(self), sub, *final(self)),
            Self::events_scoped(*old(self), *final(self)),
    {
        let ghost pre = *self;
        let ghost gsub = sub;
        let Submission { id: sub_id, op } = sub;
        match op {
            Op::OverrideTurnContext { context: o } => {
                apply_override(&mut self.context, o);
                proof {
                    Self::lemma_scoped_still(pre, *self);
                }
            },
            Op::UserInput { items } => {
                if self.shutting_down {
                    proof {
                        Self::lemma_scoped_still(pre, *self);
                    }
                } else if self.active.is_some() {
                    self.queued.push(Submission { id: sub_id, op: Op::UserInput { items } });
                    proof {
                        Self::lemma_scoped_still(pre, *self);
                    }
                    proof {
                        assert(self.queued@ =~= pre.queued@.push(gsub));
                    }
                } else {
                    let policy = self.context.approval_policy;
                    let model = self.context.model.clone();
                    self.start_turn(policy, model, clock);
                }
            },
            Op::UserTurn { items, context: o } => {
                if self.shutting_down {
                    proof {
                        Self::lemma_scoped_still(pre, *self);
                    }
                } else if self.active.is_some() {
                    self.queued.push(
                        Submission { id: sub_id, op: Op::UserTurn { items, context: o } },
                    );
                    proof {
                        Self::lemma_scoped_still(pre, *self);
                    }
                    proof {
                        assert(self.queued@ =~= pre.queued@.push(gsub));
                    }
                } else {
                    let policy = match o.approval_policy {
                        Some(p) => p,
                        None => self.context.approval_policy,
                    };
                    let model = match &o.model {
                        Some(m) => m.clone(),
                        None => self.context.model.clone(),
                    };
                    self.start_turn(policy, model, clock);
                }
            },
            Op::ExecApproval { id, decision } => {
                self.resolve_approval(id, decision, ToolKind::Exec, clock);
            },
            Op::PatchApproval { id, decision } => {
                self.resolve_approval(id, decision, ToolKind::Patch, clock);
            },
            Op::Interrupt => {
                if self.active.is_some() {
                    self.cancel_active(clock);
                } else {
                    proof {
                        Self::lemma_scoped_still(pre, *self);
                    }
                }
            },
            Op::Shutdown => {
                let ghost mid0 = *self;
                if self.active.is_some() {
                    self.cancel_active(clock);
                }
                self.shutting_down = true;
                let ghost mid = *self;
                self.emit(sub_id, EventMsg::ShutdownComplete, clock.timestamp.clone());
                self.shutdown_complete = true;
                proof {
                    assert(self.emitted().take(pre.emitted().len() as int) =~= pre.emitted());
                    if pre.active is Some {
                        assert(self.emitted()[pre.emitted().len() as int] == mid.emitted().last());
                    }
                }
            },
        }
    }

    /// Resolve a pending approval that matches `id` and `kind`; anything else
    /// is ignored.
    fn resolve_approval(
        &mut self,
        id: String,
        decision: ReviewDecision,
        kind: ToolKind,
        clock: &Clock,
    )
        requires
            old(self).inv(),
        ensures
            final(self).inv(),
            Self::approval_case(*old(self), id@, decision, kind, *final(self)),
            Self::events_scoped(*old(self), *final(self)),
    {
        let ghost pre = *self;
        let matches_pending: bool = match &self.active {
            Some(t) => match &t.pending_approval {
                Some(p) => str_eq(p.call_id.as_str(), id.as_str()) && p.kind == kind,
                None => false,
            },
            None => false,
        };
        if !matches_pending {
            proof {
                Self::lemma_scoped_still(pre, *self);
            }
            return ;
        }
        match decision {
            ReviewDecision::Approved | ReviewDecision::ApprovedForSession => {
                let taken = self.active.take();
                let mut t = match taken {
                    Some(t) => t,
                    None => {
                        proof {
                            assert(false);
                        }
                        unreached()
                    },
                };
                let p = match t.pending_approval.take() {
                    Some(p) => p,
                    None => {
                        proof {
                            assert(false);
                        }
                        unreached()
                    },
                };
                t.running_tool = Some(RunningTool { call_id: p.call_id.clone(), kind: p.kind });
                let turn_id = t.turn_id.clone();
                self.active = Some(t);
                if let ReviewDecision::ApprovedForSession = decision {
                    self.session_approved.push(p.command.clone());
                    proof {
                        assert(self.session_approved@.take(pre.session_approved@.len() as int)
                            =~= pre.session_approved@);
                    }
                }
                let msg = match p.kind {
                    ToolKind::Exec => EventMsg::ExecBegin {
                        call_id: p.call_id,
                        command: p.command,
                        cwd: p.cwd,
                    },
                    ToolKind::Patch => EventMsg::PatchBegin { call_id: p.call_id },
                };
                self.emit(turn_id, msg, clock.timestamp.clone());
                proof {
                    assert(self.emitted().take(pre.emitted().len() as int) =~= pre.emitted());
                }
            },
            ReviewDecision::Denied => {
                let taken = self.active.take();
                let mut t = match taken {
                    Some(t) => t,
                    None => {
                        proof {
                            assert(false);
                        }
                        unreached()
                    },
                };
                let p = match t.pending_approval.take() {
                    Some(p) => p,
                    None => {
                        proof {
                            assert(false);
                        }
                        unreached()
                    },
                };
                self.active = Some(t);
                let item = ResponseItem::ToolResult {
                    call_id: p.call_id,
                    output: String::new(),
                    is_error: true,
                };
                let ghost mid = *self;
                let ghost gitem = item;
                self.journal(RolloutItem::ResponseItem(item), clock.timestamp.clone());
                proof {
                    lemma_journaled_response_push(
                        mid.recorder.lines@,
                        self.recorder.lines@.last(),
                    );
                    assert(journaled_response_items(self.recorder.lines@)
                        == journaled_response_items(pre.recorder.lines@).push(gitem));
                    Self::lemma_scoped_still(pre, *self);
                }
            },
            ReviewDecision::Abort => {
                self.cancel_active(clock);
            },
        }
    }

    /// A command already approved for the session.
    pub open spec fn session_contains(s: Seq<String>, c: Seq<char>) -> bool {
        exists|i: int| 0 <= i < s.len() && (#[trigger] s[i])@ == c
    }

    fn is_session_approved(&self, command: &str) -> (r: bool)
        ensures
            r == Self::session_contains(self.session_approved@, command@),
    {
        let n = self.session_approved.len();
        for i in 0..n
            invariant
                n == self.session_approved@.len(),
                forall|j: int| 0 <= j < i ==> (#[trigger] self.session_approved@[j])@ != command@,
        {
            if str_eq(self.session_approved[i].as_str(), command) {
                return true;
            }
        }
        false
    }

    /// One assistant or reasoning item streamed in: the event is out and the
    /// item is journaled; anything else from the stream is journaled only.
    pub open spec fn model_item_case(pre: Self, item: ResponseItem, post: Self) -> bool {
        match pre.active {
            Some(t) => if t.pending_approval is None && t.running_tool is None {
            &&& (match item {
                ResponseItem::AssistantMessage { text } => Self::one_event_appended(
                    pre,
                    post,
                    turn_id_view(t.index as nat),
                ) && (post.emitted().last().msg matches EventMsg::AssistantMessage { text: tx }
                    && tx@ == text@),
                ResponseItem::Reasoning { summary } => Self::one_event_appended(
                    pre,
                    post,
                    turn_id_view(t.index as nat),
                ) && (post.emitted().last().msg matches EventMsg::ReasoningSummary { text: tx }
                    && tx@ == summary@),
                _ => post.emitted() == pre.emitted(),
            })
            &&& journaled_response_items(post.recorder.lines@) == journaled_response_items(
                pre.recorder.lines@,
            ).push(item)
            &&& post.active == pre.active
            &&& post.recorder.persisted_path == pre.recorder.persisted_path
            &&& post.context == pre.context
            &&& post.queued == pre.queued
            &&& post.session_approved == pre.session_approved
            &&& post.next_turn_index == pre.next_turn_index
            &&& post.next_submission_index == pre.next_submission_index
            &&& post.shutting_down == pre.shutting_down
            &&& post.shutdown_complete == pre.shutdown_complete
            &&& Self::core_unchanged(pre, post)
            } else {
                post == pre
            },
            None => post == pre,
        }
    }

    /// Take one completed item from the model stream.
    pub fn on_model_item(&mut self, item: ResponseItem, clock: &Clock)
        requires
            old(self).inv(),
        ensures
            final(self).inv(),
            Self::model_item_case(*old(self), item, *final(self)),
            Self::events_scoped(*old(self), *final(self)),
    {
        let ghost pre = *self;
        let streaming: bool = match &self.active {
            Some(t) => t.pending_approval.is_none() && t.running_tool.is_none(),
            None => false,
        };
        if !streaming {
            proof {
                Self::lemma_scoped_still(pre, *self);
            }
            return ;
        }
        let turn_id = match &self.active {
            Some(t) => t.turn_id.clone(),
            None => String::new(),
        };
        let ghost gitem = item;
        match &item {
            ResponseItem::AssistantMessage { text } => {
                let tx = text.clone();
                self.journal(RolloutItem::ResponseItem(item), clock.timestamp.clone());
                proof {
                    lemma_journaled_response_push(pre.recorder.lines@, self.recorder.lines@.last());
                }
                self.emit(
                    turn_id,
                    EventMsg::AssistantMessage { text: tx },
                    clock.timestamp.clone(),
                );
                proof {
                    lemma_journaled_response_push(
                        old(self).recorder.lines@.push(
                            RolloutLine {
                                timestamp: self.recorder.lines@[self.recorder.lines@.len() - 2].timestamp,
                                item: RolloutItem::ResponseItem(gitem),
                            },
                        ),
                        self.recorder.lines@.last(),
                    );
                    assert(self.emitted().take(pre.emitted().len() as int) =~= pre.emitted());
                }
            },
            ResponseItem::Reasoning { summary } => {
                let tx = summary.clone();
                self.journal(RolloutItem::ResponseItem(item), clock.timestamp.clone());
                proof {
                    lemma_journaled_response_push(pre.recorder.lines@, self.recorder.lines@.last());
                }
                self.emit(
                    turn_id,
                    EventMsg::ReasoningSummary { text: tx },
                    clock.timestamp.clone(),
                );
                proof {
                    lemma_journaled_response_push(
                        old(self).recorder.lines@.push(
                            RolloutLine {
                                timestamp: self.recorder.lines@[self.recorder.lines@.len() - 2].timestamp,
                                item: RolloutItem::ResponseItem(gitem),
                            },
                        ),
                        self.recorder.lines@.last(),
                    );
                    assert(self.emitted().take(pre.emitted().len() as int) =~= pre.emitted());
                }
            },
            _ => {
                self.journal(RolloutItem::ResponseItem(item), clock.timestamp.clone());
                proof {
                    lemma_journaled_response_push(pre.recorder.lines@, self.recorder.lines@.last());
                    Self::lemma_scoped_still(pre, *self);
                }
            },
        }
    }

    /// What a classified tool call leads to: run, ask, or refuse.
    pub open spec fn tool_call_case(
        pre: Self,
        req: ToolCallRequest,
        class: CommandClass,
        post: Self,
    ) -> bool {
        match pre.active {
            Some(t) => if t.pending_approval is None && t.running_tool is None
                && !pre.shutting_down {
            let auto = Self::session_contains(pre.session_approved@, req.command@);
            let decision = if safety_table(t.policy, class) == SafetyDecision::Request && auto {
                SafetyDecision::Run
            } else {
                safety_table(t.policy, class)
            };
            match decision {
                SafetyDecision::Run => {
                    &&& Self::one_event_appended(pre, post, turn_id_view(t.index as nat))
                    &&& (match req.kind {
                        ToolKind::Exec => post.emitted().last().msg matches EventMsg::ExecBegin {
                            call_id: c,
                            command: cm,
                            cwd: cw,
                        } && c@ == req.call_id@ && cm@ == req.command@ && cw@ == req.cwd@,
                        ToolKind::Patch => post.emitted().last().msg
                            matches EventMsg::PatchBegin { call_id: c } && c@ == req.call_id@,
                    })
                    &&& (post.active matches Some(t2) && t2.turn_id == t.turn_id && t2.index
                        == t.index && t2.policy == t.policy && t2.model == t.model
                        && t2.pending_approval is None && (t2.running_tool matches Some(rt)
                        && rt.call_id@ == req.call_id@ && rt.kind == req.kind))
                    &&& Self::tool_call_rest_unchanged(pre, post)
                },
                SafetyDecision::Request => {
                    &&& Self::one_event_appended(pre, post, turn_id_view(t.index as nat))
                    &&& (match req.kind {
                        ToolKind::Exec => post.emitted().last().msg
                            matches EventMsg::ExecApprovalRequest {
                                call_id: c,
                                command: cm,
                                cwd: cw,
                                parsed_cmd: pc,
                            } && c@ == req.call_id@ && cm@ == req.command@ && cw@ == req.cwd@
                            && pc == req.parsed_cmd,
                        ToolKind::Patch => post.emitted().last().msg
                            matches EventMsg::PatchApprovalRequest {
                                call_id: c,
                                reason: r,
                                grant_root: g,
                                changes: ch,
                            } && c@ == req.call_id@ && r == req.reason && g == req.grant_root
                            && ch == req.changes,
                    })
                    &&& (post.active matches Some(t2) && t2.turn_id == t.turn_id && t2.index
                        == t.index && t2.policy == t.policy && t2.model == t.model
                        && t2.running_tool is None && (t2.pending_approval matches Some(p)
                        && p.call_id@ == req.call_id@ && p.kind == req.kind && p.command@
                        == req.command@ && p.cwd@ == req.cwd@))
                    &&& Self::tool_call_rest_unchanged(pre, post)
                },
                SafetyDecision::Refuse => {
                    &&& post.emitted() == pre.emitted()
                    &&& journaled_response_items(post.recorder.lines@)
                        == journaled_response_items(pre.recorder.lines@).push(
                        journaled_response_items(post.recorder.lines@).last(),
                    )
                    &&& (journaled_response_items(post.recorder.lines@).last()
                        matches ResponseItem::ToolResult { call_id: c, output: _, is_error }
                        && c@ == req.call_id@ && is_error)
                    &&& post.active == pre.active
                    &&& Self::tool_call_rest_unchanged(pre, post)
                },
            }
            } else {
                post == pre
            },
            None => post == pre,
        }
    }

    /// The fields a tool-call step never touches.
    pub open spec fn tool_call_rest_unchanged(pre: Self, post: Self) -> bool {
        &&& post.recorder.persisted_path == pre.recorder.persisted_path
        &&& post.context == pre.context
        &&& post.queued == pre.queued
        &&& post.session_approved == pre.session_approved
        &&& post.next_turn_index == pre.next_turn_index
        &&& post.next_submission_index == pre.next_submission_index
        &&& post.shutting_down == pre.shutting_down
        &&& post.shutdown_complete == pre.shutdown_complete
        &&& Self::core_unchanged(pre, post)
    }

    /// Dispatch one tool call from the model: run it, request approval, or
    /// refuse it, per the safety table and the session approvals.
    pub fn on_tool_call(&mut self, req: ToolCallRequest, class: CommandClass, clock: &Clock)
        requires
            old(self).inv(),
        ensures
            final(self).inv(),
            Self::tool_call_case(*old(self), req, class, *final(self)),
            Self::events_scoped(*old(self), *final(self)),
    {
        let ghost pre = *self;
        let ghost greq = req;
        let ToolCallRequest {
            kind,
            call_id,
            command,
            cwd,
            parsed_cmd,
            reason,
            grant_root,
            changes,
        } = req;
        let ready: bool = !self.shutting_down && (match &self.active {
            Some(t) => t.pending_approval.is_none() && t.running_tool.is_none(),
            None => false,
        });
        if !ready {
            proof {
                Self::lemma_scoped_still(pre, *self);
            }
            return ;
        }
        let policy = match &self.active {
            Some(t) => t.policy,
            None => AskForApproval::Never,
        };
        let turn_id = match &self.active {
            Some(t) => t.turn_id.clone(),
            None => String::new(),
        };
        let table_decision = assess_command(policy, class);
        let decision = if table_decision == SafetyDecision::Request
            && self.is_session_approved(command.as_str()) {
            SafetyDecision::Run
        } else {
            table_decision
        };
        match decision {
            SafetyDecision::Run => {
                let taken = self.active.take();
                let mut t = match taken {
                    Some(t) => t,
                    None => {
                        proof {
                            assert(false);
                        }
                        unreached()
                    },
                };
                t.running_tool = Some(RunningTool { call_id: call_id.clone(), kind });
                self.active = Some(t);
                let msg = match kind {
                    ToolKind::Exec => EventMsg::ExecBegin { call_id, command, cwd },
                    ToolKind::Patch => EventMsg::PatchBegin { call_id },
                };
                self.emit(turn_id, msg, clock.timestamp.clone());
                proof {
                    assert(self.emitted().take(pre.emitted().len() as int) =~= pre.emitted());
                }
            },
            SafetyDecision::Request => {
                let taken = self.active.take();
                let mut t = match taken {
                    Some(t) => t,
                    None => {
                        proof {
                            assert(false);
                        }
                        unreached()
                    },
                };
                t.pending_approval = Some(
                    PendingApproval {
                        call_id: call_id.clone(),
                        kind,
                        command: command.clone(),
                        cwd: cwd.clone(),
                    },
                );
                self.active = Some(t);
                let msg = match kind {
                    ToolKind::Exec => EventMsg::ExecApprovalRequest {
                        call_id,
                        command,
                        cwd,
                        parsed_cmd,
                    },
                    ToolKind::Patch => EventMsg::PatchApprovalRequest {
                        call_id,
                        reason,
                        grant_root,
                        changes,
                    },
                };
                self.emit(turn_id, msg, clock.timestamp.clone());
                proof {
                    assert(self.emitted().take(pre.emitted().len() as int) =~= pre.emitted());
                }
            },
            SafetyDecision::Refuse => {
                let item = ResponseItem::ToolResult {
                    call_id,
                    output: String::new(),
                    is_error: true,
                };
                self.journal(RolloutItem::ResponseItem(item), clock.timestamp.clone());
                proof {
                    lemma_journaled_response_push(pre.recorder.lines@, self.recorder.lines@.last());
                    Self::lemma_scoped_still(pre, *self);
                }
            },
        }
    }

    /// A running tool finished: the end event is out and the result is
    /// journaled for the model.
    pub open spec fn tool_finished_case(
        pre: Self,
        call_id: Seq<char>,
        exit_code: i64,
        success: bool,
        post: Self,
    ) -> bool {
        match pre.active {
            Some(t) => if t.running_tool matches Some(rt) && rt.call_id@ == call_id {
            &&& Self::one_event_appended(pre, post, turn_id_view(t.index as nat))
            &&& (match t.running_tool {
                Some(rt2) => match rt2.kind {
                    ToolKind::Exec => post.emitted().last().msg matches EventMsg::ExecEnd {
                        call_id: c,
                        exit_code: x,
                    } && c@ == call_id && x == exit_code,
                    ToolKind::Patch => post.emitted().last().msg matches EventMsg::PatchEnd {
                        call_id: c,
                        success: s,
                    } && c@ == call_id && s == success,
                },
                None => false,
            })
            &&& journaled_response_items(post.recorder.lines@) == journaled_response_items(
                pre.recorder.lines@,
            ).push(journaled_response_items(post.recorder.lines@).last())
            &&& (journaled_response_items(post.recorder.lines@).last()
                matches ResponseItem::ToolResult { call_id: c, output: _, is_error } && c@
                == call_id && is_error == !success)
            &&& (post.active matches Some(t2) && t2.turn_id == t.turn_id && t2.index == t.index
                && t2.policy == t.policy && t2.model == t.model && t2.pending_approval is None
                && t2.running_tool is None)
            &&& Self::tool_call_rest_unchanged(pre, post)
            } else {
                post == pre
            },
            None => post == pre,
        }
    }

    /// A tool-exec task reported back.
    pub fn on_tool_finished(
        &mut self,
        call_id: String,
        exit_code: i64,
        success: bool,
        output: String,
        clock: &Clock,
    )
        requires
            old(self).inv(),
        ensures
            final(self).inv(),
            Self::tool_finished_case(*old(self), call_id@, exit_code, success, *final(self)),
            Self::events_scoped(*old(self), *final(self)),
    {
        let ghost pre = *self;
        let kind_opt: Option<ToolKind> = match &self.active {
            Some(t) => match &t.running_tool {
                Some(rt) => if str_eq(rt.call_id.as_str(), call_id.as_str()) {
                    Some(rt.kind)
                } else {
                    None
                },
                None => None,
            },
            None => None,
        };
        let kind = match kind_opt {
            Some(k) => k,
            None => {
                proof {
                    Self::lemma_scoped_still(pre, *self);
                }
                return ;
            },
        };
        let taken = self.active.take();
        let mut t = match taken {
            Some(t) => t,
            None => {
                proof {
                    assert(false);
                }
                unreached()
            },
        };
        t.running_tool = None;
        let turn_id = t.turn_id.clone();
        self.active = Some(t);
        let item = ResponseItem::ToolResult {
            call_id: call_id.clone(),
            output,
            is_error: !success,
        };
        self.journal(RolloutItem::ResponseItem(item), clock.timestamp.clone());
        proof {
            lemma_journaled_response_push(pre.recorder.lines@, self.recorder.lines@.last());
        }
        let ghost mid = *self;
        let msg = match kind {
            ToolKind::Exec => EventMsg::ExecEnd { call_id, exit_code },
            ToolKind::Patch => EventMsg::PatchEnd { call_id, success },
        };
        self.emit(turn_id, msg, clock.timestamp.clone());
        proof {
            lemma_journaled_response_push(mid.recorder.lines@, self.recorder.lines@.last());
            assert(self.emitted().take(pre.emitted().len() as int) =~= pre.emitted());
        }
    }

    /// The stream completed: with a tool result as the latest item the turn
    /// continues (the caller sends a continuation request); with nothing
    /// outstanding otherwise, the turn is done.
    pub open spec fn turn_completed_case(
        pre: Self,
        token_usage: Option<TokenUsage>,
        continuation_needed: bool,
        post: Self,
    ) -> bool {
        match pre.active {
            Some(t) => if t.pending_approval is None && t.running_tool is None
                && !continuation_needed {
                &&& Self::one_event_appended(pre, post, turn_id_view(t.index as nat))
                &&& (post.emitted().last().msg matches EventMsg::TurnComplete {
                    interrupted,
                    token_usage: u,
                } && !interrupted && u == token_usage)
                &&& post.active is None
                &&& Self::tool_call_rest_unchanged(pre, post)
            } else {
                post == pre
            },
            None => post == pre,
        }
    }

    /// The model stream reported completion. `continuation_needed` says the
    /// latest response item was a tool result, so the accumulated history
    /// goes back out instead of ending the turn.
    pub fn on_model_completed(
        &mut self,
        token_usage: Option<TokenUsage>,
        continuation_needed: bool,
        clock: &Clock,
    )
        requires
            old(self).inv(),
        ensures
            final(self).inv(),
            Self::turn_completed_case(*old(self), token_usage, continuation_needed, *final(self)),
            Self::events_scoped(*old(self), *final(self)),
    {
        let ghost pre = *self;
        let done: bool = !continuation_needed && (match &self.active {
            Some(t) => t.pending_approval.is_none() && t.running_tool.is_none(),
            None => false,
        });
        if !done {
            proof {
                Self::lemma_scoped_still(pre, *self);
            }
            return ;
        }
        let turn_id = match &self.active {
            Some(t) => t.turn_id.clone(),
            None => String::new(),
        };
        self.active = None;
        self.emit(
            turn_id,
            EventMsg::TurnComplete { interrupted: false, token_usage },
            clock.timestamp.clone(),
        );
        proof {
            assert(self.emitted().take(pre.emitted().len() as int) =~= pre.emitted());
        }
    }

    /// A non-retryable model error surfaced: one `Error` event for the turn,
    /// and the turn is over. The thread itself stays alive; retiring it on a
    /// fatal error is the owner's decision.
    pub open spec fn model_error_case(pre: Self, message: Seq<char>, post: Self) -> bool {
        match pre.active {
            Some(t) => {
                &&& Self::one_event_appended(pre, post, turn_id_view(t.index as nat))
                &&& (post.emitted().last().msg matches EventMsg::Error { message: m } && m@
                    == message)
                &&& post.active is None
                &&& Self::tool_call_rest_unchanged(pre, post)
            },
            None => post == pre,
        }
    }

    /// The model client gave up on the turn with a non-retryable error;
    /// `message` is its rendering. Retryable stream errors are recovered
    /// inside the client and never reach this transition; tool failures
    /// arrive as error-marked tool results instead.
    pub fn on_model_error(&mut self, message: String, clock: &Clock)
        requires
            old(self).inv(),
        ensures
            final(self).inv(),
            Self::model_error_case(*old(self), message@, *final(self)),
            Self::events_scoped(*old(self), *final(self)),
    {
        let ghost pre = *self;
        let turn_id = match &self.active {
            Some(t) => t.turn_id.clone(),
            None => {
                proof {
                    Self::lemma_scoped_still(pre, *self);
                }
                return ;
            },
        };
        self.active = None;
        self.emit(turn_id, EventMsg::Error { message }, clock.timestamp.clone());
        proof {
            assert(self.emitted().take(pre.emitted().len() as int) =~= pre.emitted());
        }
    }

    /// When idle, start the oldest queued turn.
    pub fn pump(&mut self, clock: &Clock)
        requires
            old(self).inv(),
            old(self).next_turn_index < u64::MAX,
        ensures
            final(self).inv(),
            Self::events_scoped(*old(self), *final(self)),
            (old(self).shutting_down || old(self).active is Some || old(self).queued@.len() == 0)
                ==> *final(self) == *old(self),
            !(old(self).shutting_down || old(self).active is Some || old(self).queued@.len() == 0)
                ==> final(self).queued@ == old(self).queued@.drop_first()
                && final(self).active is Some && final(self).emitted().len() == old(
                self,
            ).emitted().len() + 1,
    {
        let ghost pre = *self;
        if self.shutting_down || self.active.is_some() || self.queued.len() == 0 {
            proof {
                Self::lemma_scoped_still(pre, *self);
            }
            return ;
        }
        let sub = self.queued.remove(0);
        proof {
            assert(pre.queued@[0] == sub);
            assert(self.queued@ =~= pre.queued@.drop_first());
        }
        let Submission { id: _, op } = sub;
        match op {
            Op::UserInput { items: _ } => {
                let policy = self.context.approval_policy;
                let model = self.context.model.clone();
                self.start_turn(policy, model, clock);
            },
            Op::UserTurn { items: _, context: o } => {
                let policy = match o.approval_policy {
                    Some(p) => p,
                    None => self.context.approval_policy,
                };
                let model = match &o.model {
                    Some(m) => m.clone(),
                    None => self.context.model.clone(),
                };
                self.start_turn(policy, model, clock);
            },
            _ => {
                proof {
                    assert(false);
                }
            },
        }
    }

    /// Mint a submission id and handle the operation.
    pub fn submit(&mut self, op: Op, clock: &Clock) -> (sid: String)
        requires
            old(self).inv(),
            old(self).next_turn_index < u64::MAX,
            old(self).next_submission_index < u64::MAX,
        ensures
            final(self).inv(),
            sid@ == submission_id_view(old(self).next_submission_index as nat),
            Self::handles(
                (ThreadRuntime {
                    next_submission_index: (old(self).next_submission_index + 1) as u64,
                    ..*old(self)
                }),
                (Submission { id: sid, op }),
                *final(self),
            ),
            Self::events_scoped(*old(self), *final(self)),
    {
        let mut sid = String::new();
        sid.append("sub-");
        let digits = u64_to_dec_string(self.next_submission_index);
        sid.append(digits.as_str());
        self.next_submission_index = self.next_submission_index + 1;
        let ghost mid = *self;
        let sub_id = sid.clone();
        self.handle_submission(Submission { id: sub_id, op }, clock);
        proof {
            assert(Self::events_scoped(mid, *self));
            assert(mid.emitted() == old(self).emitted());
        }
        sid
    }

    /// Atomically add user items to the live turn when its id matches.
    pub fn steer_input(&mut self, items: Vec<UserInput>, expected_turn_id: Option<&String>) -> (r:
        Result<String, SteerInputError>)
        requires
            old(self).inv(),
        ensures
            final(self).inv(),
            final(self).emitted() == old(self).emitted(),
            match old(self).active {
                Some(t) => {
                    if (match expected_turn_id {
                        Some(e) => e@ == t.turn_id@,
                        None => true,
                    }) {
                        &&& (r matches Ok(id) && id@ == t.turn_id@)
                        &&& (final(self).active matches Some(t2) && t2.turn_id == t.turn_id
                            && t2.index == t.index && t2.policy == t.policy && t2.model == t.model
                            && t2.pending_approval == t.pending_approval && t2.running_tool
                            == t.running_tool && t2.steered@ == t.steered@ + items@)
                        &&& *final(self) == (ThreadRuntime {
                            active: final(self).active,
                            ..*old(self)
                        })
                    } else {
                        r == Err::<String, SteerInputError>(SteerInputError::TurnMismatch)
                            && *final(self) == *old(self)
                    }
                },
                None => r == Err::<String, SteerInputError>(SteerInputError::TurnMismatch)
                    && *final(self) == *old(self),
            },
    {
        let ok: bool = match (&self.active, expected_turn_id) {
            (Some(t), Some(e)) => str_eq(t.turn_id.as_str(), e.as_str()),
            (Some(_), None) => true,
            (None, _) => false,
        };
        if !ok {
            return Err(SteerInputError::TurnMismatch);
        }
        let taken = self.active.take();
        let mut t = match taken {
            Some(t) => t,
            None => {
                proof {
                    assert(false);
                }
                unreached()
            },
        };
        let mut items = items;
        t.steered.append(&mut items);
        let id = t.turn_id.clone();
        self.active = Some(t);
        Ok(id)
    }

    /// Hand the next undelivered event to the front end, in emission order.
    pub fn next_event(&mut self) -> (r: Option<Event>)
        requires
            old(self).inv(),
        ensures
            final(self).inv(),
            final(self).emitted() == old(self).emitted(),
            *final(self) == (ThreadRuntime { delivered: final(self).delivered, ..*old(self) }),
            old(self).delivered < old(self).emitted().len() ==> (r matches Some(e) && event_like(
                e,
                old(self).emitted()[old(self).delivered as int],
            ) && final(self).delivered == old(self).delivered + 1),
            old(self).delivered >= old(self).emitted().len() ==> r is None && final(self).delivered
                == old(self).delivered,
    {
        let n = self.recorder.lines.len();
        let mut seen: usize = 0;
        for i in 0..n
            invariant
                *self == *old(self),
                self.inv(),
                n == self.recorder.lines@.len(),
                seen == journaled_events(self.recorder.lines@.take(i as int)).len(),
                seen <= self.delivered,
                self.delivered <= self.emitted().len(),
        {
            proof {
                assert(self.recorder.lines@.take(i + 1).drop_last() =~= self.recorder.lines@.take(
                    i as int,
                ));
                assert(self.recorder.lines@.take(i + 1).last() == self.recorder.lines@[i as int]);
                crate::recorder::lemma_journaled_events_take_prefix(self.recorder.lines@, i + 1);
            }
            let is_hit: bool = match &self.recorder.lines[i].item {
                RolloutItem::EventLine(_) => seen == self.delivered,
                _ => false,
            };
            if is_hit {
                let ev = match &self.recorder.lines[i].item {
                    RolloutItem::EventLine(e) => duplicate_event(e),
                    _ => unreached(),
                };
                proof {
                    let js = journaled_events(self.recorder.lines@.take(i + 1));
                    assert(js.len() == seen + 1);
                    assert(js.last() == self.recorder.lines@[i as int].item.arrow_EventLine_0());
                    assert(event_like(ev, js.last()));
                    assert(js.is_prefix_of(self.emitted()));
                    assert(self.emitted()[seen as int] == js[seen as int]);
                    assert(event_like(ev, self.emitted()[seen as int]));
                    crate::recorder::lemma_journaled_events_len(self.recorder.lines@);
                    assert(self.delivered < self.emitted().len());
                    assert(self.emitted().len() <= n);
                }
                self.delivered = self.delivered + 1;
                return Some(ev);
            }
            match &self.recorder.lines[i].item {
                RolloutItem::EventLine(_) => {
                    seen = seen + 1;
                },
                _ => {},
            }
        }
        proof {
            assert(self.recorder.lines@.take(n as int) =~= self.recorder.lines@);
            assert(seen == self.emitted().len());
        }
        None
    }
}

fn clone_parsed(v: &Vec<ParsedCommand>) -> (r: Vec<ParsedCommand>)
    ensures
        r@ == v@,
{
    let mut out: Vec<ParsedCommand> = Vec::new();
    let n = v.len();
    for i in 0..n
        invariant
            n == v@.len(),
            out@ =~= v@.take(i as int),
    {
        out.push(ParsedCommand { text: v[i].text.clone() });
        proof {
            assert(out@ =~= v@.take(i + 1));
        }
    }
    proof {
        assert(v@.take(n as int) =~= v@);
    }
    out
}

fn duplicate_file_change(c: &FileChange) -> (r: FileChange)
    ensures
        r == *c,
{
    match c {
        FileChange::Add { content } => FileChange::Add { content: content.clone() },
        FileChange::Delete => FileChange::Delete,
        FileChange::Update { unified_diff } => FileChange::Update {
            unified_diff: unified_diff.clone(),
        },
    }
}

fn clone_changes(v: &Vec<FileChangeEntry>) -> (r: Vec<FileChangeEntry>)
    ensures
        r@ == v@,
{
    let mut out: Vec<FileChangeEntry> = Vec::new();
    let n = v.len();
    for i in 0..n
        invariant
            n == v@.len(),
            out@ =~= v@.take(i as int),
    {
        out.push(
            FileChangeEntry {
                path: v[i].path.clone(),
                change: duplicate_file_change(&v[i].change),
            },
        );
        proof {
            assert(out@ =~= v@.take(i + 1));
        }
    }
    proof {
        assert(v@.take(n as int) =~= v@);
    }
    out
}

fn clone_opt_string(o: &Option<String>) -> (r: Option<String>)
    ensures
        r == *o,
{
    match o {
        Some(s) => Some(s.clone()),
        None => None,
    }
}

/// A copy of an event for delivery to the front end: the same event, with
/// the changeset of a patch approval request copied entry by entry.
fn duplicate_event(e: &Event) -> (r: Event)
    ensures
        event_like(r, *e),
{
    let msg = match &e.msg {
        EventMsg::SessionConfigured { thread_id, model, model_provider_id } => {
            EventMsg::SessionConfigured {
                thread_id: ThreadId { id: thread_id.id.clone() },
                model: model.clone(),
                model_provider_id: model_provider_id.clone(),
            }
        },
        EventMsg::TurnStarted { turn_id } => EventMsg::TurnStarted { turn_id: turn_id.clone() },
        EventMsg::AssistantMessage { text } => EventMsg::AssistantMessage { text: text.clone() },
        EventMsg::ReasoningSummary { text } => EventMsg::ReasoningSummary { text: text.clone() },
        EventMsg::ExecBegin { call_id, command, cwd } => EventMsg::ExecBegin {
            call_id: call_id.clone(),
            command: command.clone(),
            cwd: cwd.clone(),
        },
        EventMsg::ExecEnd { call_id, exit_code } => EventMsg::ExecEnd {
            call_id: call_id.clone(),
            exit_code: *exit_code,
        },
        EventMsg::PatchBegin { call_id } => EventMsg::PatchBegin { call_id: call_id.clone() },
        EventMsg::PatchEnd { call_id, success } => EventMsg::PatchEnd {
            call_id: call_id.clone(),
            success: *success,
        },
        EventMsg::ExecApprovalRequest { call_id, command, cwd, parsed_cmd } => {
            EventMsg::ExecApprovalRequest {
                call_id: call_id.clone(),
                command: command.clone(),
                cwd: cwd.clone(),
                parsed_cmd: clone_parsed(parsed_cmd),
            }
        },
        EventMsg::PatchApprovalRequest { call_id, reason, grant_root, changes } => {
            EventMsg::PatchApprovalRequest {
                call_id: call_id.clone(),
                reason: clone_opt_string(reason),
                grant_root: clone_opt_string(grant_root),
                changes: clone_changes(changes),
            }
        },
        EventMsg::TokenCount { usage } => EventMsg::TokenCount { usage: *usage },
        EventMsg::Error { message } => EventMsg::Error { message: message.clone() },
        EventMsg::TurnComplete { interrupted, token_usage } => EventMsg::TurnComplete {
            interrupted: *interrupted,
            token_usage: *token_usage,
        },
        EventMsg::ShutdownComplete => EventMsg::ShutdownComplete,
    };
    Event { id: e.id.clone(), msg }
}

/// Distinct turn indices mint distinct turn ids.
pub proof fn lemma_turn_ids_distinct(a: nat, b: nat)
    requires
        a != b,
    ensures
        turn_id_view(a) != turn_id_view(b),
{
    if turn_id_view(a) == turn_id_view(b) {
        let pa = "turn-"@;
        crate::text::lemma_dec_digits_value(a);
        crate::text::lemma_dec_digits_value(b);
        assert(dec_digits(a) =~= (pa + dec_digits(a)).subrange(
            pa.len() as int,
            (pa + dec_digits(a)).len() as int,
        ));
        assert(dec_digits(b) =~= (pa + dec_digits(b)).subrange(
            pa.len() as int,
            (pa + dec_digits(b)).len() as int,
        ));
        crate::text::lemma_dec_digits_injective(a, b);
    }
}

impl ThreadRuntime {
    /// A turn that was not the active one when a step ran, and whose index
    /// was already minted, gets no further events from that step: interrupted
    /// or completed turns stay silent forever.
    pub proof fn lemma_retired_turn_silent(pre: Self, post: Self, k: nat)
        requires
            pre.inv(),
            Self::events_scoped(pre, post),
            k < pre.next_turn_index as nat,
            (pre.active matches Some(t) ==> t.index as nat != k),
        ensures
            forall|i: int|
                pre.emitted().len() <= i < post.emitted().len() ==> !((#[trigger] post.emitted()[i]).id@ == turn_id_view(k) && !(post.emitted()[i].msg is ShutdownComplete)),
    {
        assert forall|i: int|
            pre.emitted().len() <= i < post.emitted().len() implies !((#[trigger] post.emitted()[i]).id@ == turn_id_view(k) && !(post.emitted()[i].msg is ShutdownComplete)) by {
            lemma_turn_ids_distinct(k, pre.next_turn_index as nat);
            match pre.active {
                Some(t) => {
                    lemma_turn_ids_distinct(k, t.index as nat);
                },
                None => {},
            }
        }
    }

    /// No exec or patch begins behind a submission unless that submission
    /// was the matching approval, approved.
    pub proof fn lemma_no_tool_begins_without_approval(pre: Self, sub: Submission, post: Self)
        requires
            Self::handles(pre, sub, post),
            post.emitted().len() > pre.emitted().len(),
            exists|i: int|
                pre.emitted().len() <= i < post.emitted().len() && ((#[trigger] post.emitted()[i]).msg is ExecBegin || post.emitted()[i].msg is PatchBegin),
        ensures
            sub.op matches Op::ExecApproval { id, decision } || sub.op matches Op::PatchApproval {
                id,
                decision,
            },
            match sub.op {
                Op::ExecApproval { id, decision } => (decision == ReviewDecision::Approved
                    || decision == ReviewDecision::ApprovedForSession) && (pre.active matches Some(
                    t,
                ) && (t.pending_approval matches Some(p) && p.call_id@ == id@)),
                Op::PatchApproval { id, decision } => (decision == ReviewDecision::Approved
                    || decision == ReviewDecision::ApprovedForSession) && (pre.active matches Some(
                    t,
                ) && (t.pending_approval matches Some(p) && p.call_id@ == id@)),
                _ => false,
            },
    {
    }

    /// A tool call dispatched while an approval is outstanding, or while a
    /// tool is running, does nothing at all.
    pub proof fn lemma_no_tool_while_awaiting_approval(
        pre: Self,
        req: ToolCallRequest,
        class: CommandClass,
        post: Self,
    )
        requires
            Self::tool_call_case(pre, req, class, post),
            pre.active matches Some(t) && (t.pending_approval is Some || t.running_tool is Some),
        ensures
            post == pre,
    {
    }

    /// A tool call begins immediately only when the safety table says run
    /// for the turn's policy, or it says request and the command was
    /// approved for the session. A refused command never begins: no session
    /// approval overrides the table.
    pub proof fn lemma_tool_call_gated(
        pre: Self,
        req: ToolCallRequest,
        class: CommandClass,
        post: Self,
    )
        requires
            Self::tool_call_case(pre, req, class, post),
            exists|i: int|
                pre.emitted().len() <= i < post.emitted().len() && ((#[trigger] post.emitted()[i]).msg is ExecBegin || post.emitted()[i].msg is PatchBegin),
        ensures
            pre.active matches Some(t) && (safety_table(t.policy, class) == SafetyDecision::Run
                || (safety_table(t.policy, class) == SafetyDecision::Request
                && Self::session_contains(pre.session_approved@, req.command@))),
            pre.active matches Some(t) && safety_table(t.policy, class)
                != SafetyDecision::Refuse,
    {
        match pre.active {
            Some(t) => {
                if !(t.pending_approval is None && t.running_tool is None && !pre.shutting_down) {
                    assert(post == pre);
                    assert(false);
                }
            },
            None => {
                assert(post == pre);
                assert(false);
            },
        }
    }

    /// An interrupt of a live turn is acknowledged at once: the step's one
    /// event is `TurnComplete{interrupted}` for that turn, and the turn is
    /// gone.
    pub proof fn lemma_interrupt_acknowledged(pre: Self, sub: Submission, post: Self)
        requires
            Self::handles(pre, sub, post),
            sub.op is Interrupt,
            pre.active is Some,
        ensures
            post.active is None,
            post.emitted().len() == pre.emitted().len() + 1,
            (post.emitted().last().msg matches EventMsg::TurnComplete { interrupted, token_usage }
                && interrupted),
            pre.active matches Some(t) && post.emitted().last().id@ == turn_id_view(t.index as nat),
            post.queued == pre.queued,
    {
    }

    /// A context override touches nothing but the next turn's context: no
    /// event, no journal line, no file.
    pub proof fn lemma_override_touches_nothing_durable(pre: Self, sub: Submission, post: Self)
        requires
            Self::handles(pre, sub, post),
            sub.op is OverrideTurnContext,
        ensures
            post.recorder == pre.recorder,
            post.emitted() == pre.emitted(),
            post.context == apply_override_spec(pre.context, sub.op.arrow_OverrideTurnContext_context()),
    {
    }

    /// An ephemeral thread never has a rollout file.
    pub proof fn lemma_ephemeral_never_materializes(s: Self)
        requires
            s.inv(),
            s.recorder.ephemeral,
        ensures
            s.recorder.persisted_path is None,
    {
    }

    /// Whenever a rollout file exists, its first line is the session meta
    /// for this very thread, and the filename carries the thread id.
    pub proof fn lemma_rollout_meta_first(s: Self)
        requires
            s.inv(),
            s.recorder.persisted_path is Some,
        ensures
            s.recorder.lines@.len() > 0,
            (s.recorder.lines@[0].item matches RolloutItem::SessionMeta(m) && m.id == s.thread_id),
            exists|date_dir: Seq<char>, file_ts: Seq<char>|
                (match s.recorder.persisted_path {
                    Some(p) => p@ == #[trigger] crate::recorder::rollout_path_view(
                        s.recorder.rune_home@,
                        date_dir,
                        file_ts,
                        s.thread_id.id@,
                    ),
                    None => false,
                }),
    {
    }

    /// Events and rollout lines agree: what the thread emits is exactly the
    /// sequence of event lines in its journal, in the same order.
    pub proof fn lemma_events_match_journal(s: Self)
        ensures
            s.emitted() == journaled_events(s.recorder.lines@),
    {
    }
}

} // verus!
