//! The tool dispatcher's safety gate: combining the approval policy with the
//! exec-policy classification of a command.
use vstd::prelude::*;
use crate::protocol::AskForApproval;

verus! {

/// How the exec-policy evaluator classified a command.
#[derive(Clone, Copy, Debug, PartialEq, Eq, Structural)]
pub enum CommandClass {
    Trusted,
    Restricted,
    Forbidden,
}

/// What the dispatcher does with a tool call.
#[derive(Clone, Copy, Debug, PartialEq, Eq, Structural)]
pub enum SafetyDecision {
    /// Run without asking.
    Run,
    /// Pause the turn and ask the user.
    Request,
    /// Never run it.
    Refuse,
}

/// The decision table: a forbidden command is always refused; `Never` runs
/// everything else unasked; `OnRequest` asks only for restricted commands;
/// `Untrusted` and `Always` ask for everything runnable.
pub open spec fn safety_table(policy: AskForApproval, class: CommandClass) -> SafetyDecision {
    match class {
        CommandClass::Forbidden => SafetyDecision::Refuse,
        CommandClass::Trusted => match policy {
            AskForApproval::Never => SafetyDecision::Run,
            AskForApproval::OnRequest => SafetyDecision::Run,
            AskForApproval::Untrusted => SafetyDecision::Request,
            AskForApproval::Always => SafetyDecision::Request,
        },
        CommandClass::Restricted => match policy {
            AskForApproval::Never => SafetyDecision::Run,
            AskForApproval::OnRequest => SafetyDecision::Request,
            AskForApproval::Untrusted => SafetyDecision::Request,
            AskForApproval::Always => SafetyDecision::Request,
        },
    }
}

/// Decide what to do with a classified command under a policy.
pub fn assess_command(policy: AskForApproval, class: CommandClass) -> (r: SafetyDecision)
    ensures
        r == safety_table(policy, class),
{
    match class {
        CommandClass::Forbidden => SafetyDecision::Refuse,
        CommandClass::Trusted => match policy {
            AskForApproval::Never => SafetyDecision::Run,
            AskForApproval::OnRequest => SafetyDecision::Run,
            AskForApproval::Untrusted => SafetyDecision::Request,
            AskForApproval::Always => SafetyDecision::Request,
        },
        CommandClass::Restricted => match policy {
            AskForApproval::Never => SafetyDecision::Run,
            AskForApproval::OnRequest => SafetyDecision::Request,
            AskForApproval::Untrusted => SafetyDecision::Request,
            AskForApproval::Always => SafetyDecision::Request,
        },
    }
}

} // verus!
