//! Assembling the developer messages for a turn's first model request.
use vstd::prelude::*;
use vstd::string::StringExecFns;

verus! {

/// A developer message placed ahead of the user items in a request.
#[derive(Clone, Debug, PartialEq, Eq)]
pub struct DeveloperMessage {
    pub text: String,
}

/// The notice inserted when the active model changed since the last turn.
pub open spec fn model_switch_notice() -> Seq<char> {
    "<model_switch>\nThe user was previously using a different model. Re-read the conversation so far and continue under the current model.\n</model_switch>"@
}

/// Whether a turn under `current_model` needs a model-switch notice, given
/// the model the previous turn ran under.
pub open spec fn model_switched(previous_model: Option<Seq<char>>, current_model: Seq<char>) -> bool {
    match previous_model {
        Some(p) => p != current_model,
        None => false,
    }
}

/// The developer messages owed to a model change, and nothing else: a turn
/// whose model changed gets exactly the model-switch notice; no personality
/// block is ever added here, model change or not.
pub fn model_switch_messages(previous_model: Option<&String>, current_model: &str) -> (r: Vec<
    DeveloperMessage,
>)
    ensures
        model_switched(
            match previous_model {
                Some(p) => Some(p@),
                None => None,
            },
            current_model@,
        ) ==> r@.len() == 1 && r@[0].text@ == model_switch_notice(),
        !model_switched(
            match previous_model {
                Some(p) => Some(p@),
                None => None,
            },
            current_model@,
        ) ==> r@.len() == 0,
{
    let mut out: Vec<DeveloperMessage> = Vec::new();
    let switched = match previous_model {
        Some(p) => !crate::text::str_eq(p.as_str(), current_model),
        None => false,
    };
    if switched {
        out.push(
            DeveloperMessage {
                text:
                    "<model_switch>\nThe user was previously using a different model. Re-read the conversation so far and continue under the current model.\n</model_switch>".to_owned(),
            },
        );
    }
    out
}

} // verus!
