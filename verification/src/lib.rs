pub mod api_bridge;
pub mod approval;
pub mod client;
pub mod codec;
pub mod config;
pub mod context;
pub mod error;
pub mod home;
pub mod manager;
pub mod model_info;
pub mod processor;
pub mod prompt;
pub mod protocol;
pub mod recorder;
pub mod rollout;
pub mod runtime;
pub mod text;
pub mod thread;
pub mod tools;

use vstd::prelude::*;

verus! {

/// True when `root` (already canonicalized) is the same path as the
/// canonical working directory of a command.
pub fn is_command_cwd_root(root: &String, canonical_command_cwd: &String) -> (r: bool)
    ensures
        r == (root@ == canonical_command_cwd@),
{
    *root == *canonical_command_cwd
}

} // verus!
