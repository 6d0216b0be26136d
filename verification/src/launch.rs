//! The process-launch descriptor the host consumes once a path is resolved.

use vstd::prelude::*;

verus! {

/// How the host is to spawn the language server: the resolved binary, and
/// nothing else.
pub struct LaunchDescriptor {
    pub command: String,
    pub args: Vec<String>,
    pub env: Vec<(String, String)>,
}

/// Builds the launch descriptor for a resolved path: the path becomes the
/// command, with no arguments and no environment overrides.
pub fn launch_descriptor(command: String) -> (d: LaunchDescriptor)
    ensures
        d.command == command,
        d.args@ == Seq::<String>::empty(),
        d.env@ == Seq::<(String, String)>::empty(),
{
    LaunchDescriptor { command, args: Vec::new(), env: Vec::new() }
}

} // verus!
