//! The session launcher: the single shell invocation that creates the named
//! multiplexer session if it is absent and then attaches to it, replacing
//! the shell by `exec` so the pseudo-terminal's lifetime tracks the attach
//! client.  Every connection uses the one configured session name, so
//! concurrent connections are concurrent attachments to the same session.

use vstd::prelude::*;
use vstd::string::StringExecFns;

verus! {

/// The attach-or-create command line for the named session: create a
/// detached session of that name unless one exists, then `exec` an attach
/// to it.
pub open spec fn attach_command(session: Seq<char>) -> Seq<char> {
    "tmux has-session -t "@ + session + " 2>/dev/null || tmux new-session -d -s "@ + session
        + "; exec tmux attach -t "@ + session
}

/// Everything the process spawned into the pseudo-terminal is made of: the
/// program, its arguments, and the environment overrides.
pub struct LaunchPlan {
    /// The program to spawn.
    pub program: String,
    /// Its arguments.
    pub args: Vec<String>,
    /// Environment variables set for the child.
    pub env: Vec<(String, String)>,
}

/// Builds the launch plan for one connection: `sh -c` around the
/// attach-or-create command, a color-capable terminal type, and the
/// configured shell as the default shell of a freshly created session
/// (an existing session keeps its original shell).
pub fn build_launch_plan(session: &str, shell: &str) -> (plan: LaunchPlan)
    ensures
        plan.program@ == "sh"@,
        plan.args@.len() == 2,
        plan.args@[0]@ == "-c"@,
        plan.args@[1]@ == attach_command(session@),
        plan.env@.len() == 2,
        plan.env@[0].0@ == "TERM"@,
        plan.env@[0].1@ == "xterm-256color"@,
        plan.env@[1].0@ == "SHELL"@,
        plan.env@[1].1@ == shell@,
{
    let mut command = String::from_str("tmux has-session -t ");
    command.append(session);
    command.append(" 2>/dev/null || tmux new-session -d -s ");
    command.append(session);
    command.append("; exec tmux attach -t ");
    command.append(session);
    let mut args: Vec<String> = Vec::new();
    args.push(String::from_str("-c"));
    args.push(command);
    let mut env: Vec<(String, String)> = Vec::new();
    env.push((String::from_str("TERM"), String::from_str("xterm-256color")));
    env.push((String::from_str("SHELL"), String::from_str(shell)));
    LaunchPlan { program: String::from_str("sh"), args, env }
}

} // verus!
