//! Describes the child invocation: the shell's own flags, the full child
//! command line, and what the parent does with the child's exit status.
//! Spawning the child, injecting its environment and suppressing the
//! interrupt signal are the unverified caller's work.

use vstd::prelude::*;
use crate::model::RunError;

verus! {

/// The flags each known shell needs in front of the user's command, and no
/// flags for an unrecognized shell.
pub open spec fn shell_flags_model(shell: Seq<char>) -> Seq<Seq<char>> {
    if shell == "powershell"@ || shell == "pwsh"@ {
        seq!["/nologo"@, "-Command"@, "\""@]
    } else if shell == "cmd"@ {
        seq!["/C"@]
    } else if shell == "sh"@ {
        seq!["-c"@]
    } else {
        Seq::empty()
    }
}

/// The flags to prepend for the given shell identifier.
pub fn shell_flags(shell: &String) -> (r: Vec<String>)
    ensures
        r.deep_view() == shell_flags_model(shell@),
{
    let mut r: Vec<String> = Vec::new();
    if *shell == String::from_str("powershell") || *shell == String::from_str("pwsh") {
        r.push(String::from_str("/nologo"));
        r.push(String::from_str("-Command"));
        r.push(String::from_str("\""));
        proof {
            assert(r.deep_view() =~= shell_flags_model(shell@));
        }
    } else if *shell == String::from_str("cmd") {
        r.push(String::from_str("/C"));
        proof {
            assert(r.deep_view() =~= shell_flags_model(shell@));
        }
    } else if *shell == String::from_str("sh") {
        r.push(String::from_str("-c"));
        proof {
            assert(r.deep_view() =~= shell_flags_model(shell@));
        }
    } else {
        proof {
            assert(r.deep_view() =~= shell_flags_model(shell@));
        }
    }
    r
}

/// The child command line: the shell binary, then the shell's flags, then
/// the user's trailing arguments, verbatim and in order.
#[derive(Debug)]
pub struct Invocation {
    pub program: String,
    pub args: Vec<String>,
}

/// Build the child command line, or refuse when no trailing arguments were
/// given: the launcher never runs with an empty command.
pub fn build_invocation(shell: String, trailing: &Vec<String>) -> (r: Result<Invocation, RunError>)
    ensures
        trailing@.len() == 0 ==> r == Err::<Invocation, RunError>(RunError::NoCommandProvided),
        trailing@.len() > 0 ==> (r matches Ok(inv) && inv.program == shell
            && inv.args.deep_view() == shell_flags_model(shell@) + trailing.deep_view()),
{
    if trailing.len() == 0 {
        return Err(RunError::NoCommandProvided);
    }
    let mut args = shell_flags(&shell);
    let ghost flags = shell_flags_model(shell@);
    let ghost whole = flags + trailing.deep_view();
    proof {
        assert(args.deep_view().len() == args@.len());
        assert forall|j: int| 0 <= j < args@.len() implies #[trigger] args@[j]@ == whole[j] by {
            assert(args@[j]@ == args.deep_view()[j]);
        }
    }
    let mut i: usize = 0;
    while i < trailing.len()
        invariant
            i <= trailing@.len(),
            whole == flags + trailing.deep_view(),
            whole.len() == flags.len() + trailing@.len(),
            args@.len() == flags.len() + i,
            forall|j: int| 0 <= j < args@.len() ==> #[trigger] args@[j]@ == whole[j],
        decreases trailing@.len() - i,
    {
        args.push(trailing[i].clone());
        proof {
            assert(args@.last() == trailing@[i as int]);
            assert(whole[flags.len() + i] == trailing.deep_view()[i as int]);
        }
        i += 1;
    }
    proof {
        assert(args.deep_view() =~= whole);
    }
    Ok(Invocation { program: shell, args })
}

/// What the parent does once the child is done: exit with the child's own
/// numeric status when it has one, else complete normally. A child killed
/// by a signal has no numeric status, and the pipeline deliberately treats
/// that as normal completion.
#[derive(Debug, Clone, Copy, PartialEq, Eq, Structural)]
pub enum ExitOutcome {
    /// Terminate the whole parent process with this code at once.
    Exit(i32),
    /// Fall through to the normal success path.
    Completed,
}

/// Decide the parent's fate from the child's exit status.
pub fn completion_action(code: Option<i32>) -> (r: ExitOutcome)
    ensures
        match code {
            Some(c) => r == ExitOutcome::Exit(c),
            None => r == ExitOutcome::Completed,
        },
{
    match code {
        Some(c) => ExitOutcome::Exit(c),
        None => ExitOutcome::Completed,
    }
}

} // verus!
