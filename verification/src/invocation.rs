//! Process descriptors for the external compiler, and the judgement of a
//! finished process.
//!
//! Nothing here spawns a process: a descriptor says what to spawn, with
//! which arguments, in which directory, and whether to discard the child's
//! output streams. The caller that owns the process boundary performs the
//! spawn and reports back the exit status, which is the only evidence ever
//! consulted to decide success.

use vstd::prelude::*;

verus! {

/// A process ready to be spawned: the program, its argument sequence, the
/// working directory, and whether the child's standard output and error
/// are discarded.
pub struct Invocation {
    pub program: String,
    pub args: Vec<String>,
    pub working_dir: String,
    pub silence_output: bool,
}

/// The operation on whose behalf the external compiler ran.
#[derive(Clone, Copy, Debug, PartialEq, Eq, Structural)]
pub enum Stage {
    Compile,
    Link,
}

/// Why an operation failed. Every failure is fatal to the whole operation:
/// none is retried and none is downgraded.
#[derive(Clone, Copy, Debug, PartialEq, Eq, Structural)]
pub enum OrchestrationError {
    /// The source path could not be canonicalized, or the source directory
    /// could not be read.
    Resolution,
    /// The external process could not be started at all.
    Spawn,
    /// The external process started but exited with a failure status.
    Execution,
}

/// The program spawned for the external compiler. Where executables are
/// directly invocable the compiler is named itself; where scripts must go
/// through the command shell, the shell is the program.
pub open spec fn solc_program(shell_wrapped: bool) -> Seq<char> {
    if shell_wrapped {
        "cmd.exe"@
    } else {
        "solc"@
    }
}

/// The arguments that precede any operation's own flags: the command shell
/// is told which script to run; a direct invocation needs nothing.
pub open spec fn solc_prelude_args(shell_wrapped: bool) -> Seq<Seq<char>> {
    if shell_wrapped {
        seq!["/c"@, "solc.cmd"@]
    } else {
        Seq::empty()
    }
}

/// A descriptor for the external compiler before any operation's own flags
/// are appended. Nothing can fail here: a missing executable only surfaces
/// later, when the process is spawned.
pub fn solc(shell_wrapped: bool) -> (inv: Invocation)
    ensures
        inv.program@ == solc_program(shell_wrapped),
        inv.args.deep_view() == solc_prelude_args(shell_wrapped),
        inv.working_dir@ == ""@,
        inv.silence_output == false,
{
    if shell_wrapped {
        let mut args: Vec<String> = Vec::new();
        args.push("/c".to_owned());
        args.push("solc.cmd".to_owned());
        proof {
            assert(args.deep_view() =~= solc_prelude_args(true));
        }
        Invocation {
            program: "cmd.exe".to_owned(),
            args,
            working_dir: "".to_owned(),
            silence_output: false,
        }
    } else {
        let args: Vec<String> = Vec::new();
        proof {
            assert(args.deep_view() =~= solc_prelude_args(false));
        }
        Invocation {
            program: "solc".to_owned(),
            args,
            working_dir: "".to_owned(),
            silence_output: false,
        }
    }
}

/// Judges a spawned process. `exit_success` is `None` when the process
/// could not be started, otherwise whether its exit status reported
/// success. The exit status is the only evidence consulted: nothing the
/// child printed, and nothing about the request that produced it, plays
/// any part in the outcome.
pub fn process_outcome(exit_success: Option<bool>) -> (r: Result<(), OrchestrationError>)
    ensures
        r is Ok <==> exit_success == Some(true),
        exit_success is None ==> r == Err::<(), OrchestrationError>(OrchestrationError::Spawn),
        exit_success == Some(false) ==> r == Err::<(), OrchestrationError>(
            OrchestrationError::Execution,
        ),
{
    match exit_success {
        None => Err(OrchestrationError::Spawn),
        Some(false) => Err(OrchestrationError::Execution),
        Some(true) => Ok(()),
    }
}

/// The message with which an operation aborts when the external process
/// exited with a failure status, naming the stage that failed.
pub fn execution_failure_message(stage: Stage) -> (m: &'static str)
    ensures
        stage == Stage::Compile ==> m@ == "There was an error while compiling contracts code."@,
        stage == Stage::Link ==> m@ == "There was an error while linking contracts code."@,
{
    match stage {
        Stage::Compile => "There was an error while compiling contracts code.",
        Stage::Link => "There was an error while linking contracts code.",
    }
}

} // verus!
