//! Cleanup plans: the steps a build tool asks its caller to carry out, and
//! the interpretation of what running an external command gave back.
use vstd::prelude::*;

verus! {

/// An external command, run with `cwd` as its working directory.
#[derive(Debug, Clone)]
pub struct CommandLine {
    pub program: String,
    pub args: Vec<String>,
    pub cwd: String,
}

/// One step of a cleanup, to be carried out in order; the first failing step
/// ends the cleanup.
#[derive(Debug, Clone)]
pub enum CleanStep {
    /// Write this line to standard output; touches nothing.
    Print(String),
    /// Remove this directory tree.
    RemoveDir(String),
    /// Run this command; it must exit successfully.
    Run(CommandLine),
}

/// Whether a step changes the filesystem or starts a process.
pub open spec fn is_effectful(s: CleanStep) -> bool {
    !(s is Print)
}

/// What became of an attempt to run a command.
#[derive(Debug, Clone, Copy, PartialEq, Eq, Structural)]
pub enum RunOutcome {
    /// The process could not be started.
    SpawnFailed,
    /// The process ran and exited; `code` is its exit code, if it had one.
    Exited { success: bool, code: Option<i32> },
}

/// Why a cleanup step failed, with the command text and project path that a
/// diagnostic needs.
#[derive(Debug, Clone)]
pub enum CleanError {
    Spawn { command: String, path: String },
    ExitStatus { code: Option<i32>, command: String, path: String },
}

/// A command line as text: the program followed by each argument, separated
/// by single spaces.
pub open spec fn rendered(program: Seq<char>, args: Seq<String>) -> Seq<char>
    decreases args.len(),
{
    if args.len() == 0 {
        program
    } else {
        rendered(program, args.drop_last()) + seq![' '] + args.last()@
    }
}

impl CommandLine {
    /// The command as it would be typed in a shell.
    pub fn render(&self) -> (r: String)
        ensures
            r@ == rendered(self.program@, self.args@),
    {
        let mut r = String::from_str(self.program.as_str());
        let mut i: usize = 0;
        while i < self.args.len()
            invariant
                0 <= i <= self.args@.len(),
                r@ == rendered(self.program@, self.args@.take(i as int)),
            decreases self.args.len() - i,
        {
            proof {
                reveal_strlit(" ");
            }
            let ghost prev = r@;
            assert(self.args@.take(i as int + 1).drop_last() == self.args@.take(i as int));
            assert(self.args@.take(i as int + 1).last() == self.args@[i as int]);
            r.append(" ");
            r.append(self.args[i].as_str());
            assert(r@ == prev + seq![' '] + self.args@[i as int]@);
            i = i + 1;
        }
        assert(self.args@.take(i as int) == self.args@);
        r
    }
}

/// Turns the outcome of running `cmd` into the result of that step: success
/// only for a process that ran and reported success.
pub fn check_run(cmd: &CommandLine, outcome: RunOutcome) -> (r: Result<(), CleanError>)
    ensures
        r is Ok <==> (outcome is Exited && outcome->success),
        outcome is SpawnFailed ==> (r matches Err(CleanError::Spawn { command, path }) && command@
            == rendered(cmd.program@, cmd.args@) && path@ == cmd.cwd@),
        (outcome is Exited && !outcome->success) ==> (r matches Err(
            CleanError::ExitStatus { code, command, path },
        ) && code == outcome->code && command@ == rendered(cmd.program@, cmd.args@) && path@
            == cmd.cwd@),
{
    match outcome {
        RunOutcome::SpawnFailed => Err(
            CleanError::Spawn { command: cmd.render(), path: cmd.cwd.clone() },
        ),
        RunOutcome::Exited { success, code } => {
            if success {
                Ok(())
            } else {
                Err(CleanError::ExitStatus { code, command: cmd.render(), path: cmd.cwd.clone() })
            }
        },
    }
}

} // verus!
