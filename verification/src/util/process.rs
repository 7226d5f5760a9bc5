//! Subprocesses as values: what to run, and what came back.

use vstd::prelude::*;

use crate::util::text::join;

verus! {

/// A program to run, with its arguments and, where it matters, the directory
/// to run it in. Standard input is closed; both output streams are captured.
#[derive(Debug, Clone, PartialEq, Eq)]
pub struct CommandLine {
    pub program: String,
    pub args: Vec<String>,
    pub current_dir: Option<String>,
}

/// The mathematical content of a [`CommandLine`].
pub struct CommandLineView {
    pub program: Seq<char>,
    pub args: Seq<Seq<char>>,
    pub current_dir: Option<Seq<char>>,
}

impl View for CommandLine {
    type V = CommandLineView;

    open spec fn view(&self) -> CommandLineView {
        CommandLineView {
            program: self.program@,
            args: self.args.deep_view(),
            current_dir: match self.current_dir {
                Some(dir) => Some(dir@),
                None => None,
            },
        }
    }
}

/// `program` run with `args` in the directory the host happens to be in.
pub open spec fn invocation(program: Seq<char>, args: Seq<Seq<char>>) -> CommandLineView {
    CommandLineView { program, args, current_dir: None }
}

/// `program` run with `args` in the directory `dir`.
pub open spec fn invocation_in(
    program: Seq<char>,
    args: Seq<Seq<char>>,
    dir: Seq<char>,
) -> CommandLineView {
    CommandLineView { program, args, current_dir: Some(dir) }
}

impl CommandLine {
    /// The command line `program args...`.
    pub fn new(program: &str, args: &[&str]) -> (line: CommandLine)
        ensures
            line@ == invocation(program@, args.deep_view()),
    {
        let mut owned: Vec<String> = Vec::new();
        let mut i: usize = 0;
        while i < args.len()
            invariant
                i <= args.len(),
                owned.len() == i,
                forall|j: int| 0 <= j < i ==> owned@[j]@ == args@[j]@,
            decreases args.len() - i,
        {
            owned.push(String::from_str(args[i]));
            i += 1;
        }
        assert(owned.deep_view() =~= args.deep_view());
        CommandLine { program: String::from_str(program), args: owned, current_dir: None }
    }

    /// The same command line with one more argument at the end.
    pub fn arg(self, arg: &str) -> (line: CommandLine)
        ensures
            line@ == (CommandLineView { args: self@.args.push(arg@), ..self@ }),
    {
        let mut args = self.args;
        let ghost before = args.deep_view();
        args.push(String::from_str(arg));
        assert(args.deep_view() =~= before.push(arg@));
        CommandLine { program: self.program, args, current_dir: self.current_dir }
    }

    /// The same command line, run in `dir`.
    pub fn in_dir(self, dir: &str) -> (line: CommandLine)
        ensures
            line@ == invocation_in(self@.program, self@.args, dir@),
    {
        CommandLine { program: self.program, args: self.args, current_dir: Some(String::from_str(dir)) }
    }
}

/// What a finished subprocess left behind: whether it exited with success,
/// and what it wrote, decoded as text.
#[derive(Debug, Clone, PartialEq, Eq)]
pub struct ProcessOutput {
    pub success: bool,
    pub stdout: String,
    pub stderr: String,
}

/// What the host reports to an operation that runs one command: nothing yet,
/// or how the command went. `Err` holds the reason the command could not be
/// started at all.
#[derive(Debug, PartialEq, Eq)]
pub enum Progress {
    Begin,
    Ran(Result<ProcessOutput, String>),
}

/// What an operation that runs one command asks for next: run this and
/// report back, or stop with a result.
#[derive(Debug, PartialEq, Eq)]
pub enum Step<T> {
    Run(CommandLine),
    Done(T),
}

/// What becomes of a command that is run for its effect alone: success if it
/// ran and exited with success; else `not_started` followed by the reason it
/// could not be started, or `failed` followed by what it wrote to standard
/// error.
pub open spec fn settled(
    ran: Result<ProcessOutput, String>,
    not_started: Seq<char>,
    failed: Seq<char>,
    outcome: Result<(), String>,
) -> bool {
    match ran {
        Err(reason) => outcome matches Err(text) && text@ == not_started + reason@,
        Ok(output) => if output.success {
            outcome is Ok
        } else {
            outcome matches Err(text) && text@ == failed + output.stderr@
        },
    }
}

/// Settles a command that was run for its effect alone.
pub fn settle(ran: &Result<ProcessOutput, String>, not_started: &str, failed: &str) -> (outcome:
    Result<(), String>)
    ensures
        settled(*ran, not_started@, failed@, outcome),
{
    match ran {
        Err(reason) => Err(join(not_started, reason.as_str())),
        Ok(output) => {
            if output.success {
                Ok(())
            } else {
                Err(join(failed, output.stderr.as_str()))
            }
        },
    }
}

} // verus!
