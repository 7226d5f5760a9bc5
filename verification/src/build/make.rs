//! Building with `make`.

use vstd::prelude::*;

use crate::util::process::{invocation, CommandLine, ProcessOutput};
use crate::util::text::join;

verus! {

/// What the host reports while a makefile is executed.
#[derive(Debug, PartialEq, Eq)]
pub enum MakeEvent {
    Begin,
    /// `make` was asked for its version.
    Checked(Result<ProcessOutput, String>),
    /// `make` was run on the makefile.
    Executed(Result<ProcessOutput, String>),
}

/// What executing a makefile asks for next.
#[derive(Debug, PartialEq, Eq)]
pub enum MakeStep {
    /// Report as [`MakeEvent::Checked`].
    Check(CommandLine),
    /// Report as [`MakeEvent::Executed`].
    Execute(CommandLine),
    /// What `make` wrote to standard output, or why the build failed.
    Done(Result<String, String>),
}

/// What is said when `make` cannot be used.
pub open spec fn make_unusable_text() -> Seq<char> {
    "Make command is not installed or not executable"@
}

/// Whether `make` can be used: it printed its version and exited with
/// success.
pub fn check_makefile_dependencies(checked: &Result<ProcessOutput, String>) -> (usable: bool)
    ensures
        usable == (*checked matches Ok(output) && output.success),
{
    match checked {
        Ok(output) => output.success,
        Err(_) => false,
    }
}

/// The command line `command args... path`.
pub fn execute_command(command: &str, args: &[&str], path: &str) -> (line: CommandLine)
    ensures
        line@ == invocation(command@, args.deep_view().push(path@)),
{
    CommandLine::new(command, args).arg(path)
}

/// Executes the makefile at `path`.
///
/// `make` is first asked for its version. If that cannot be had the build
/// fails without `make` being run on the makefile. Else `make -f path` is
/// run, so that `make` reads the makefile at `path`: its standard output is
/// the result if it exits with success, its standard error is the failure if
/// it does not.
pub fn execute_makefile(path: &str, event: MakeEvent) -> (step: MakeStep)
    ensures
        match event {
            MakeEvent::Begin => step matches MakeStep::Check(line) && line@ == invocation(
                "make"@,
                seq!["--version"@],
            ),
            MakeEvent::Checked(checked) => if checked matches Ok(output) && output.success {
                step matches MakeStep::Execute(line) && line@ == invocation(
                    "make"@,
                    seq!["-f"@, path@],
                )
            } else {
                step matches MakeStep::Done(Err(text)) && text@ == make_unusable_text()
            },
            MakeEvent::Executed(Err(reason)) => step matches MakeStep::Done(Err(text)) && text@
                == "Failed to execute Makefile: "@ + reason@,
            MakeEvent::Executed(Ok(output)) => if output.success {
                step matches MakeStep::Done(Ok(text)) && text@ == output.stdout@
            } else {
                step matches MakeStep::Done(Err(text)) && text@ == output.stderr@
            },
        },
{
    match event {
        MakeEvent::Begin => {
            let line = CommandLine::new("make", &["--version"]);
            assert(line@.args =~= seq!["--version"@]);
            MakeStep::Check(line)
        },
        MakeEvent::Checked(checked) => {
            if !check_makefile_dependencies(&checked) {
                return MakeStep::Done(
                    Err(String::from_str("Make command is not installed or not executable")),
                );
            }
            let line = execute_command("make", &["-f"], path);
            assert(line@.args =~= seq!["-f"@, path@]);
            MakeStep::Execute(line)
        },
        MakeEvent::Executed(Err(reason)) => MakeStep::Done(
            Err(join("Failed to execute Makefile: ", reason.as_str())),
        ),
        MakeEvent::Executed(Ok(output)) => {
            if output.success {
                MakeStep::Done(Ok(output.stdout))
            } else {
                MakeStep::Done(Err(output.stderr))
            }
        },
    }
}

} // verus!
