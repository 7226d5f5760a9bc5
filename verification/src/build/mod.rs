//! Building a repository by one of a closed set of methods.
//!
//! A build request is checked in three stages before anything is run: the
//! method must be one of the four known ones, the repository must hold at
//! least one workflow file, and it must hold the file that the method asked
//! for needs. Then the method runs, and the first failure ends the request.

use vstd::prelude::*;

use crate::error::{Error, ErrorView, Prerequisite};
use crate::util::process::{invocation, CommandLine, ProcessOutput};
use crate::util::text::{join, join3, same_text};
use crate::util::workflows::{
    cargo_toml_path, found_workflows, inspection, makefile_path, no_workflow_text, script_path,
    workflow_paths, WorkflowFindings, WorkflowPaths, WorkflowScripts, WorkflowScriptsView,
};

pub mod docker;
pub mod make;

verus! {

/// The ways to build a repository.
#[derive(Debug, Clone, Copy, PartialEq, Eq, Structural)]
pub enum BuildMethod {
    /// `make`, on the repository's makefile.
    Make,
    /// `sh`, on the repository's build script.
    Script,
    /// `cargo build`, where the host stands.
    Cargo,
    /// `cargo build`, in a managed container.
    Docker,
}

/// The image the containerized build runs in.
pub const BUILD_IMAGE_NAME: &'static str = "my_image";

/// What the name of a repository's build container begins with.
pub const BUILD_CONTAINER_PREFIX: &'static str = "cargo_release_";

/// What is run in the container.
pub const CONTAINER_BUILD_COMMAND: &'static str = "cargo build";

/// The definition of the image the containerized build runs in.
pub const BUILD_IMAGE_DEFINITION: &'static str =
    "\n                    FROM ubuntu:latest\n                    RUN apt-get update && \\\n                        apt-get install -y curl && \\\n                        curl --proto '=https' --tlsv1.2 -sSf https://sh.rustup.rs | sh -s -- -y && \\\n                        . $HOME/.cargo/env\n                ";

/// The method that `method` names, if it names one.
pub open spec fn parsed_method(method: Seq<char>) -> Option<BuildMethod> {
    if method == "make"@ {
        Some(BuildMethod::Make)
    } else if method == "script"@ {
        Some(BuildMethod::Script)
    } else if method == "cargo"@ {
        Some(BuildMethod::Cargo)
    } else if method == "docker"@ {
        Some(BuildMethod::Docker)
    } else {
        None
    }
}

/// The file that `method` needs and `found` lacks, if there is one. The
/// containerized build needs none of its own.
pub open spec fn missing_prerequisite(
    method: BuildMethod,
    found: WorkflowScriptsView,
) -> Option<Prerequisite> {
    match method {
        BuildMethod::Make => if found.makefile {
            None
        } else {
            Some(Prerequisite::Makefile)
        },
        BuildMethod::Script => if found.script {
            None
        } else {
            Some(Prerequisite::BuildScript)
        },
        BuildMethod::Cargo => if found.cargo_toml {
            None
        } else {
            Some(Prerequisite::CargoToml)
        },
        BuildMethod::Docker => None,
    }
}

/// What the host reports while a repository is built.
#[derive(Debug, PartialEq, Eq)]
pub enum BuildEvent {
    Begin,
    /// The workflow files were looked for.
    Inspected(WorkflowFindings),
    /// The makefile was executed, to the end of [`make::execute_makefile`].
    MakeDone(Result<String, String>),
    /// The build script was run.
    ScriptRan(Result<ProcessOutput, String>),
    /// `cargo build` was run on the host.
    CargoRan(Result<ProcessOutput, String>),
    /// A container manager was asked for, to the end of
    /// [`docker::DockerManager::new`].
    Acquired(Result<(), String>),
    /// The image was built, to the end of
    /// [`docker::DockerManager::build_image`].
    ImageBuilt(Result<ProcessOutput, String>),
    /// The container was brought up, to the end of
    /// [`docker::DockerManager::run_container`].
    ContainerUp(Result<(), String>),
    /// The build command was run in the container, to the end of
    /// [`docker::DockerManager::run_command_in_container`].
    Executed(Result<(), String>),
}

/// What building a repository asks for next.
#[derive(Debug, PartialEq, Eq)]
pub enum BuildStep<T> {
    /// Look at the three paths. Report as [`BuildEvent::Inspected`].
    Inspect(WorkflowPaths),
    /// Follow [`make::execute_makefile`] for this makefile to its end.
    /// Report as [`BuildEvent::MakeDone`].
    Make { makefile: String },
    /// Run this command. Report as [`BuildEvent::ScriptRan`].
    Script(CommandLine),
    /// Run this command. Report as [`BuildEvent::CargoRan`].
    Cargo(CommandLine),
    /// Follow [`docker::DockerManager::new`] for these names to its end and
    /// keep the manager for the steps that follow. Report as
    /// [`BuildEvent::Acquired`].
    Acquire { image_name: String, container_name: String },
    /// Follow [`docker::DockerManager::build_image`] for this definition to
    /// its end. Report as [`BuildEvent::ImageBuilt`].
    BuildImage { dockerfile_content: String },
    /// Follow [`docker::DockerManager::run_container`], without options, to
    /// its end. Report as [`BuildEvent::ContainerUp`].
    RunContainer,
    /// Follow [`docker::DockerManager::run_command_in_container`] for this
    /// command to its end. Report as [`BuildEvent::Executed`].
    Execute { command: String },
    Done(T),
}

/// What a build does after an event.
pub enum BuildPlan {
    Inspect,
    Make,
    Script,
    Cargo,
    Acquire,
    BuildImage,
    RunContainer,
    Execute,
    /// The build has failed.
    Fail(ErrorView),
    /// The build has succeeded.
    Succeed,
}

/// How the method `method` begins, once its file is known to be there.
pub open spec fn first_step(method: BuildMethod) -> BuildPlan {
    match method {
        BuildMethod::Make => BuildPlan::Make,
        BuildMethod::Script => BuildPlan::Script,
        BuildMethod::Cargo => BuildPlan::Cargo,
        BuildMethod::Docker => BuildPlan::Acquire,
    }
}

/// What is decided once the workflow files have been looked for: the request
/// fails with `NotFound` if none of them is there, with `MissingPrerequisite`
/// if the one that `method` needs is not there, whatever else is; else the
/// method begins.
pub open spec fn after_inspection(method: BuildMethod, seen: WorkflowFindings) -> BuildPlan {
    match inspection(seen.makefile_is_file, seen.script_is_file, seen.cargo_toml_exists) {
        None => BuildPlan::Fail(
            ErrorView::NotFound("Failed to get build scripts: "@ + no_workflow_text()),
        ),
        Some(found) => match missing_prerequisite(method, found) {
            Some(missing) => BuildPlan::Fail(ErrorView::MissingPrerequisite(missing)),
            None => first_step(method),
        },
    }
}

/// Whether `event` is a report that a build by `method` asks for. Every
/// method begins and inspects; beyond that each has its own reports.
pub open spec fn belongs(method: BuildMethod, event: BuildEvent) -> bool {
    match event {
        BuildEvent::Begin => true,
        BuildEvent::Inspected(_) => true,
        BuildEvent::MakeDone(_) => method == BuildMethod::Make,
        BuildEvent::ScriptRan(_) => method == BuildMethod::Script,
        BuildEvent::CargoRan(_) => method == BuildMethod::Cargo,
        BuildEvent::Acquired(_) => method == BuildMethod::Docker,
        BuildEvent::ImageBuilt(_) => method == BuildMethod::Docker,
        BuildEvent::ContainerUp(_) => method == BuildMethod::Docker,
        BuildEvent::Executed(_) => method == BuildMethod::Docker,
    }
}

/// What is said of a report that the method named `method` never asks for.
pub open spec fn foreign_report_text(method: Seq<char>) -> Seq<char> {
    "Report does not belong to build method: "@ + method
}

/// The course of a build request for the method named `method`, event by
/// event.
///
/// A report that the method never asks for fails the request with
/// `BuildFailed`, whatever it reports: the outcome of one method is never
/// taken for the outcome of another.
///
/// A name that is no method fails the request with `InvalidMethod` before
/// anything is looked at or run. A build script or a direct `cargo build`
/// that cannot be started, or exits without success, fails the request with
/// `BuildFailed`, which then holds what the command wrote to standard error.
/// In the containerized build the stages are: a manager, the image, the
/// container, the command; the failure of one ends the request with that
/// stage's text, and a container that does not come up is
/// `ContainerStartFailed`. An image build that exits without success has
/// failed, with what it wrote to standard error.
pub open spec fn build_plan(method: Seq<char>, event: BuildEvent) -> BuildPlan {
    match parsed_method(method) {
        None => BuildPlan::Fail(ErrorView::InvalidMethod(method)),
        Some(known) => if !belongs(known, event) {
            BuildPlan::Fail(ErrorView::BuildFailed(foreign_report_text(method)))
        } else {
            own_course(known, event)
        },
    }
}

/// The course of a build by `method` over the reports that belong to it.
pub open spec fn own_course(method: BuildMethod, event: BuildEvent) -> BuildPlan {
    match event {
        BuildEvent::Begin => BuildPlan::Inspect,
        BuildEvent::Inspected(seen) => after_inspection(method, seen),
        BuildEvent::MakeDone(Ok(_)) => BuildPlan::Succeed,
        BuildEvent::MakeDone(Err(reason)) => BuildPlan::Fail(
            ErrorView::BuildFailed("Make build failed: "@ + reason@),
        ),
        BuildEvent::ScriptRan(Err(reason)) => BuildPlan::Fail(
            ErrorView::BuildFailed(
                "Script build failed: "@ + ("Failed to execute build script: "@ + reason@),
            ),
        ),
        BuildEvent::ScriptRan(Ok(output)) => if output.success {
            BuildPlan::Succeed
        } else {
            BuildPlan::Fail(ErrorView::BuildFailed("Script build failed: "@ + output.stderr@))
        },
        BuildEvent::CargoRan(Err(reason)) => BuildPlan::Fail(
            ErrorView::BuildFailed(
                "Cargo build failed: "@ + ("Failed to execute cargo build: "@ + reason@),
            ),
        ),
        BuildEvent::CargoRan(Ok(output)) => if output.success {
            BuildPlan::Succeed
        } else {
            BuildPlan::Fail(ErrorView::BuildFailed("Cargo build failed: "@ + output.stderr@))
        },
        BuildEvent::Acquired(Ok(_)) => BuildPlan::BuildImage,
        BuildEvent::Acquired(Err(reason)) => BuildPlan::Fail(
            ErrorView::BuildFailed("Docker Error: "@ + reason@),
        ),
        BuildEvent::ImageBuilt(Ok(output)) => if output.success {
            BuildPlan::RunContainer
        } else {
            BuildPlan::Fail(ErrorView::BuildFailed("Docker Error: "@ + output.stderr@))
        },
        BuildEvent::ImageBuilt(Err(reason)) => BuildPlan::Fail(
            ErrorView::BuildFailed("Docker Error: "@ + reason@),
        ),
        BuildEvent::ContainerUp(Ok(_)) => BuildPlan::Execute,
        BuildEvent::ContainerUp(Err(reason)) => BuildPlan::Fail(
            ErrorView::ContainerStartFailed("Failed to run Docker container: "@ + reason@),
        ),
        BuildEvent::Executed(Ok(_)) => BuildPlan::Succeed,
        BuildEvent::Executed(Err(reason)) => BuildPlan::Fail(
            ErrorView::BuildFailed("Cargo build failed: "@ + reason@),
        ),
    }
}

/// `step` asks the host for what `plan` says, for the repository called
/// `name` at `repo_path`. No step asks for a plan that has ended.
pub open spec fn build_asks<T>(
    repo_path: Seq<char>,
    name: Seq<char>,
    plan: BuildPlan,
    step: BuildStep<T>,
) -> bool {
    match plan {
        BuildPlan::Inspect => step matches BuildStep::Inspect(paths) && paths.makefile@
            == makefile_path(repo_path) && paths.script@ == script_path(repo_path)
            && paths.cargo_toml@ == cargo_toml_path(repo_path),
        BuildPlan::Make => step matches BuildStep::Make { makefile } && makefile@
            == makefile_path(repo_path),
        BuildPlan::Script => step matches BuildStep::Script(line) && line@ == invocation(
            "sh"@,
            seq![script_path(repo_path)],
        ),
        BuildPlan::Cargo => step matches BuildStep::Cargo(line) && line@ == invocation(
            "cargo"@,
            seq!["build"@],
        ),
        BuildPlan::Acquire => step matches BuildStep::Acquire { image_name, container_name }
            && image_name@ == BUILD_IMAGE_NAME@ && container_name@ == BUILD_CONTAINER_PREFIX@
            + name,
        BuildPlan::BuildImage => step matches BuildStep::BuildImage { dockerfile_content }
            && dockerfile_content@ == BUILD_IMAGE_DEFINITION@,
        BuildPlan::RunContainer => step is RunContainer,
        BuildPlan::Execute => step matches BuildStep::Execute { command } && command@
            == CONTAINER_BUILD_COMMAND@,
        BuildPlan::Fail(_) => false,
        BuildPlan::Succeed => false,
    }
}

/// A name that is none of the four methods fails the request with
/// `InvalidMethod` whatever has been reported, so nothing is looked at or run
/// for it; and no request for a known method ever fails that way.
pub proof fn unknown_method_is_refused(method: Seq<char>, event: BuildEvent)
    ensures
        parsed_method(method).is_none() ==> build_plan(method, event) == BuildPlan::Fail(
            ErrorView::InvalidMethod(method),
        ),
        parsed_method(method).is_some() ==> !(build_plan(method, event) matches BuildPlan::Fail(
            ErrorView::InvalidMethod(_),
        )),
{
}

/// The four names, and what each of them means.
pub proof fn method_names()
    ensures
        parsed_method("make"@) == Some(BuildMethod::Make),
        parsed_method("script"@) == Some(BuildMethod::Script),
        parsed_method("cargo"@) == Some(BuildMethod::Cargo),
        parsed_method("docker"@) == Some(BuildMethod::Docker),
{
    reveal_strlit("make");
    reveal_strlit("script");
    reveal_strlit("cargo");
    reveal_strlit("docker");
    // The four names differ in length, but for two of them, which differ
    // in their first character.
    assert("make"@.len() == 4 && "cargo"@.len() == 5 && "script"@.len() == 6);
    assert("script"@[0] != "docker"@[0]);
}

/// A build by script of a repository without a build script fails with
/// `MissingPrerequisite`, also where the inspection of that repository
/// succeeded because another workflow file is there; where none is there it
/// fails with `NotFound`. In neither case is anything run.
pub proof fn script_build_needs_the_script(seen: WorkflowFindings)
    requires
        !seen.script_is_file,
    ensures
        seen.makefile_is_file || seen.cargo_toml_exists ==> build_plan(
            "script"@,
            BuildEvent::Inspected(seen),
        ) == BuildPlan::Fail(ErrorView::MissingPrerequisite(Prerequisite::BuildScript)),
        !seen.makefile_is_file && !seen.cargo_toml_exists ==> build_plan(
            "script"@,
            BuildEvent::Inspected(seen),
        ) matches BuildPlan::Fail(ErrorView::NotFound(_)),
{
    method_names();
}

/// Whatever the method, a request whose file is missing stops at the
/// inspection: it fails with `MissingPrerequisite` for that file.
pub proof fn missing_file_stops_the_build(method: Seq<char>, seen: WorkflowFindings)
    requires
        parsed_method(method) matches Some(known) && inspection(
            seen.makefile_is_file,
            seen.script_is_file,
            seen.cargo_toml_exists,
        ) matches Some(found) && missing_prerequisite(known, found).is_some(),
    ensures
        build_plan(method, BuildEvent::Inspected(seen)) matches BuildPlan::Fail(
            ErrorView::MissingPrerequisite(missing),
        ) && Some(missing) == missing_prerequisite(
            parsed_method(method).unwrap(),
            inspection(
                seen.makefile_is_file,
                seen.script_is_file,
                seen.cargo_toml_exists,
            ).unwrap(),
        ),
{
}

/// `event` is the report that `step` asks for.
pub open spec fn build_answers<T>(step: BuildStep<T>, event: BuildEvent) -> bool {
    match step {
        BuildStep::Inspect(_) => event is Inspected,
        BuildStep::Make { .. } => event is MakeDone,
        BuildStep::Script(_) => event is ScriptRan,
        BuildStep::Cargo(_) => event is CargoRan,
        BuildStep::Acquire { .. } => event is Acquired,
        BuildStep::BuildImage { .. } => event is ImageBuilt,
        BuildStep::RunContainer => event is ContainerUp,
        BuildStep::Execute { .. } => event is Executed,
        BuildStep::Done(_) => false,
    }
}

/// How far a build has come when `event` is reported. The reports that end a
/// build, well or not, are all at the last stage.
pub open spec fn build_stage(event: BuildEvent) -> nat {
    match event {
        BuildEvent::Begin => 0,
        BuildEvent::Inspected(_) => 1,
        BuildEvent::Acquired(_) => 2,
        BuildEvent::ImageBuilt(_) => 3,
        BuildEvent::ContainerUp(_) => 4,
        BuildEvent::MakeDone(_) => 5,
        BuildEvent::ScriptRan(_) => 5,
        BuildEvent::CargoRan(_) => 5,
        BuildEvent::Executed(_) => 5,
    }
}

/// A build only ever moves forward, and what is reported at the last stage
/// ends it: nothing is asked for after the method's command has run. And a
/// build stays with its method: every report it asks for belongs to it.
pub proof fn build_moves_forward<T>(
    repo_path: Seq<char>,
    name: Seq<char>,
    method: Seq<char>,
    event: BuildEvent,
    step: BuildStep<T>,
    next: BuildEvent,
)
    requires
        build_asks(repo_path, name, build_plan(method, event), step),
        build_answers(step, next),
    ensures
        build_stage(event) < build_stage(next) <= 5,
        build_stage(event) < 5,
        parsed_method(method) matches Some(known) && belongs(known, event) && belongs(
            known,
            next,
        ),
{
}

/// Only the method asked for is run: once the workflow files have been
/// looked for, a build by `make` asks for the makefile to be executed and
/// for nothing else, a build by script for the script, a direct build for
/// `cargo`, and a containerized build for a container manager.
pub proof fn only_the_method_asked_for_is_run(method: Seq<char>, seen: WorkflowFindings)
    requires
        parsed_method(method).is_some(),
    ensures
        match build_plan(method, BuildEvent::Inspected(seen)) {
            BuildPlan::Fail(_) => true,
            begun => begun == first_step(parsed_method(method).unwrap()),
        },
{
}

/// A build succeeds on the word of its own method alone: by `make` when the
/// makefile was executed, by script or directly when that command ran and
/// exited with success, in a container when the command was run there. No
/// report of another method's command makes it succeed.
pub proof fn success_is_the_methods_own(method: Seq<char>, event: BuildEvent)
    requires
        build_plan(method, event) is Succeed,
    ensures
        match parsed_method(method) {
            Some(BuildMethod::Make) => event matches BuildEvent::MakeDone(Ok(_)),
            Some(BuildMethod::Script) => event matches BuildEvent::ScriptRan(Ok(output))
                && output.success,
            Some(BuildMethod::Cargo) => event matches BuildEvent::CargoRan(Ok(output))
                && output.success,
            Some(BuildMethod::Docker) => event matches BuildEvent::Executed(Ok(_)),
            None => false,
        },
{
}

/// What a caller is told when the repository called `name` has been built.
pub open spec fn success_text(name: Seq<char>) -> Seq<char> {
    "Build successful for latest commit ("@ + name + ")"@
}

/// Reads a method's name.
pub fn parse_method(method: &str) -> (parsed: Option<BuildMethod>)
    ensures
        parsed == parsed_method(method@),
{
    if same_text(method, "make") {
        Some(BuildMethod::Make)
    } else if same_text(method, "script") {
        Some(BuildMethod::Script)
    } else if same_text(method, "cargo") {
        Some(BuildMethod::Cargo)
    } else if same_text(method, "docker") {
        Some(BuildMethod::Docker)
    } else {
        None
    }
}

/// The file that `method` needs and `found` lacks, if there is one.
pub fn check_prerequisite(method: BuildMethod, found: &WorkflowScripts) -> (missing: Option<
    Prerequisite,
>)
    ensures
        missing == missing_prerequisite(method, found@),
{
    match method {
        BuildMethod::Make => if found.has_makefile() {
            None
        } else {
            Some(Prerequisite::Makefile)
        },
        BuildMethod::Script => if found.has_script() {
            None
        } else {
            Some(Prerequisite::BuildScript)
        },
        BuildMethod::Cargo => if found.has_cargo_toml() {
            None
        } else {
            Some(Prerequisite::CargoToml)
        },
        BuildMethod::Docker => None,
    }
}

/// Whether `event` is a report that a build by `method` asks for.
pub fn report_belongs(method: BuildMethod, event: &BuildEvent) -> (own: bool)
    ensures
        own == belongs(method, *event),
{
    match event {
        BuildEvent::Begin => true,
        BuildEvent::Inspected(_) => true,
        BuildEvent::MakeDone(_) => matches!(method, BuildMethod::Make),
        BuildEvent::ScriptRan(_) => matches!(method, BuildMethod::Script),
        BuildEvent::CargoRan(_) => matches!(method, BuildMethod::Cargo),
        BuildEvent::Acquired(_) => matches!(method, BuildMethod::Docker),
        BuildEvent::ImageBuilt(_) => matches!(method, BuildMethod::Docker),
        BuildEvent::ContainerUp(_) => matches!(method, BuildMethod::Docker),
        BuildEvent::Executed(_) => matches!(method, BuildMethod::Docker),
    }
}

/// The step that begins `method` for the repository called `name` at
/// `repo_path`.
fn begin_method(repo_path: &str, name: &str, method: BuildMethod) -> (step: BuildStep<
    Result<String, Error>,
>)
    ensures
        build_asks(repo_path@, name@, first_step(method), step),
{
    match method {
        BuildMethod::Make => BuildStep::Make {
            makefile: WorkflowScripts::get_makefile_path(repo_path),
        },
        BuildMethod::Script => {
            let script = WorkflowScripts::get_script_path(repo_path);
            let line = CommandLine::new("sh", &[script.as_str()]);
            assert(line@.args =~= seq![script_path(repo_path@)]);
            BuildStep::Script(line)
        },
        BuildMethod::Cargo => {
            let line = CommandLine::new("cargo", &["build"]);
            assert(line@.args =~= seq!["build"@]);
            BuildStep::Cargo(line)
        },
        BuildMethod::Docker => BuildStep::Acquire {
            image_name: String::from_str(BUILD_IMAGE_NAME),
            container_name: join(BUILD_CONTAINER_PREFIX, name),
        },
    }
}

/// Builds the repository called `name`, which lives at `repo_path`, by the
/// method named `method`.
pub fn dispatch(repo_path: &str, name: &str, method: &str, event: BuildEvent) -> (step: BuildStep<
    Result<String, Error>,
>)
    ensures
        match build_plan(method@, event) {
            BuildPlan::Fail(error) => step matches BuildStep::Done(Err(failure)) && failure@
                == error,
            BuildPlan::Succeed => step matches BuildStep::Done(Ok(text)) && text@ == success_text(
                name@,
            ),
            asked => build_asks(repo_path@, name@, asked, step),
        },
{
    let known = match parse_method(method) {
        Some(known) => known,
        None => {
            return BuildStep::Done(Err(Error::InvalidMethod(String::from_str(method))));
        },
    };
    if !report_belongs(known, &event) {
        return BuildStep::Done(
            Err(Error::BuildFailed(join("Report does not belong to build method: ", method))),
        );
    }
    let failure = match event {
        BuildEvent::Begin => {
            return BuildStep::Inspect(workflow_paths(repo_path));
        },
        BuildEvent::Inspected(seen) => {
            match found_workflows(seen) {
                Err(error) => {
                    let text = error.message();
                    Error::NotFound(join("Failed to get build scripts: ", text.as_str()))
                },
                Ok(found) => match check_prerequisite(known, &found) {
                    Some(missing) => Error::MissingPrerequisite(missing),
                    None => {
                        return begin_method(repo_path, name, known);
                    },
                },
            }
        },
        BuildEvent::Acquired(Ok(_)) => {
            return BuildStep::BuildImage {
                dockerfile_content: String::from_str(BUILD_IMAGE_DEFINITION),
            };
        },
        BuildEvent::ImageBuilt(Ok(output)) => {
            if output.success {
                return BuildStep::RunContainer;
            }
            Error::BuildFailed(join("Docker Error: ", output.stderr.as_str()))
        },
        BuildEvent::ContainerUp(Ok(_)) => {
            return BuildStep::Execute { command: String::from_str(CONTAINER_BUILD_COMMAND) };
        },
        BuildEvent::MakeDone(Err(reason)) => Error::BuildFailed(
            join("Make build failed: ", reason.as_str()),
        ),
        BuildEvent::ScriptRan(Err(reason)) => {
            let cause = join("Failed to execute build script: ", reason.as_str());
            Error::BuildFailed(join("Script build failed: ", cause.as_str()))
        },
        BuildEvent::CargoRan(Err(reason)) => {
            let cause = join("Failed to execute cargo build: ", reason.as_str());
            Error::BuildFailed(join("Cargo build failed: ", cause.as_str()))
        },
        BuildEvent::Acquired(Err(reason)) => Error::BuildFailed(
            join("Docker Error: ", reason.as_str()),
        ),
        BuildEvent::ImageBuilt(Err(reason)) => Error::BuildFailed(
            join("Docker Error: ", reason.as_str()),
        ),
        BuildEvent::ContainerUp(Err(reason)) => Error::ContainerStartFailed(
            join("Failed to run Docker container: ", reason.as_str()),
        ),
        BuildEvent::Executed(Err(reason)) => Error::BuildFailed(
            join("Cargo build failed: ", reason.as_str()),
        ),
        BuildEvent::ScriptRan(Ok(output)) => {
            if output.success {
                return BuildStep::Done(
                    Ok(join3("Build successful for latest commit (", name, ")")),
                );
            }
            Error::BuildFailed(join("Script build failed: ", output.stderr.as_str()))
        },
        BuildEvent::CargoRan(Ok(output)) => {
            if output.success {
                return BuildStep::Done(
                    Ok(join3("Build successful for latest commit (", name, ")")),
                );
            }
            Error::BuildFailed(join("Cargo build failed: ", output.stderr.as_str()))
        },
        BuildEvent::MakeDone(Ok(_)) => {
            return BuildStep::Done(Ok(join3("Build successful for latest commit (", name, ")")));
        },
        BuildEvent::Executed(Ok(_)) => {
            return BuildStep::Done(Ok(join3("Build successful for latest commit (", name, ")")));
        },
    };
    BuildStep::Done(Err(failure))
}

} // verus!
