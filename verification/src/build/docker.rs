//! A container runtime driven through its command line.
//!
//! The manager keeps no record of what the runtime is doing. Whether the
//! container runs is asked of the runtime each time, and every answer the
//! decisions rest on arrives as an argument.

use vstd::prelude::*;

use crate::util::process::{
    invocation, invocation_in, settle, settled, CommandLine, CommandLineView, ProcessOutput,
    Progress, Step,
};
use crate::util::text::{has_line, is_line_of, join, join3, one_line_listing_has_one_line};

verus! {

/// One image and one container, by name.
#[derive(Debug, Clone, PartialEq, Eq)]
pub struct DockerManager {
    image_name: String,
    container_name: String,
}

/// `docker` run with `args`.
pub open spec fn docker(args: Seq<Seq<char>>) -> CommandLineView {
    invocation("docker"@, args)
}

/// What the host reports while a container is brought up: nothing yet, or how
/// the command it was last asked to run went.
#[derive(Debug, PartialEq, Eq)]
pub enum RunEvent {
    Begin,
    /// The running containers were listed.
    Listed(Result<ProcessOutput, String>),
    /// The first start was tried.
    Started(Result<ProcessOutput, String>),
    /// The local images were listed.
    Images(Result<ProcessOutput, String>),
    /// The image was pulled.
    Pulled(Result<ProcessOutput, String>),
    /// The second start was tried.
    Restarted(Result<ProcessOutput, String>),
}

/// What bringing a container up asks for next. Each variant but the last holds
/// a command; its outcome is reported as the event named alike.
#[derive(Debug, PartialEq, Eq)]
pub enum RunStep {
    /// Report as [`RunEvent::Listed`].
    ListContainers(CommandLine),
    /// Report as [`RunEvent::Started`].
    Start(CommandLine),
    /// Report as [`RunEvent::Images`].
    ListImages(CommandLine),
    /// Report as [`RunEvent::Pulled`].
    Pull(CommandLine),
    /// Report as [`RunEvent::Restarted`].
    Restart(CommandLine),
    Done(Result<(), String>),
}

/// What the host reports while a script is run in the container.
#[derive(Debug, PartialEq, Eq)]
pub enum ScriptEvent {
    Begin,
    Copied(Result<ProcessOutput, String>),
    Executed(Result<ProcessOutput, String>),
}

/// What running a script in the container asks for next.
#[derive(Debug, PartialEq, Eq)]
pub enum ScriptStep {
    /// Report as [`ScriptEvent::Copied`].
    Copy(CommandLine),
    /// Report as [`ScriptEvent::Executed`].
    Execute(CommandLine),
    Done(Result<(), String>),
}

/// A directory made for one image build, and the image definition written
/// into it.
#[derive(Debug, Clone, PartialEq, Eq)]
pub struct BuildContext {
    pub directory: String,
    pub dockerfile: String,
}

/// Why the build context could not be made.
#[derive(Debug, Clone, PartialEq, Eq)]
pub enum StageFailure {
    /// No temporary directory could be created.
    Directory(String),
    /// The image definition could not be written.
    Write(String),
}

/// What the host reports while an image is built.
#[derive(Debug, PartialEq, Eq)]
pub enum ImageEvent {
    Begin,
    Staged(Result<BuildContext, StageFailure>),
    Built(Result<ProcessOutput, String>),
}

/// What building an image asks for next.
#[derive(Debug, PartialEq, Eq)]
pub enum ImageStep {
    /// Create a temporary directory and write `content` into the file
    /// `file_name` in it. Report as [`ImageEvent::Staged`], and keep the
    /// directory until the build command has run.
    Stage { file_name: String, content: String },
    /// Report as [`ImageEvent::Built`].
    Build(CommandLine),
    Done(Result<ProcessOutput, String>),
}

/// The tag of an image that is named without one.
pub open spec fn default_tag() -> Seq<char> {
    ":latest"@
}

/// Whether a listing of the local images, one `repository:tag` a line, holds
/// the image called `image`: a line is that name, or that name with the tag
/// an image has when none is given.
pub open spec fn lists_image(image: Seq<char>, listing: Seq<char>) -> bool {
    is_line_of(image, listing) || is_line_of(image + default_tag(), listing)
}

/// `event` is the report that `step` asks for.
pub open spec fn answers(step: RunStep, event: RunEvent) -> bool {
    match step {
        RunStep::ListContainers(_) => event is Listed,
        RunStep::Start(_) => event is Started,
        RunStep::ListImages(_) => event is Images,
        RunStep::Pull(_) => event is Pulled,
        RunStep::Restart(_) => event is Restarted,
        RunStep::Done(_) => false,
    }
}

/// How far bringing a container up has come when `event` is reported.
pub open spec fn stage(event: RunEvent) -> nat {
    match event {
        RunEvent::Begin => 0,
        RunEvent::Listed(_) => 1,
        RunEvent::Started(_) => 2,
        RunEvent::Images(_) => 3,
        RunEvent::Pulled(_) => 4,
        RunEvent::Restarted(_) => 5,
    }
}

/// Bringing a container up only ever moves forward: the report that a step
/// asks for is at a later stage than the report the step was decided on. So
/// at most five commands are run, the image is pulled at most once, and the
/// container is started at most twice.
pub proof fn bringing_up_moves_forward(
    manager: DockerManager,
    event: RunEvent,
    step: RunStep,
    next: RunEvent,
)
    requires
        manager.brings_up(event, step),
        answers(step, next),
    ensures
        stage(event) < stage(next) <= 5,
{
}

/// A container runs only under its own name: where the listing names one
/// container and that is another, this one is started, however alike the
/// two names are; where it names this one, nothing is started.
pub proof fn only_the_named_container_counts(
    manager: DockerManager,
    listed: Seq<char>,
    output: ProcessOutput,
    step: RunStep,
)
    requires
        forall|k: int| 0 <= k < listed.len() ==> listed[k] != '\n',
        output.stdout@ == listed + seq!['\n'],
        manager.brings_up(RunEvent::Listed(Ok(output)), step),
    ensures
        listed == manager.container() ==> step == RunStep::Done(Ok(())),
        listed != manager.container() ==> (step matches RunStep::Start(line) && line@ == docker(
            seq!["start"@, manager.container()],
        )),
{
    one_line_listing_has_one_line(listed, manager.container());
}

impl DockerManager {
    /// The name of the image.
    pub closed spec fn image(&self) -> Seq<char> {
        self.image_name@
    }

    /// The name of the container.
    pub closed spec fn container(&self) -> Seq<char> {
        self.container_name@
    }

    /// The name of the image.
    pub fn image_name(&self) -> (name: &str)
        ensures
            name@ == self.image(),
    {
        self.image_name.as_str()
    }

    /// The name of the container.
    pub fn container_name(&self) -> (name: &str)
        ensures
            name@ == self.container(),
    {
        self.container_name.as_str()
    }

    /// A manager, if the runtime answers.
    ///
    /// Asks first for the runtime's version to be printed. There is a manager
    /// if and only if that command ran and exited with success.
    pub fn new(image_name: &str, container_name: &str, event: Progress) -> (step: Step<
        Result<DockerManager, String>,
    >)
        ensures
            match event {
                Progress::Begin => step matches Step::Run(line) && line@ == docker(
                    seq!["--version"@],
                ),
                Progress::Ran(Ok(output)) => if output.success {
                    step matches Step::Done(Ok(manager)) && manager.image() == image_name@
                        && manager.container() == container_name@
                } else {
                    step matches Step::Done(Err(reason)) && reason@ == "Docker is not available"@
                },
                Progress::Ran(Err(_)) => step matches Step::Done(Err(reason)) && reason@
                    == "Failed to execute Docker command"@,
            },
    {
        match event {
            Progress::Begin => {
                let line = CommandLine::new("docker", &["--version"]);
                assert(line@.args =~= seq!["--version"@]);
                Step::Run(line)
            },
            Progress::Ran(Ok(output)) => {
                if output.success {
                    Step::Done(
                        Ok(
                            DockerManager {
                                image_name: String::from_str(image_name),
                                container_name: String::from_str(container_name),
                            },
                        ),
                    )
                } else {
                    Step::Done(Err(String::from_str("Docker is not available")))
                }
            },
            Progress::Ran(Err(_)) => Step::Done(
                Err(String::from_str("Failed to execute Docker command")),
            ),
        }
    }

    /// The command that starts the container.
    fn start_command(&self) -> (line: CommandLine)
        ensures
            line@ == docker(seq!["start"@, self.container()]),
    {
        let line = CommandLine::new("docker", &["start", self.container_name.as_str()]);
        assert(line@.args =~= seq!["start"@, self.container()]);
        line
    }

    /// Whether the listing of the local images holds this image.
    fn is_image_listed(&self, listing: &str) -> (listed: bool)
        ensures
            listed == lists_image(self.image(), listing@),
    {
        if has_line(listing, self.image_name.as_str()) {
            return true;
        }
        let tagged = join(self.image_name.as_str(), ":latest");
        has_line(listing, tagged.as_str())
    }

    /// Whether the listing of running containers, one name a line, names this
    /// container: one of its lines is the container's name, no more and no
    /// less.
    pub fn is_container_running(&self, listed: &Result<ProcessOutput, String>) -> (running: Result<
        bool,
        String,
    >)
        ensures
            match *listed {
                Ok(output) => running == Ok::<bool, String>(
                    is_line_of(self.container(), output.stdout@),
                ),
                Err(reason) => running matches Err(text) && text@
                    == "Failed to execute docker command: "@ + reason@,
            },
    {
        match listed {
            Ok(output) => Ok(has_line(output.stdout.as_str(), self.container_name.as_str())),
            Err(reason) => Err(join("Failed to execute docker command: ", reason.as_str())),
        }
    }

    /// What one step of bringing the container up must be, given what was
    /// last reported.
    ///
    /// The running containers are listed; if the container's name is one of
    /// the names listed nothing more is done. Else it is started. If that
    /// start fails, the local images are listed, the image is pulled unless
    /// it is among them (see [`lists_image`]),
    /// and the container is started once more. A failure of that second start
    /// is final.
    pub open spec fn brings_up(&self, event: RunEvent, step: RunStep) -> bool {
        match event {
            RunEvent::Begin => step matches RunStep::ListContainers(line) && line@ == docker(
                seq!["ps"@, "--format"@, "{{.Names}}"@],
            ),
            RunEvent::Listed(Err(reason)) => step matches RunStep::Done(Err(text)) && text@
                == "Failed to execute docker command: "@ + reason@,
            RunEvent::Listed(Ok(output)) => if is_line_of(self.container(), output.stdout@) {
                step == RunStep::Done(Ok(()))
            } else {
                step matches RunStep::Start(line) && line@ == docker(
                    seq!["start"@, self.container()],
                )
            },
            RunEvent::Started(Err(reason)) => step matches RunStep::Done(Err(text)) && text@
                == "Failed to execute start command: "@ + reason@,
            RunEvent::Started(Ok(output)) => if output.success {
                step == RunStep::Done(Ok(()))
            } else {
                step matches RunStep::ListImages(line) && line@ == docker(
                    seq!["images"@, "--format"@, "{{.Repository}}:{{.Tag}}"@],
                )
            },
            RunEvent::Images(Err(reason)) => step matches RunStep::Done(Err(text)) && text@
                == "Failed to pull Docker image: "@ + ("Failed to execute docker command: "@
                + reason@),
            RunEvent::Images(Ok(output)) => if lists_image(self.image(), output.stdout@) {
                step matches RunStep::Restart(line) && line@ == docker(
                    seq!["start"@, self.container()],
                )
            } else {
                step matches RunStep::Pull(line) && line@ == docker(seq!["pull"@, self.image()])
            },
            RunEvent::Pulled(Err(reason)) => step matches RunStep::Done(Err(text)) && text@
                == "Failed to pull Docker image: "@ + ("Failed to pull Docker image: "@ + reason@),
            RunEvent::Pulled(Ok(output)) => if output.success {
                step matches RunStep::Restart(line) && line@ == docker(
                    seq!["start"@, self.container()],
                )
            } else {
                step matches RunStep::Done(Err(text)) && text@ == "Failed to pull Docker image: "@
                    + ("Failed to pull Docker image: "@ + output.stderr@)
            },
            RunEvent::Restarted(Err(reason)) => step matches RunStep::Done(Err(text)) && text@
                == "Failed to execute start command after pulling image: "@ + reason@,
            RunEvent::Restarted(Ok(output)) => if output.success {
                step == RunStep::Done(Ok(()))
            } else {
                step matches RunStep::Done(Err(text)) && text@
                    == "Failed to start Docker container: "@ + output.stderr@
            },
        }
    }

    /// Brings the container up unless it runs already. `options` is accepted
    /// and has no effect: the container is started as it was created.
    pub fn run_container(&self, options: &[&str], event: RunEvent) -> (step: RunStep)
        ensures
            self.brings_up(event, step),
    {
        match event {
            RunEvent::Begin => {
                let line = CommandLine::new("docker", &["ps", "--format", "{{.Names}}"]);
                assert(line@.args =~= seq!["ps"@, "--format"@, "{{.Names}}"@]);
                RunStep::ListContainers(line)
            },
            RunEvent::Listed(listed) => {
                match self.is_container_running(&listed) {
                    Err(text) => RunStep::Done(Err(text)),
                    Ok(true) => RunStep::Done(Ok(())),
                    Ok(false) => RunStep::Start(self.start_command()),
                }
            },
            later => self.start_container(options, later),
        }
    }

    /// The part of bringing the container up that follows the first start.
    fn start_container(&self, options: &[&str], event: RunEvent) -> (step: RunStep)
        requires
            !(event is Begin),
            !(event is Listed),
        ensures
            self.brings_up(event, step),
    {
        match event {
            RunEvent::Started(Err(reason)) => RunStep::Done(
                Err(join("Failed to execute start command: ", reason.as_str())),
            ),
            RunEvent::Started(Ok(output)) => {
                if output.success {
                    RunStep::Done(Ok(()))
                } else {
                    let line = CommandLine::new(
                        "docker",
                        &["images", "--format", "{{.Repository}}:{{.Tag}}"],
                    );
                    assert(line@.args =~= seq![
                        "images"@,
                        "--format"@,
                        "{{.Repository}}:{{.Tag}}"@,
                    ]);
                    RunStep::ListImages(line)
                }
            },
            RunEvent::Restarted(Err(reason)) => RunStep::Done(
                Err(
                    join(
                        "Failed to execute start command after pulling image: ",
                        reason.as_str(),
                    ),
                ),
            ),
            RunEvent::Restarted(Ok(output)) => {
                if output.success {
                    RunStep::Done(Ok(()))
                } else {
                    RunStep::Done(
                        Err(join("Failed to start Docker container: ", output.stderr.as_str())),
                    )
                }
            },
            pulling => {
                match self.pull_image_if_not_exists(pulling) {
                    Err(text) => RunStep::Done(
                        Err(join("Failed to pull Docker image: ", text.as_str())),
                    ),
                    Ok(Some(line)) => RunStep::Pull(line),
                    Ok(None) => RunStep::Restart(self.start_command()),
                }
            },
        }
    }

    /// Decides whether the image has to be pulled, and whether a pull went
    /// well: the pull command to run, nothing when the image is there, or
    /// what went wrong.
    fn pull_image_if_not_exists(&self, event: RunEvent) -> (pull: Result<
        Option<CommandLine>,
        String,
    >)
        requires
            event is Images || event is Pulled,
        ensures
            match event {
                RunEvent::Images(Err(reason)) => pull matches Err(text) && text@
                    == "Failed to execute docker command: "@ + reason@,
                RunEvent::Images(Ok(output)) => if lists_image(self.image(), output.stdout@) {
                    pull == Ok::<Option<CommandLine>, String>(None)
                } else {
                    pull matches Ok(Some(line)) && line@ == docker(seq!["pull"@, self.image()])
                },
                RunEvent::Pulled(Err(reason)) => pull matches Err(text) && text@
                    == "Failed to pull Docker image: "@ + reason@,
                RunEvent::Pulled(Ok(output)) => if output.success {
                    pull == Ok::<Option<CommandLine>, String>(None)
                } else {
                    pull matches Err(text) && text@ == "Failed to pull Docker image: "@
                        + output.stderr@
                },
                _ => true,
            },
    {
        match event {
            RunEvent::Images(Err(reason)) => Err(
                join("Failed to execute docker command: ", reason.as_str()),
            ),
            RunEvent::Images(Ok(output)) => {
                if self.is_image_listed(output.stdout.as_str()) {
                    Ok(None)
                } else {
                    let line = CommandLine::new("docker", &["pull", self.image_name.as_str()]);
                    assert(line@.args =~= seq!["pull"@, self.image()]);
                    Ok(Some(line))
                }
            },
            RunEvent::Pulled(Err(reason)) => Err(
                join("Failed to pull Docker image: ", reason.as_str()),
            ),
            RunEvent::Pulled(Ok(output)) => {
                if output.success {
                    Ok(None)
                } else {
                    Err(join("Failed to pull Docker image: ", output.stderr.as_str()))
                }
            },
            _ => Ok(None),
        }
    }

    /// Stops the container.
    pub fn stop_container(&self, event: Progress) -> (step: Step<Result<(), String>>)
        ensures
            match event {
                Progress::Begin => step matches Step::Run(line) && line@ == docker(
                    seq!["stop"@, self.container()],
                ),
                Progress::Ran(ran) => step matches Step::Done(outcome) && settled(
                    ran,
                    "Failed to stop Docker container: "@,
                    "Failed to stop Docker container: "@,
                    outcome,
                ),
            },
    {
        match event {
            Progress::Begin => {
                let line = CommandLine::new("docker", &["stop", self.container_name.as_str()]);
                assert(line@.args =~= seq!["stop"@, self.container()]);
                Step::Run(line)
            },
            Progress::Ran(ran) => Step::Done(
                settle(
                    &ran,
                    "Failed to stop Docker container: ",
                    "Failed to stop Docker container: ",
                ),
            ),
        }
    }

    /// Builds the image from the definition `dockerfile_content`.
    ///
    /// The definition is written to a file `Dockerfile` in a fresh temporary
    /// directory, and the runtime's build command is run in that directory.
    /// The output of the build command is handed back whatever its exit
    /// status; only a command that could not be started, or a context that
    /// could not be made, is a failure.
    pub fn build_image(&self, dockerfile_content: &str, event: ImageEvent) -> (step: ImageStep)
        ensures
            match event {
                ImageEvent::Begin => step matches ImageStep::Stage { file_name, content }
                    && file_name@ == "Dockerfile"@ && content@ == dockerfile_content@,
                ImageEvent::Staged(Err(StageFailure::Directory(reason))) => step matches ImageStep::Done(
                    Err(text),
                ) && text@ == "Failed to create temp directory: "@ + reason@,
                ImageEvent::Staged(Err(StageFailure::Write(reason))) => step matches ImageStep::Done(
                    Err(text),
                ) && text@ == "Failed to write Dockerfile: "@ + reason@,
                ImageEvent::Staged(Ok(context)) => step matches ImageStep::Build(line) && line@
                    == invocation_in(
                    "docker"@,
                    seq!["build"@, "-t"@, self.image(), "-f"@, context.dockerfile@, "."@],
                    context.directory@,
                ),
                ImageEvent::Built(Err(reason)) => step matches ImageStep::Done(Err(text)) && text@
                    == "Failed to execute build command: "@ + reason@,
                ImageEvent::Built(Ok(output)) => step == ImageStep::Done(Ok(output)),
            },
    {
        match event {
            ImageEvent::Begin => ImageStep::Stage {
                file_name: String::from_str("Dockerfile"),
                content: String::from_str(dockerfile_content),
            },
            ImageEvent::Staged(Err(StageFailure::Directory(reason))) => ImageStep::Done(
                Err(join("Failed to create temp directory: ", reason.as_str())),
            ),
            ImageEvent::Staged(Err(StageFailure::Write(reason))) => ImageStep::Done(
                Err(join("Failed to write Dockerfile: ", reason.as_str())),
            ),
            ImageEvent::Staged(Ok(context)) => {
                let line = CommandLine::new(
                    "docker",
                    &[
                        "build",
                        "-t",
                        self.image_name.as_str(),
                        "-f",
                        context.dockerfile.as_str(),
                        ".",
                    ],
                );
                assert(line@.args =~= seq![
                    "build"@,
                    "-t"@,
                    self.image(),
                    "-f"@,
                    context.dockerfile@,
                    "."@,
                ]);
                ImageStep::Build(line.in_dir(context.directory.as_str()))
            },
            ImageEvent::Built(Err(reason)) => ImageStep::Done(
                Err(join("Failed to execute build command: ", reason.as_str())),
            ),
            ImageEvent::Built(Ok(output)) => ImageStep::Done(Ok(output)),
        }
    }

    /// Copies the script at `script_path` into the container as
    /// `script_name` and runs it there with `sh`.
    pub fn run_script_in_container(
        &self,
        script_path: &str,
        script_name: &str,
        event: ScriptEvent,
    ) -> (step: ScriptStep)
        ensures
            match event {
                ScriptEvent::Begin => step matches ScriptStep::Copy(line) && line@ == docker(
                    seq!["cp"@, script_path@, self.container() + ":"@ + script_name@],
                ),
                ScriptEvent::Copied(ran) => if ran matches Ok(output) && output.success {
                    step matches ScriptStep::Execute(line) && line@ == docker(
                        seq!["exec"@, self.container(), "sh"@, script_name@],
                    )
                } else {
                    step matches ScriptStep::Done(outcome) && settled(
                        ran,
                        "Failed to copy script to container: "@,
                        "Failed to copy script to container: "@,
                        outcome,
                    )
                },
                ScriptEvent::Executed(ran) => step matches ScriptStep::Done(outcome) && settled(
                    ran,
                    "Failed to execute script in container: "@,
                    "Script execution failed: "@,
                    outcome,
                ),
            },
    {
        match event {
            ScriptEvent::Begin => {
                let target = join3(self.container_name.as_str(), ":", script_name);
                let line = CommandLine::new("docker", &["cp", script_path, target.as_str()]);
                assert(line@.args =~= seq![
                    "cp"@,
                    script_path@,
                    self.container() + ":"@ + script_name@,
                ]);
                ScriptStep::Copy(line)
            },
            ScriptEvent::Copied(ran) => {
                match settle(
                    &ran,
                    "Failed to copy script to container: ",
                    "Failed to copy script to container: ",
                ) {
                    Err(text) => ScriptStep::Done(Err(text)),
                    Ok(()) => {
                        let line = CommandLine::new(
                            "docker",
                            &["exec", self.container_name.as_str(), "sh", script_name],
                        );
                        assert(line@.args =~= seq![
                            "exec"@,
                            self.container(),
                            "sh"@,
                            script_name@,
                        ]);
                        ScriptStep::Execute(line)
                    },
                }
            },
            ScriptEvent::Executed(ran) => ScriptStep::Done(
                settle(&ran, "Failed to execute script in container: ", "Script execution failed: "),
            ),
        }
    }

    /// Copies `container_path` out of the container to `host_path`.
    pub fn copy_from_container(&self, container_path: &str, host_path: &str, event: Progress) -> (step:
        Step<Result<(), String>>)
        ensures
            match event {
                Progress::Begin => step matches Step::Run(line) && line@ == docker(
                    seq!["cp"@, self.container() + ":"@ + container_path@, host_path@],
                ),
                Progress::Ran(ran) => step matches Step::Done(outcome) && settled(
                    ran,
                    "Failed to copy file from container: "@,
                    "Failed to copy file from container: "@,
                    outcome,
                ),
            },
    {
        match event {
            Progress::Begin => {
                let source = join3(self.container_name.as_str(), ":", container_path);
                let line = CommandLine::new("docker", &["cp", source.as_str(), host_path]);
                assert(line@.args =~= seq![
                    "cp"@,
                    self.container() + ":"@ + container_path@,
                    host_path@,
                ]);
                Step::Run(line)
            },
            Progress::Ran(ran) => Step::Done(
                settle(
                    &ran,
                    "Failed to copy file from container: ",
                    "Failed to copy file from container: ",
                ),
            ),
        }
    }

    /// Clones `repository_url` into `target_directory` inside the container.
    /// The output of the command is handed back whatever its exit status.
    pub fn clone_repository(&self, repository_url: &str, target_directory: &str, event: Progress) -> (step:
        Step<Result<ProcessOutput, String>>)
        ensures
            match event {
                Progress::Begin => step matches Step::Run(line) && line@ == docker(
                    seq![
                        "exec"@,
                        self.container(),
                        "git"@,
                        "clone"@,
                        repository_url@,
                        target_directory@,
                    ],
                ),
                Progress::Ran(Err(reason)) => step matches Step::Done(Err(text)) && text@
                    == "Failed to clone repository: "@ + reason@,
                Progress::Ran(Ok(output)) => step == Step::Done(
                    Ok::<ProcessOutput, String>(output),
                ),
            },
    {
        match event {
            Progress::Begin => {
                let line = CommandLine::new(
                    "docker",
                    &[
                        "exec",
                        self.container_name.as_str(),
                        "git",
                        "clone",
                        repository_url,
                        target_directory,
                    ],
                );
                assert(line@.args =~= seq![
                    "exec"@,
                    self.container(),
                    "git"@,
                    "clone"@,
                    repository_url@,
                    target_directory@,
                ]);
                Step::Run(line)
            },
            Progress::Ran(Err(reason)) => Step::Done(
                Err(join("Failed to clone repository: ", reason.as_str())),
            ),
            Progress::Ran(Ok(output)) => Step::Done(Ok(output)),
        }
    }

    /// Runs `command` in the container, through `sh -c`.
    pub fn run_command_in_container(&self, command: &str, event: Progress) -> (step: Step<
        Result<(), String>,
    >)
        ensures
            match event {
                Progress::Begin => step matches Step::Run(line) && line@ == docker(
                    seq!["exec"@, self.container(), "sh"@, "-c"@, command@],
                ),
                Progress::Ran(ran) => step matches Step::Done(outcome) && settled(
                    ran,
                    "Failed to execute command in container: "@,
                    "Command execution failed: "@,
                    outcome,
                ),
            },
    {
        match event {
            Progress::Begin => {
                let line = CommandLine::new(
                    "docker",
                    &["exec", self.container_name.as_str(), "sh", "-c", command],
                );
                assert(line@.args =~= seq!["exec"@, self.container(), "sh"@, "-c"@, command@]);
                Step::Run(line)
            },
            Progress::Ran(ran) => Step::Done(
                settle(
                    &ran,
                    "Failed to execute command in container: ",
                    "Command execution failed: ",
                ),
            ),
        }
    }
}

} // verus!
