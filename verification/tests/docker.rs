use repo_host::build::docker::{
    BuildContext, DockerManager, ImageEvent, ImageStep, RunEvent, RunStep, ScriptEvent,
    ScriptStep, StageFailure,
};
use repo_host::util::process::{CommandLine, ProcessOutput, Progress, Step};

fn out(success: bool, stdout: &str, stderr: &str) -> Result<ProcessOutput, String> {
    Ok(ProcessOutput { success, stdout: stdout.to_string(), stderr: stderr.to_string() })
}

fn not_started(reason: &str) -> Result<ProcessOutput, String> {
    Err(reason.to_string())
}

fn docker(args: &[&str]) -> CommandLine {
    CommandLine {
        program: "docker".to_string(),
        args: args.iter().map(|a| a.to_string()).collect(),
        current_dir: None,
    }
}

fn manager() -> DockerManager {
    match DockerManager::new("my_image", "cargo_release_demo", Progress::Ran(out(true, "", ""))) {
        Step::Done(Ok(manager)) => manager,
        other => panic!("unexpected step {:?}", other),
    }
}

#[test]
fn a_manager_asks_for_the_version_first() {
    assert_eq!(
        DockerManager::new("i", "c", Progress::Begin),
        Step::Run(docker(&["--version"]))
    );
}

#[test]
fn a_manager_exists_only_if_the_runtime_answers() {
    let manager = manager();
    assert_eq!(manager.image_name(), "my_image");
    assert_eq!(manager.container_name(), "cargo_release_demo");
    assert_eq!(
        DockerManager::new("i", "c", Progress::Ran(out(false, "", "boom"))),
        Step::Done(Err("Docker is not available".to_string()))
    );
    assert_eq!(
        DockerManager::new("i", "c", Progress::Ran(not_started("No such file or directory"))),
        Step::Done(Err("Failed to execute Docker command".to_string()))
    );
}

#[test]
fn a_running_container_is_left_alone() {
    let m = manager();
    assert_eq!(
        m.run_container(&[], RunEvent::Begin),
        RunStep::ListContainers(docker(&["ps", "--format", "{{.Names}}"]))
    );
    assert_eq!(
        m.run_container(&[], RunEvent::Listed(out(true, "other\ncargo_release_demo\n", ""))),
        RunStep::Done(Ok(()))
    );
}

#[test]
fn a_container_with_a_longer_name_is_another_container() {
    let m = manager();
    for listing in ["cargo_release_demo2\n", "other\nx_cargo_release_demo\n", "cargo_release_demo_old"] {
        assert_eq!(
            m.run_container(&[], RunEvent::Listed(out(true, listing, ""))),
            RunStep::Start(docker(&["start", "cargo_release_demo"]))
        );
    }
}

#[test]
fn a_container_that_does_not_run_is_started() {
    let m = manager();
    assert_eq!(
        m.run_container(&[], RunEvent::Listed(out(true, "other\n", ""))),
        RunStep::Start(docker(&["start", "cargo_release_demo"]))
    );
    assert_eq!(
        m.run_container(&["-d"], RunEvent::Listed(out(true, "", ""))),
        RunStep::Start(docker(&["start", "cargo_release_demo"]))
    );
    assert_eq!(m.run_container(&[], RunEvent::Started(out(true, "", ""))), RunStep::Done(Ok(())));
}

#[test]
fn a_listing_that_cannot_be_had_ends_the_attempt() {
    let m = manager();
    assert_eq!(
        m.run_container(&[], RunEvent::Listed(not_started("denied"))),
        RunStep::Done(Err("Failed to execute docker command: denied".to_string()))
    );
    assert_eq!(
        m.run_container(&[], RunEvent::Started(not_started("denied"))),
        RunStep::Done(Err("Failed to execute start command: denied".to_string()))
    );
}

#[test]
fn a_failed_start_leads_to_a_pull_and_one_more_start() {
    let m = manager();
    assert_eq!(
        m.run_container(&[], RunEvent::Started(out(false, "", "no such container"))),
        RunStep::ListImages(docker(&["images", "--format", "{{.Repository}}:{{.Tag}}"]))
    );
    assert_eq!(
        m.run_container(&[], RunEvent::Images(out(true, "ubuntu:latest\n", ""))),
        RunStep::Pull(docker(&["pull", "my_image"]))
    );
    assert_eq!(
        m.run_container(&[], RunEvent::Pulled(out(true, "", ""))),
        RunStep::Restart(docker(&["start", "cargo_release_demo"]))
    );
    assert_eq!(m.run_container(&[], RunEvent::Restarted(out(true, "", ""))), RunStep::Done(Ok(())));
}

#[test]
fn an_image_that_is_there_is_not_pulled() {
    let m = manager();
    assert_eq!(
        m.run_container(&[], RunEvent::Images(out(true, "ubuntu:latest\nmy_image:latest\n", ""))),
        RunStep::Restart(docker(&["start", "cargo_release_demo"]))
    );
    assert_eq!(
        m.run_container(&[], RunEvent::Images(out(false, "my_image:latest\n", "warning"))),
        RunStep::Restart(docker(&["start", "cargo_release_demo"]))
    );
}

#[test]
fn an_image_is_there_under_its_name_or_its_name_tagged_latest() {
    let m = manager();
    let restart = RunStep::Restart(docker(&["start", "cargo_release_demo"]));
    let pull = RunStep::Pull(docker(&["pull", "my_image"]));
    assert_eq!(m.run_container(&[], RunEvent::Images(out(true, "my_image:latest\n", ""))), restart);
    assert_eq!(m.run_container(&[], RunEvent::Images(out(true, "my_image\n", ""))), restart);
    for listing in [
        "",
        "my_image2:latest\n",
        "not_my_image:latest\n",
        "my_image:1.0\n",
        "registry.example/my_image:latest\n",
        "my_image:latest-slim\n",
    ] {
        assert_eq!(m.run_container(&[], RunEvent::Images(out(true, listing, ""))), pull);
    }
    let tagged = match DockerManager::new("img:1.0", "c", Progress::Ran(out(true, "", ""))) {
        Step::Done(Ok(manager)) => manager,
        other => panic!("unexpected step {:?}", other),
    };
    assert_eq!(
        tagged.run_container(&[], RunEvent::Images(out(true, "img:latest\nimg:1.0\n", ""))),
        RunStep::Restart(docker(&["start", "c"]))
    );
    assert_eq!(
        tagged.run_container(&[], RunEvent::Images(out(true, "img:latest\n", ""))),
        RunStep::Pull(docker(&["pull", "img:1.0"]))
    );
}

#[test]
fn a_second_failed_start_is_final() {
    let m = manager();
    assert_eq!(
        m.run_container(&[], RunEvent::Restarted(out(false, "", "still no container"))),
        RunStep::Done(Err("Failed to start Docker container: still no container".to_string()))
    );
    assert_eq!(
        m.run_container(&[], RunEvent::Restarted(not_started("gone"))),
        RunStep::Done(Err(
            "Failed to execute start command after pulling image: gone".to_string()
        ))
    );
}

#[test]
fn a_failed_pull_ends_the_attempt() {
    let m = manager();
    assert_eq!(
        m.run_container(&[], RunEvent::Images(not_started("gone"))),
        RunStep::Done(Err(
            "Failed to pull Docker image: Failed to execute docker command: gone".to_string()
        ))
    );
    assert_eq!(
        m.run_container(&[], RunEvent::Pulled(not_started("gone"))),
        RunStep::Done(Err(
            "Failed to pull Docker image: Failed to pull Docker image: gone".to_string()
        ))
    );
    assert_eq!(
        m.run_container(&[], RunEvent::Pulled(out(false, "", "manifest unknown"))),
        RunStep::Done(Err(
            "Failed to pull Docker image: Failed to pull Docker image: manifest unknown"
                .to_string()
        ))
    );
}

#[test]
fn is_container_running_reads_the_listing() {
    let m = manager();
    assert_eq!(m.is_container_running(&out(true, "cargo_release_demo\n", "")), Ok(true));
    assert_eq!(m.is_container_running(&out(true, "cargo_release_demo", "")), Ok(true));
    assert_eq!(m.is_container_running(&out(true, "a\ncargo_release_demo\nb\n", "")), Ok(true));
    assert_eq!(m.is_container_running(&out(true, "cargo_release_demo2\n", "")), Ok(false));
    assert_eq!(m.is_container_running(&out(true, "my_cargo_release_demo\n", "")), Ok(false));
    assert_eq!(m.is_container_running(&out(true, "xcargo_release_demox", "")), Ok(false));
    assert_eq!(m.is_container_running(&out(true, "cargo_release_dem\n", "")), Ok(false));
    assert_eq!(m.is_container_running(&out(true, "", "")), Ok(false));
    assert_eq!(m.is_container_running(&out(false, "", "cargo_release_demo")), Ok(false));
    assert_eq!(
        m.is_container_running(&not_started("gone")),
        Err("Failed to execute docker command: gone".to_string())
    );
}

#[test]
fn stopping_runs_one_command() {
    let m = manager();
    assert_eq!(m.stop_container(Progress::Begin), Step::Run(docker(&["stop", "cargo_release_demo"])));
    assert_eq!(m.stop_container(Progress::Ran(out(true, "", "ignored"))), Step::Done(Ok(())));
    assert_eq!(
        m.stop_container(Progress::Ran(out(false, "", "no such container"))),
        Step::Done(Err("Failed to stop Docker container: no such container".to_string()))
    );
    assert_eq!(
        m.stop_container(Progress::Ran(not_started("gone"))),
        Step::Done(Err("Failed to stop Docker container: gone".to_string()))
    );
}

#[test]
fn an_image_is_built_from_a_staged_definition() {
    let m = manager();
    assert_eq!(
        m.build_image("FROM ubuntu:latest\n", ImageEvent::Begin),
        ImageStep::Stage {
            file_name: "Dockerfile".to_string(),
            content: "FROM ubuntu:latest\n".to_string(),
        }
    );
    let context = BuildContext {
        directory: "/tmp/abc".to_string(),
        dockerfile: "/tmp/abc/Dockerfile".to_string(),
    };
    assert_eq!(
        m.build_image("FROM ubuntu:latest\n", ImageEvent::Staged(Ok(context))),
        ImageStep::Build(CommandLine {
            program: "docker".to_string(),
            args: vec![
                "build".to_string(),
                "-t".to_string(),
                "my_image".to_string(),
                "-f".to_string(),
                "/tmp/abc/Dockerfile".to_string(),
                ".".to_string(),
            ],
            current_dir: Some("/tmp/abc".to_string()),
        })
    );
}

#[test]
fn the_output_of_an_image_build_is_handed_back_as_it_is() {
    let m = manager();
    let good = ProcessOutput { success: true, stdout: "built".to_string(), stderr: String::new() };
    assert_eq!(
        m.build_image("x", ImageEvent::Built(Ok(good.clone()))),
        ImageStep::Done(Ok(good))
    );
    let bad = ProcessOutput { success: false, stdout: String::new(), stderr: "oops".to_string() };
    assert_eq!(m.build_image("x", ImageEvent::Built(Ok(bad.clone()))), ImageStep::Done(Ok(bad)));
}

#[test]
fn an_image_build_fails_where_its_context_or_command_fails() {
    let m = manager();
    assert_eq!(
        m.build_image("x", ImageEvent::Staged(Err(StageFailure::Directory("full".to_string())))),
        ImageStep::Done(Err("Failed to create temp directory: full".to_string()))
    );
    assert_eq!(
        m.build_image("x", ImageEvent::Staged(Err(StageFailure::Write("denied".to_string())))),
        ImageStep::Done(Err("Failed to write Dockerfile: denied".to_string()))
    );
    assert_eq!(
        m.build_image("x", ImageEvent::Built(not_started("gone"))),
        ImageStep::Done(Err("Failed to execute build command: gone".to_string()))
    );
}

#[test]
fn a_script_is_copied_and_then_run() {
    let m = manager();
    assert_eq!(
        m.run_script_in_container("/host/build.sh", "/build.sh", ScriptEvent::Begin),
        ScriptStep::Copy(docker(&["cp", "/host/build.sh", "cargo_release_demo:/build.sh"]))
    );
    assert_eq!(
        m.run_script_in_container("/host/build.sh", "/build.sh", ScriptEvent::Copied(out(true, "", ""))),
        ScriptStep::Execute(docker(&["exec", "cargo_release_demo", "sh", "/build.sh"]))
    );
    assert_eq!(
        m.run_script_in_container("/host/build.sh", "/build.sh", ScriptEvent::Executed(out(true, "", ""))),
        ScriptStep::Done(Ok(()))
    );
}

#[test]
fn a_script_that_cannot_be_copied_is_not_run() {
    let m = manager();
    assert_eq!(
        m.run_script_in_container("a", "b", ScriptEvent::Copied(out(false, "", "no space"))),
        ScriptStep::Done(Err("Failed to copy script to container: no space".to_string()))
    );
    assert_eq!(
        m.run_script_in_container("a", "b", ScriptEvent::Copied(not_started("gone"))),
        ScriptStep::Done(Err("Failed to copy script to container: gone".to_string()))
    );
}

#[test]
fn a_script_that_fails_reports_its_standard_error() {
    let m = manager();
    assert_eq!(
        m.run_script_in_container("a", "b", ScriptEvent::Executed(out(false, "", "exit 3"))),
        ScriptStep::Done(Err("Script execution failed: exit 3".to_string()))
    );
    assert_eq!(
        m.run_script_in_container("a", "b", ScriptEvent::Executed(not_started("gone"))),
        ScriptStep::Done(Err("Failed to execute script in container: gone".to_string()))
    );
}

#[test]
fn a_file_is_copied_out_of_the_container() {
    let m = manager();
    assert_eq!(
        m.copy_from_container("/work/target", "/host/out", Progress::Begin),
        Step::Run(docker(&["cp", "cargo_release_demo:/work/target", "/host/out"]))
    );
    assert_eq!(
        m.copy_from_container("a", "b", Progress::Ran(out(true, "", ""))),
        Step::Done(Ok(()))
    );
    assert_eq!(
        m.copy_from_container("a", "b", Progress::Ran(out(false, "", "no such file"))),
        Step::Done(Err("Failed to copy file from container: no such file".to_string()))
    );
    assert_eq!(
        m.copy_from_container("a", "b", Progress::Ran(not_started("gone"))),
        Step::Done(Err("Failed to copy file from container: gone".to_string()))
    );
}

#[test]
fn a_repository_is_cloned_inside_the_container() {
    let m = manager();
    assert_eq!(
        m.clone_repository("https://example.org/r.git", "/work", Progress::Begin),
        Step::Run(docker(&[
            "exec",
            "cargo_release_demo",
            "git",
            "clone",
            "https://example.org/r.git",
            "/work"
        ]))
    );
    let failed =
        ProcessOutput { success: false, stdout: String::new(), stderr: "fatal".to_string() };
    assert_eq!(
        m.clone_repository("u", "d", Progress::Ran(Ok(failed.clone()))),
        Step::Done(Ok(failed))
    );
    assert_eq!(
        m.clone_repository("u", "d", Progress::Ran(not_started("gone"))),
        Step::Done(Err("Failed to clone repository: gone".to_string()))
    );
}

#[test]
fn a_command_is_run_in_the_container_through_the_shell() {
    let m = manager();
    assert_eq!(
        m.run_command_in_container("cargo build", Progress::Begin),
        Step::Run(docker(&["exec", "cargo_release_demo", "sh", "-c", "cargo build"]))
    );
    assert_eq!(
        m.run_command_in_container("cargo build", Progress::Ran(out(true, "", "warnings"))),
        Step::Done(Ok(()))
    );
    assert_eq!(
        m.run_command_in_container("cargo build", Progress::Ran(out(false, "", "error[E0308]"))),
        Step::Done(Err("Command execution failed: error[E0308]".to_string()))
    );
    assert_eq!(
        m.run_command_in_container("cargo build", Progress::Ran(not_started("gone"))),
        Step::Done(Err("Failed to execute command in container: gone".to_string()))
    );
}
