use repo_host::build::{
    check_prerequisite, dispatch, parse_method, report_belongs, BuildEvent, BuildMethod, BuildStep,
    BUILD_CONTAINER_PREFIX, BUILD_IMAGE_DEFINITION, BUILD_IMAGE_NAME, CONTAINER_BUILD_COMMAND,
};
use repo_host::error::{Error, Prerequisite};
use repo_host::util::process::{CommandLine, ProcessOutput};
use repo_host::util::workflows::{found_workflows, workflow_paths, WorkflowFindings};

const REPO: &str = "/srv/repos/demo";

fn seen(makefile: bool, script: bool, cargo_toml: bool) -> WorkflowFindings {
    WorkflowFindings {
        makefile_is_file: makefile,
        script_is_file: script,
        cargo_toml_exists: cargo_toml,
    }
}

fn out(success: bool, stdout: &str, stderr: &str) -> Result<ProcessOutput, String> {
    Ok(ProcessOutput { success, stdout: stdout.to_string(), stderr: stderr.to_string() })
}

fn built() -> BuildStep<Result<String, Error>> {
    BuildStep::Done(Ok("Build successful for latest commit (demo)".to_string()))
}

fn failed(error: Error) -> BuildStep<Result<String, Error>> {
    BuildStep::Done(Err(error))
}

fn all_events() -> Vec<BuildEvent> {
    vec![
        BuildEvent::Begin,
        BuildEvent::Inspected(seen(true, true, true)),
        BuildEvent::MakeDone(Ok(String::new())),
        BuildEvent::ScriptRan(out(true, "", "")),
        BuildEvent::CargoRan(out(true, "", "")),
        BuildEvent::Acquired(Ok(())),
        BuildEvent::ImageBuilt(out(true, "", "")),
        BuildEvent::ContainerUp(Ok(())),
        BuildEvent::Executed(Ok(())),
    ]
}

#[test]
fn the_four_methods_are_known_by_name() {
    assert_eq!(parse_method("make"), Some(BuildMethod::Make));
    assert_eq!(parse_method("script"), Some(BuildMethod::Script));
    assert_eq!(parse_method("cargo"), Some(BuildMethod::Cargo));
    assert_eq!(parse_method("docker"), Some(BuildMethod::Docker));
    for other in ["", "Make", "make ", "ant", "scripts", "sh", "podman"] {
        assert_eq!(parse_method(other), None);
    }
}

#[test]
fn an_unknown_method_is_refused_whatever_was_reported() {
    for event in all_events() {
        assert_eq!(
            dispatch(REPO, "demo", "ant", event),
            failed(Error::InvalidMethod("ant".to_string()))
        );
    }
}

#[test]
fn each_method_has_its_own_reports() {
    let methods =
        [BuildMethod::Make, BuildMethod::Script, BuildMethod::Cargo, BuildMethod::Docker];
    let owners = [
        None,
        None,
        Some(BuildMethod::Make),
        Some(BuildMethod::Script),
        Some(BuildMethod::Cargo),
        Some(BuildMethod::Docker),
        Some(BuildMethod::Docker),
        Some(BuildMethod::Docker),
        Some(BuildMethod::Docker),
    ];
    for (event, owner) in all_events().iter().zip(owners) {
        for method in methods {
            assert_eq!(report_belongs(method, event), owner.map_or(true, |o| o == method));
        }
    }
}

#[test]
fn a_report_of_another_method_fails_the_build() {
    let foreign = |method: &str| {
        failed(Error::BuildFailed(format!("Report does not belong to build method: {}", method)))
    };
    assert_eq!(dispatch(REPO, "demo", "script", BuildEvent::MakeDone(Ok(String::new()))), foreign("script"));
    assert_eq!(dispatch(REPO, "demo", "script", BuildEvent::Executed(Ok(()))), foreign("script"));
    assert_eq!(dispatch(REPO, "demo", "script", BuildEvent::CargoRan(out(true, "", ""))), foreign("script"));
    assert_eq!(dispatch(REPO, "demo", "make", BuildEvent::ScriptRan(out(true, "", ""))), foreign("make"));
    assert_eq!(dispatch(REPO, "demo", "make", BuildEvent::Acquired(Ok(()))), foreign("make"));
    assert_eq!(dispatch(REPO, "demo", "cargo", BuildEvent::Executed(Ok(()))), foreign("cargo"));
    assert_eq!(dispatch(REPO, "demo", "cargo", BuildEvent::ContainerUp(Ok(()))), foreign("cargo"));
    assert_eq!(dispatch(REPO, "demo", "docker", BuildEvent::CargoRan(out(true, "", ""))), foreign("docker"));
    assert_eq!(dispatch(REPO, "demo", "docker", BuildEvent::MakeDone(Err("x".to_string()))), foreign("docker"));
}

#[test]
fn a_build_succeeds_only_on_its_own_last_report() {
    for method in ["make", "script", "cargo", "docker"] {
        let mut successes = 0;
        for event in all_events() {
            if dispatch(REPO, "demo", method, event) == built() {
                successes += 1;
            }
        }
        assert_eq!(successes, 1, "{}", method);
    }
}

#[test]
fn every_known_method_begins_with_an_inspection() {
    for method in ["make", "script", "cargo", "docker"] {
        assert_eq!(
            dispatch(REPO, "demo", method, BuildEvent::Begin),
            BuildStep::Inspect(workflow_paths(REPO))
        );
    }
}

#[test]
fn a_repository_without_any_workflow_file_is_not_built() {
    for method in ["make", "script", "cargo", "docker"] {
        assert_eq!(
            dispatch(REPO, "demo", method, BuildEvent::Inspected(seen(false, false, false))),
            failed(Error::NotFound(
                "Failed to get build scripts: Required files not found in release workflow directory"
                    .to_string()
            ))
        );
    }
}

#[test]
fn each_method_needs_its_own_file() {
    let found = found_workflows(seen(false, true, true)).unwrap();
    assert_eq!(check_prerequisite(BuildMethod::Make, &found), Some(Prerequisite::Makefile));
    assert_eq!(check_prerequisite(BuildMethod::Script, &found), None);
    assert_eq!(check_prerequisite(BuildMethod::Cargo, &found), None);
    assert_eq!(check_prerequisite(BuildMethod::Docker, &found), None);
    let found = found_workflows(seen(true, false, false)).unwrap();
    assert_eq!(check_prerequisite(BuildMethod::Make, &found), None);
    assert_eq!(check_prerequisite(BuildMethod::Script, &found), Some(Prerequisite::BuildScript));
    assert_eq!(check_prerequisite(BuildMethod::Cargo, &found), Some(Prerequisite::CargoToml));
    assert_eq!(check_prerequisite(BuildMethod::Docker, &found), None);
}

#[test]
fn a_script_build_without_the_script_is_refused_though_inspection_succeeds() {
    for (makefile, cargo_toml) in [(true, false), (false, true), (true, true)] {
        assert!(found_workflows(seen(makefile, false, cargo_toml)).is_ok());
        assert_eq!(
            dispatch(REPO, "demo", "script", BuildEvent::Inspected(seen(makefile, false, cargo_toml))),
            failed(Error::MissingPrerequisite(Prerequisite::BuildScript))
        );
    }
}

#[test]
fn a_missing_makefile_or_manifest_is_named() {
    assert_eq!(
        dispatch(REPO, "demo", "make", BuildEvent::Inspected(seen(false, true, true))),
        failed(Error::MissingPrerequisite(Prerequisite::Makefile))
    );
    assert_eq!(
        dispatch(REPO, "demo", "cargo", BuildEvent::Inspected(seen(true, true, false))),
        failed(Error::MissingPrerequisite(Prerequisite::CargoToml))
    );
}

#[test]
fn each_method_begins_in_its_own_way() {
    assert_eq!(
        dispatch(REPO, "demo", "make", BuildEvent::Inspected(seen(true, false, false))),
        BuildStep::Make { makefile: "/srv/repos/demo/workflows/make/Makefile".to_string() }
    );
    assert_eq!(
        dispatch(REPO, "demo", "script", BuildEvent::Inspected(seen(false, true, false))),
        BuildStep::Script(CommandLine {
            program: "sh".to_string(),
            args: vec!["/srv/repos/demo/workflows/script/build_script.sh".to_string()],
            current_dir: None,
        })
    );
    assert_eq!(
        dispatch(REPO, "demo", "cargo", BuildEvent::Inspected(seen(false, false, true))),
        BuildStep::Cargo(CommandLine {
            program: "cargo".to_string(),
            args: vec!["build".to_string()],
            current_dir: None,
        })
    );
    assert_eq!(
        dispatch(REPO, "demo", "docker", BuildEvent::Inspected(seen(true, false, false))),
        BuildStep::Acquire {
            image_name: "my_image".to_string(),
            container_name: "cargo_release_demo".to_string(),
        }
    );
}

#[test]
fn the_constants_of_the_containerized_build() {
    assert_eq!(BUILD_IMAGE_NAME, "my_image");
    assert_eq!(BUILD_CONTAINER_PREFIX, "cargo_release_");
    assert_eq!(CONTAINER_BUILD_COMMAND, "cargo build");
    assert!(BUILD_IMAGE_DEFINITION.contains("FROM ubuntu:latest"));
    assert!(BUILD_IMAGE_DEFINITION.contains("https://sh.rustup.rs"));
}

#[test]
fn the_containerized_build_goes_stage_by_stage() {
    assert_eq!(
        dispatch(REPO, "demo", "docker", BuildEvent::Acquired(Ok(()))),
        BuildStep::BuildImage { dockerfile_content: BUILD_IMAGE_DEFINITION.to_string() }
    );
    assert_eq!(
        dispatch(REPO, "demo", "docker", BuildEvent::ImageBuilt(out(true, "", "warnings"))),
        BuildStep::RunContainer
    );
    assert_eq!(
        dispatch(REPO, "demo", "docker", BuildEvent::ContainerUp(Ok(()))),
        BuildStep::Execute { command: "cargo build".to_string() }
    );
    assert_eq!(dispatch(REPO, "demo", "docker", BuildEvent::Executed(Ok(()))), built());
}

#[test]
fn the_containerized_build_ends_at_the_stage_that_fails() {
    assert_eq!(
        dispatch(REPO, "demo", "docker", BuildEvent::Acquired(Err("Docker is not available".to_string()))),
        failed(Error::BuildFailed("Docker Error: Docker is not available".to_string()))
    );
    assert_eq!(
        dispatch(REPO, "demo", "docker", BuildEvent::ImageBuilt(Err("Failed to write Dockerfile: x".to_string()))),
        failed(Error::BuildFailed("Docker Error: Failed to write Dockerfile: x".to_string()))
    );
    assert_eq!(
        dispatch(REPO, "demo", "docker", BuildEvent::ImageBuilt(out(false, "", "no such base image"))),
        failed(Error::BuildFailed("Docker Error: no such base image".to_string()))
    );
    assert_eq!(
        dispatch(REPO, "demo", "docker", BuildEvent::ContainerUp(Err("Failed to start Docker container: y".to_string()))),
        failed(Error::ContainerStartFailed(
            "Failed to run Docker container: Failed to start Docker container: y".to_string()
        ))
    );
    assert_eq!(
        dispatch(REPO, "demo", "docker", BuildEvent::Executed(Err("Command execution failed: z".to_string()))),
        failed(Error::BuildFailed("Cargo build failed: Command execution failed: z".to_string()))
    );
}

#[test]
fn a_make_build_hands_on_what_make_said() {
    assert_eq!(dispatch(REPO, "demo", "make", BuildEvent::MakeDone(Ok("cc".to_string()))), built());
    assert_eq!(
        dispatch(REPO, "demo", "make", BuildEvent::MakeDone(Err("*** Error 1".to_string()))),
        failed(Error::BuildFailed("Make build failed: *** Error 1".to_string()))
    );
}

#[test]
fn a_direct_cargo_build_fails_with_what_cargo_wrote() {
    assert_eq!(dispatch(REPO, "demo", "cargo", BuildEvent::CargoRan(out(true, "", "warn"))), built());
    assert_eq!(
        dispatch(REPO, "demo", "cargo", BuildEvent::CargoRan(out(false, "", "error[E0425]"))),
        failed(Error::BuildFailed("Cargo build failed: error[E0425]".to_string()))
    );
    assert_eq!(
        dispatch(REPO, "demo", "cargo", BuildEvent::CargoRan(Err("not found".to_string()))),
        failed(Error::BuildFailed(
            "Cargo build failed: Failed to execute cargo build: not found".to_string()
        ))
    );
}

#[test]
fn a_script_that_cannot_be_started_fails_the_build() {
    assert_eq!(
        dispatch(REPO, "demo", "script", BuildEvent::ScriptRan(Err("not found".to_string()))),
        failed(Error::BuildFailed(
            "Script build failed: Failed to execute build script: not found".to_string()
        ))
    );
}

#[test]
fn a_script_build_succeeds_on_exit_zero_and_fails_with_stderr_otherwise() {
    let mut event = BuildEvent::Begin;
    let mut ran_with_success = true;
    for _ in 0..2 {
        let outcome = loop {
            match dispatch(REPO, "demo", "script", event) {
                BuildStep::Inspect(paths) => {
                    assert_eq!(paths.script, "/srv/repos/demo/workflows/script/build_script.sh");
                    event = BuildEvent::Inspected(seen(false, true, false));
                }
                BuildStep::Script(line) => {
                    assert_eq!(line.program, "sh");
                    assert_eq!(line.args, vec!["/srv/repos/demo/workflows/script/build_script.sh"]);
                    event = BuildEvent::ScriptRan(if ran_with_success {
                        out(true, "ok", "")
                    } else {
                        out(false, "", "build_script.sh: line 2: exit 1")
                    });
                }
                BuildStep::Done(outcome) => break outcome,
                other => panic!("unexpected step {:?}", other),
            }
        };
        if ran_with_success {
            assert_eq!(outcome, Ok("Build successful for latest commit (demo)".to_string()));
        } else {
            assert_eq!(
                outcome,
                Err(Error::BuildFailed(
                    "Script build failed: build_script.sh: line 2: exit 1".to_string()
                ))
            );
        }
        ran_with_success = false;
        event = BuildEvent::Begin;
    }
}
