//! The operations of the service, each from a request and what the host has
//! seen so far to the next step or the response.

use vstd::prelude::*;

use crate::build::{
    build_asks, build_plan, dispatch, success_text, BuildEvent, BuildPlan, BuildStep,
};
use crate::error::{error_text, Error, ErrorView};
use crate::git::manager::{
    mirror_asks, mirror_plan, reset_asks, reset_plan, sync_failure_text, tags_asks, tags_result,
    MirrorEvent, MirrorPlan, MirrorStep, RepositoryManager, ResetEvent, ResetPlan, ResetStep,
    TagsEvent, TagsStep,
};
use crate::util::file_system::{location, FileSystem};
use crate::util::text::{join, join3};
use crate::util::workflows::{
    cargo_toml_path, inspection, makefile_path, no_workflow_text, script_path, workflows_exist,
    InspectEvent, InspectStep, WorkflowScripts,
};

verus! {

/// The service: its repositories and where they live.
#[derive(Debug)]
pub struct Api {
    repo_manager: RepositoryManager,
    file_system: FileSystem,
}

/// The answer to a request to mirror a repository.
#[derive(Debug, Clone, PartialEq, Eq)]
pub enum AddRepository {
    /// The mirror was made.
    Success,
    /// Something stands where the mirror would go; the text names the place.
    AlreadyExists(String),
    /// The source could not be cloned; the text says why.
    ServerError(String),
}

/// The answer to a request for the tags of a repository.
#[derive(Debug, Clone, PartialEq, Eq)]
pub enum GetTags<T> {
    Success(T),
    /// The repository is not there, or is no repository.
    NotFound,
}

/// The answer to a request to create a repository.
#[derive(Debug, Clone, PartialEq, Eq)]
pub enum CreateRepository {
    Success(String),
    ServerError(String),
}

/// The answer to a request to build a repository.
#[derive(Debug, Clone, PartialEq, Eq)]
pub enum BuildRepo {
    /// The build went through; the text says so.
    Success(String),
    /// The build was refused or failed; the text says why.
    ServerError(String),
}

/// The answer to a request for the build methods of a repository.
#[derive(Debug, Clone, PartialEq, Eq)]
pub enum BuildScriptsResponse {
    Success(WorkflowScripts),
    /// The repository holds none of the workflow files; the text says so.
    NotFound(String),
    ServerError(String),
}

/// The answer to a request to resynchronize a mirror.
#[derive(Debug, Clone, PartialEq, Eq)]
pub enum SyncRepoResponse {
    Success(String),
    ServerError(String),
}

/// What a caller is told when the mirror called `name` has been reset.
pub open spec fn synced_text(name: Seq<char>) -> Seq<char> {
    "Reset/synced repo successfully ("@ + name + ")"@
}

/// The answer to a request to mirror a repository that failed with `error`:
/// a location that is taken is told apart from every other failure, and in
/// both cases the text is that of the error.
pub open spec fn mirror_refusal(error: ErrorView, answer: AddRepository) -> bool {
    match error {
        ErrorView::AlreadyExists(_) => answer matches AddRepository::AlreadyExists(text) && text@
            == error_text(error),
        _ => answer matches AddRepository::ServerError(text) && text@ == error_text(error),
    }
}

/// Mirroring into a location where something stands is answered with
/// `AlreadyExists` and the location, whatever the source is.
pub proof fn occupied_location_is_answered_with_its_path(place: Seq<char>, answer: AddRepository)
    requires
        mirror_plan(place, MirrorEvent::Probed(true)) matches MirrorPlan::Fail(error)
            && mirror_refusal(error, answer),
    ensures
        answer matches AddRepository::AlreadyExists(text) && text@
            == "Repository already exists at: "@ + place,
{
}

/// What a caller is told when no build method can be reported.
pub open spec fn no_scripts_text() -> Seq<char> {
    "failed to get build scripts: "@ + no_workflow_text()
}

impl Api {
    /// The directory under which the repositories live.
    pub closed spec fn base(&self) -> Seq<char> {
        self.file_system.base_location@
    }

    /// Both parts of the service agree on where the repositories live.
    #[verifier::type_invariant]
    spec fn agrees(&self) -> bool {
        self.repo_manager.base() == self.file_system.base_location@
    }

    /// The service over the repositories under `repos_base_path`.
    pub fn new(repos_base_path: &str) -> (api: Self)
        ensures
            api.base() == repos_base_path@,
    {
        let repo_manager = RepositoryManager::new(repos_base_path);
        let file_system = FileSystem::new(repos_base_path);
        Api { repo_manager, file_system }
    }

    /// Mirrors the repository at `url` under the name `name`. Where something
    /// stands at the mirror's location the answer is `AlreadyExists` and
    /// names the location, whatever `url` is, and nothing is cloned.
    pub fn add_repository(&self, name: &str, url: &str, event: MirrorEvent) -> (step: MirrorStep<
        AddRepository,
    >)
        ensures
            match mirror_plan(location(self.base(), name@), event) {
                MirrorPlan::Fail(error) => step matches MirrorStep::Done(answer)
                    && mirror_refusal(error, answer),
                MirrorPlan::Finish => step == MirrorStep::Done(AddRepository::Success),
                asked => mirror_asks(url@, location(self.base(), name@), asked, step),
            },
    {
        proof {
            use_type_invariant(self);
        }
        match self.repo_manager.clone_repository(url, name, event) {
            MirrorStep::Probe(path) => MirrorStep::Probe(path),
            MirrorStep::CloneInto { url, location } => MirrorStep::CloneInto { url, location },
            MirrorStep::Schedule { location } => MirrorStep::Schedule { location },
            MirrorStep::Done(Ok(_)) => MirrorStep::Done(AddRepository::Success),
            MirrorStep::Done(Err(error)) => {
                let text = error.message();
                match error {
                    Error::AlreadyExists(_) => MirrorStep::Done(AddRepository::AlreadyExists(text)),
                    _ => MirrorStep::Done(AddRepository::ServerError(text)),
                }
            },
        }
    }

    /// The tags of the repository called `name`.
    pub fn get_tags(&self, name: &str, event: TagsEvent) -> (step: TagsStep<GetTags<Vec<String>>>)
        ensures
            match tags_result(event) {
                Some(Ok(names)) => step matches TagsStep::Done(GetTags::Success(tags))
                    && tags.deep_view() == names,
                Some(Err(_)) => step == TagsStep::Done(GetTags::<Vec<String>>::NotFound),
                None => tags_asks(location(self.base(), name@), event, step),
            },
    {
        proof {
            use_type_invariant(self);
        }
        match self.repo_manager.get_tags(name, event) {
            TagsStep::Open(path) => TagsStep::Open(path),
            TagsStep::List(path) => TagsStep::List(path),
            TagsStep::Done(Ok(tags)) => TagsStep::Done(GetTags::Success(tags)),
            TagsStep::Done(Err(_)) => TagsStep::Done(GetTags::NotFound),
        }
    }

    /// Builds the repository called `name` by the method named `method`.
    /// `url` is accepted and has no effect.
    pub fn build_repo(&self, name: &str, method: &str, url: &str, event: BuildEvent) -> (step:
        BuildStep<BuildRepo>)
        ensures
            match build_plan(method@, event) {
                BuildPlan::Fail(error) => step matches BuildStep::Done(BuildRepo::ServerError(text))
                    && text@ == error_text(error),
                BuildPlan::Succeed => step matches BuildStep::Done(BuildRepo::Success(text)) && text@
                    == success_text(name@),
                asked => build_asks(location(self.base(), name@), name@, asked, step),
            },
    {
        let repo_path = self.file_system.git_path(name);
        match dispatch(repo_path.as_str(), name, method, event) {
            BuildStep::Inspect(paths) => BuildStep::Inspect(paths),
            BuildStep::Make { makefile } => BuildStep::Make { makefile },
            BuildStep::Script(line) => BuildStep::Script(line),
            BuildStep::Cargo(line) => BuildStep::Cargo(line),
            BuildStep::Acquire { image_name, container_name } => BuildStep::Acquire {
                image_name,
                container_name,
            },
            BuildStep::BuildImage { dockerfile_content } => BuildStep::BuildImage {
                dockerfile_content,
            },
            BuildStep::RunContainer => BuildStep::RunContainer,
            BuildStep::Execute { command } => BuildStep::Execute { command },
            BuildStep::Done(Ok(text)) => BuildStep::Done(BuildRepo::Success(text)),
            BuildStep::Done(Err(error)) => BuildStep::Done(BuildRepo::ServerError(error.message())),
        }
    }

    /// Which build methods the repository called `name` has the files for.
    /// Where it has none of the files the answer is `NotFound`, and no record
    /// is given.
    pub fn get_build_scripts_for_repo(&self, name: &str, event: InspectEvent) -> (step: InspectStep<
        BuildScriptsResponse,
    >)
        ensures
            match event {
                InspectEvent::Begin => step matches InspectStep::Look(paths) && paths.makefile@
                    == makefile_path(location(self.base(), name@)) && paths.script@ == script_path(
                    location(self.base(), name@),
                ) && paths.cargo_toml@ == cargo_toml_path(location(self.base(), name@)),
                InspectEvent::Looked(seen) => match inspection(
                    seen.makefile_is_file,
                    seen.script_is_file,
                    seen.cargo_toml_exists,
                ) {
                    Some(record) => step matches InspectStep::Done(BuildScriptsResponse::Success(scripts))
                        && scripts@ == record,
                    None => step matches InspectStep::Done(BuildScriptsResponse::NotFound(text))
                        && text@ == no_scripts_text(),
                },
            },
    {
        let git_path = self.file_system.git_path(name);
        match workflows_exist(git_path.as_str(), event) {
            InspectStep::Look(paths) => InspectStep::Look(paths),
            InspectStep::Done(Ok(scripts)) => InspectStep::Done(BuildScriptsResponse::Success(scripts)),
            InspectStep::Done(Err(error)) => {
                let cause = error.message();
                InspectStep::Done(
                    BuildScriptsResponse::NotFound(
                        join("failed to get build scripts: ", cause.as_str()),
                    ),
                )
            },
        }
    }

    /// Resets the mirror called `name` to its origin.
    pub fn sync_repo_with_origin(&self, name: &str, event: ResetEvent) -> (step: ResetStep<
        SyncRepoResponse,
    >)
        ensures
            match reset_plan(event) {
                ResetPlan::Fail(reason) => step matches ResetStep::Done(
                    SyncRepoResponse::ServerError(text),
                ) && text@ == sync_failure_text(reason),
                ResetPlan::Finish => step matches ResetStep::Done(SyncRepoResponse::Success(text))
                    && text@ == synced_text(name@),
                asked => reset_asks(location(self.base(), name@), asked, step),
            },
    {
        let git_path = self.file_system.git_path(name);
        match self.repo_manager.sync_repo(git_path.as_str(), event) {
            ResetStep::Open { location } => ResetStep::Open { location },
            ResetStep::FindRemote { location, remote } => ResetStep::FindRemote {
                location,
                remote,
            },
            ResetStep::Remove { location, url } => ResetStep::Remove { location, url },
            ResetStep::Reclone { url, location } => ResetStep::Reclone { url, location },
            ResetStep::Done(Ok(_)) => ResetStep::Done(
                SyncRepoResponse::Success(join3("Reset/synced repo successfully (", name, ")")),
            ),
            ResetStep::Done(Err(error)) => ResetStep::Done(
                SyncRepoResponse::ServerError(error.message()),
            ),
        }
    }
}

} // verus!
