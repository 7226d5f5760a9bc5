//! Which build methods a repository has the files for.

use vstd::prelude::*;

use crate::error::Error;
use crate::util::text::join;

verus! {

/// Which of the three workflow files a repository holds.
#[derive(Debug, Clone, Copy, PartialEq, Eq)]
pub struct WorkflowScripts {
    makefile: bool,
    script: bool,
    cargo_toml: bool,
}

/// The mathematical content of a [`WorkflowScripts`].
pub struct WorkflowScriptsView {
    pub makefile: bool,
    pub script: bool,
    pub cargo_toml: bool,
}

impl View for WorkflowScripts {
    type V = WorkflowScriptsView;

    closed spec fn view(&self) -> WorkflowScriptsView {
        WorkflowScriptsView {
            makefile: self.makefile,
            script: self.script,
            cargo_toml: self.cargo_toml,
        }
    }
}

/// Where the makefile of the repository at `path` is looked for.
pub open spec fn makefile_path(path: Seq<char>) -> Seq<char> {
    path + "/workflows/make/Makefile"@
}

/// Where the build script of the repository at `path` is looked for.
pub open spec fn script_path(path: Seq<char>) -> Seq<char> {
    path + "/workflows/script/build_script.sh"@
}

/// Where the package manifest of the repository at `path` is looked for.
pub open spec fn cargo_toml_path(path: Seq<char>) -> Seq<char> {
    path + "/Cargo.toml"@
}

/// What an inspection reports for the three observations: the record of what
/// is there if anything is, and nothing if nothing is.
pub open spec fn inspection(
    makefile: bool,
    script: bool,
    cargo_toml: bool,
) -> Option<WorkflowScriptsView> {
    if makefile || script || cargo_toml {
        Some(WorkflowScriptsView { makefile, script, cargo_toml })
    } else {
        None
    }
}

/// A repository that holds the build script and neither of the other files
/// is eligible, for the script and for nothing else; one that holds none of
/// the three is not.
pub proof fn inspection_of_script_alone_and_of_nothing()
    ensures
        inspection(false, true, false) == Some(
            WorkflowScriptsView { makefile: false, script: true, cargo_toml: false },
        ),
        inspection(false, false, false).is_none(),
{
}

/// An inspection succeeds exactly when one of the three files is there, and
/// then reports each of them as it was seen.
pub proof fn inspection_reports_what_was_seen(makefile: bool, script: bool, cargo_toml: bool)
    ensures
        inspection(makefile, script, cargo_toml).is_some() <==> makefile || script || cargo_toml,
        inspection(makefile, script, cargo_toml) matches Some(record) ==> record.makefile
            == makefile && record.script == script && record.cargo_toml == cargo_toml,
{
}

/// What an inspection says when none of the three files is there.
pub open spec fn no_workflow_text() -> Seq<char> {
    "Required files not found in release workflow directory"@
}

impl WorkflowScripts {
    /// The record of a repository with none of the files.
    pub fn new() -> (scripts: Self)
        ensures
            scripts@ == (WorkflowScriptsView { makefile: false, script: false, cargo_toml: false }),
    {
        WorkflowScripts { makefile: false, script: false, cargo_toml: false }
    }

    /// Records whether the makefile is there.
    pub fn set_makefile(&mut self, exists: bool)
        ensures
            final(self)@ == (WorkflowScriptsView { makefile: exists, ..old(self)@ }),
    {
        self.makefile = exists;
    }

    /// Records whether the build script is there.
    pub fn set_script(&mut self, exists: bool)
        ensures
            final(self)@ == (WorkflowScriptsView { script: exists, ..old(self)@ }),
    {
        self.script = exists;
    }

    /// Records whether the package manifest is there.
    pub fn set_cargo_toml(&mut self, exists: bool)
        ensures
            final(self)@ == (WorkflowScriptsView { cargo_toml: exists, ..old(self)@ }),
    {
        self.cargo_toml = exists;
    }

    /// Whether the makefile is there.
    pub fn has_makefile(&self) -> (has: bool)
        ensures
            has == self@.makefile,
    {
        self.makefile
    }

    /// Whether the build script is there.
    pub fn has_script(&self) -> (has: bool)
        ensures
            has == self@.script,
    {
        self.script
    }

    /// Whether the package manifest is there.
    pub fn has_cargo_toml(&self) -> (has: bool)
        ensures
            has == self@.cargo_toml,
    {
        self.cargo_toml
    }

    /// Where the makefile of the repository at `path` is looked for.
    pub fn get_makefile_path(path: &str) -> (file: String)
        ensures
            file@ == makefile_path(path@),
    {
        join(path, "/workflows/make/Makefile")
    }

    /// Where the build script of the repository at `path` is looked for.
    pub fn get_script_path(path: &str) -> (file: String)
        ensures
            file@ == script_path(path@),
    {
        join(path, "/workflows/script/build_script.sh")
    }

    /// Where the package manifest of the repository at `path` is looked for.
    pub fn get_cargo_toml_path(path: &str) -> (file: String)
        ensures
            file@ == cargo_toml_path(path@),
    {
        join(path, "/Cargo.toml")
    }
}

/// What the host is asked to look at: whether `makefile` and `script` are
/// regular files, and whether anything at all stands at `cargo_toml`.
#[derive(Debug, Clone, PartialEq, Eq)]
pub struct WorkflowPaths {
    pub makefile: String,
    pub script: String,
    pub cargo_toml: String,
}

/// What the host saw at the three paths.
#[derive(Debug, Clone, Copy, PartialEq, Eq)]
pub struct WorkflowFindings {
    pub makefile_is_file: bool,
    pub script_is_file: bool,
    pub cargo_toml_exists: bool,
}

/// What the host reports to an inspection: nothing yet, or what it saw.
#[derive(Debug, Clone, Copy, PartialEq, Eq)]
pub enum InspectEvent {
    Begin,
    Looked(WorkflowFindings),
}

/// What an inspection asks for next.
#[derive(Debug, PartialEq, Eq)]
pub enum InspectStep<T> {
    Look(WorkflowPaths),
    Done(T),
}

/// The three paths to look at for the repository at `path`.
pub fn workflow_paths(path: &str) -> (paths: WorkflowPaths)
    ensures
        paths.makefile@ == makefile_path(path@),
        paths.script@ == script_path(path@),
        paths.cargo_toml@ == cargo_toml_path(path@),
{
    WorkflowPaths {
        makefile: WorkflowScripts::get_makefile_path(path),
        script: WorkflowScripts::get_script_path(path),
        cargo_toml: WorkflowScripts::get_cargo_toml_path(path),
    }
}

/// Turns what the host saw into the eligibility record. Succeeds as soon as
/// one of the three files is there, with exactly what was seen; fails with
/// `NotFound` when none is.
pub fn found_workflows(seen: WorkflowFindings) -> (found: Result<WorkflowScripts, Error>)
    ensures
        match inspection(seen.makefile_is_file, seen.script_is_file, seen.cargo_toml_exists) {
            Some(record) => found matches Ok(scripts) && scripts@ == record,
            None => found matches Err(Error::NotFound(detail)) && detail@ == no_workflow_text(),
        },
{
    let mut scripts = WorkflowScripts::new();
    if seen.makefile_is_file {
        scripts.set_makefile(true);
    }
    if seen.script_is_file {
        scripts.set_script(true);
    }
    if seen.cargo_toml_exists {
        scripts.set_cargo_toml(true);
    }
    if scripts.has_makefile() || scripts.has_script() || scripts.has_cargo_toml() {
        Ok(scripts)
    } else {
        Err(Error::NotFound(String::from_str("Required files not found in release workflow directory")))
    }
}

/// Inspects the repository at `path`: first asks the host to look at the
/// three well-known paths, then reports what [`found_workflows`] makes of the
/// answer.
pub fn workflows_exist(path: &str, event: InspectEvent) -> (step: InspectStep<
    Result<WorkflowScripts, Error>,
>)
    ensures
        match event {
            InspectEvent::Begin => step matches InspectStep::Look(paths)
                && paths.makefile@ == makefile_path(path@)
                && paths.script@ == script_path(path@)
                && paths.cargo_toml@ == cargo_toml_path(path@),
            InspectEvent::Looked(seen) => step matches InspectStep::Done(found) && match inspection(
                seen.makefile_is_file,
                seen.script_is_file,
                seen.cargo_toml_exists,
            ) {
                Some(record) => found matches Ok(scripts) && scripts@ == record,
                None => found matches Err(Error::NotFound(detail)) && detail@
                    == no_workflow_text(),
            },
        },
{
    match event {
        InspectEvent::Begin => InspectStep::Look(workflow_paths(path)),
        InspectEvent::Looked(seen) => InspectStep::Done(found_workflows(seen)),
    }
}

} // verus!
