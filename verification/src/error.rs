//! The ways an operation can fail.

use vstd::prelude::*;

use crate::util::text::join;

verus! {

/// A file that a build method cannot do without.
#[derive(Debug, Clone, Copy, PartialEq, Eq, Structural)]
pub enum Prerequisite {
    Makefile,
    BuildScript,
    CargoToml,
}

/// Why an operation failed.
///
/// The first four are the caller's to mend and carry what the caller needs to
/// name the problem. The others wrap the diagnostic text of the tool that
/// failed.
#[derive(Debug, Clone, PartialEq, Eq)]
pub enum Error {
    /// Something already stands at this location.
    AlreadyExists(String),
    /// The repository, or every workflow file, is missing.
    NotFound(String),
    /// This is not a build method.
    InvalidMethod(String),
    /// The build method asked for lacks its file.
    MissingPrerequisite(Prerequisite),
    InitFailed(String),
    CloneFailed(String),
    SyncFailed(String),
    BuildFailed(String),
    ContainerStartFailed(String),
}

/// The mathematical content of an [`Error`].
pub enum ErrorView {
    AlreadyExists(Seq<char>),
    NotFound(Seq<char>),
    InvalidMethod(Seq<char>),
    MissingPrerequisite(Prerequisite),
    InitFailed(Seq<char>),
    CloneFailed(Seq<char>),
    SyncFailed(Seq<char>),
    BuildFailed(Seq<char>),
    ContainerStartFailed(Seq<char>),
}

impl View for Error {
    type V = ErrorView;

    open spec fn view(&self) -> ErrorView {
        match *self {
            Error::AlreadyExists(location) => ErrorView::AlreadyExists(location@),
            Error::NotFound(detail) => ErrorView::NotFound(detail@),
            Error::InvalidMethod(method) => ErrorView::InvalidMethod(method@),
            Error::MissingPrerequisite(missing) => ErrorView::MissingPrerequisite(missing),
            Error::InitFailed(detail) => ErrorView::InitFailed(detail@),
            Error::CloneFailed(detail) => ErrorView::CloneFailed(detail@),
            Error::SyncFailed(detail) => ErrorView::SyncFailed(detail@),
            Error::BuildFailed(detail) => ErrorView::BuildFailed(detail@),
            Error::ContainerStartFailed(detail) => ErrorView::ContainerStartFailed(detail@),
        }
    }
}

/// The sentence that names a missing prerequisite.
pub open spec fn prerequisite_text(missing: Prerequisite) -> Seq<char> {
    match missing {
        Prerequisite::Makefile => "Makefile not found in the repository"@,
        Prerequisite::BuildScript => "Build script not found in the repository"@,
        Prerequisite::CargoToml => "Cargo toml not found in the repository"@,
    }
}

/// The text shown to a caller for `error`.
pub open spec fn error_text(error: ErrorView) -> Seq<char> {
    match error {
        ErrorView::AlreadyExists(location) => "Repository already exists at: "@ + location,
        ErrorView::NotFound(detail) => detail,
        ErrorView::InvalidMethod(method) => "Invalid build method: "@ + method,
        ErrorView::MissingPrerequisite(missing) => prerequisite_text(missing),
        ErrorView::InitFailed(detail) => detail,
        ErrorView::CloneFailed(detail) => detail,
        ErrorView::SyncFailed(detail) => detail,
        ErrorView::BuildFailed(detail) => detail,
        ErrorView::ContainerStartFailed(detail) => detail,
    }
}

impl Error {
    /// The text shown to a caller.
    pub fn message(&self) -> (text: String)
        ensures
            text@ == error_text(self@),
    {
        match self {
            Error::AlreadyExists(location) => join(
                "Repository already exists at: ",
                location.as_str(),
            ),
            Error::InvalidMethod(method) => join("Invalid build method: ", method.as_str()),
            Error::MissingPrerequisite(Prerequisite::Makefile) => String::from_str(
                "Makefile not found in the repository",
            ),
            Error::MissingPrerequisite(Prerequisite::BuildScript) => String::from_str(
                "Build script not found in the repository",
            ),
            Error::MissingPrerequisite(Prerequisite::CargoToml) => String::from_str(
                "Cargo toml not found in the repository",
            ),
            Error::NotFound(detail) => detail.clone(),
            Error::InitFailed(detail) => detail.clone(),
            Error::CloneFailed(detail) => detail.clone(),
            Error::SyncFailed(detail) => detail.clone(),
            Error::BuildFailed(detail) => detail.clone(),
            Error::ContainerStartFailed(detail) => detail.clone(),
        }
    }
}

} // verus!
