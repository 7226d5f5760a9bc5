//! Creating, mirroring, reading and resynchronizing repositories.
//!
//! The version-control store belongs to the host. Each operation here says
//! which thing the host should do to the store next and what the answer
//! means.

use vstd::prelude::*;

use crate::error::{Error, ErrorView};
use crate::util::file_system::{location, FileSystem};
use crate::util::text::{join, join3};

verus! {

/// Owns the mapping from repository names to locations on disk.
#[derive(Debug, Clone, PartialEq, Eq)]
pub struct RepositoryManager {
    file_system: FileSystem,
}

/// What is known of a tag.
#[derive(Debug, Clone, PartialEq, Eq)]
pub struct TagInfo {
    pub name: String,
    pub target_commit_id: String,
    pub tagger_name: String,
    pub tagger_email: String,
    pub message: String,
}

/// The remote a mirror is resynchronized from.
pub open spec fn origin() -> Seq<char> {
    "origin"@
}

/// The seconds between two resynchronizations of a mirror.
pub const RESYNC_INTERVAL_SECONDS: u64 = 3600;

/// What the host reports while a mirror is reset to its origin.
#[derive(Debug, PartialEq, Eq)]
pub enum ResetEvent {
    Begin,
    /// The repository was opened.
    Opened(Result<(), String>),
    /// The remote was looked up: its URL, or nothing if it has none that is
    /// text.
    Origin(Result<Option<String>, String>),
    /// The repository's directory was deleted; `url` is the URL the deletion
    /// was asked with.
    Removed { url: String, outcome: Result<(), String> },
    /// The repository was cloned anew.
    Cloned(Result<(), String>),
}

/// What resetting a mirror asks for next.
#[derive(Debug, PartialEq, Eq)]
pub enum ResetStep<T> {
    /// Open the repository at `location`. Report as [`ResetEvent::Opened`].
    Open { location: String },
    /// Read the URL of `remote`. Report as [`ResetEvent::Origin`].
    FindRemote { location: String, remote: String },
    /// Delete the directory `location` and all in it. Report as
    /// [`ResetEvent::Removed`], with `url`.
    Remove { location: String, url: String },
    /// Clone `url` into `location`. Report as [`ResetEvent::Cloned`].
    Reclone { url: String, location: String },
    Done(T),
}

/// What a reset does after `event`, told without the repository's location.
pub enum ResetPlan {
    Open,
    FindRemote,
    Remove { url: Seq<char> },
    Reclone { url: Seq<char> },
    /// The reset has failed, with this explanation.
    Fail(Seq<char>),
    /// The mirror is a fresh clone of its origin.
    Finish,
}

/// A reset opens the repository, reads the URL of its origin, deletes the
/// repository, and clones it anew from that URL. The first of these to fail
/// ends the reset; nothing is deleted before the URL is known.
pub open spec fn reset_plan(event: ResetEvent) -> ResetPlan {
    match event {
        ResetEvent::Begin => ResetPlan::Open,
        ResetEvent::Opened(Ok(_)) => ResetPlan::FindRemote,
        ResetEvent::Opened(Err(reason)) => ResetPlan::Fail(
            "Failed to open repository: "@ + reason@,
        ),
        ResetEvent::Origin(Ok(Some(url))) => ResetPlan::Remove { url: url@ },
        ResetEvent::Origin(Ok(None)) => ResetPlan::Fail("Remote URL not found"@),
        ResetEvent::Origin(Err(reason)) => ResetPlan::Fail("Failed to find remote: "@ + reason@),
        ResetEvent::Removed { url, outcome: Ok(_) } => ResetPlan::Reclone { url: url@ },
        ResetEvent::Removed { url, outcome: Err(reason) } => ResetPlan::Fail(
            "Failed to delete repository: "@ + reason@,
        ),
        ResetEvent::Cloned(Ok(_)) => ResetPlan::Finish,
        ResetEvent::Cloned(Err(reason)) => ResetPlan::Fail(
            "Failed to clone repository: "@ + reason@,
        ),
    }
}

/// `step` asks the host for what `plan` says, at `location`. No step asks
/// for a plan that has ended.
pub open spec fn reset_asks<T>(location: Seq<char>, plan: ResetPlan, step: ResetStep<T>) -> bool {
    match plan {
        ResetPlan::Open => step matches ResetStep::Open { location: place } && place@ == location,
        ResetPlan::FindRemote => step matches ResetStep::FindRemote { location: place, remote }
            && place@ == location && remote@ == origin(),
        ResetPlan::Remove { url } => step matches ResetStep::Remove { location: place, url: from }
            && place@ == location && from@ == url,
        ResetPlan::Reclone { url } => step matches ResetStep::Reclone { url: from, location: place }
            && place@ == location && from@ == url,
        ResetPlan::Fail(_) => false,
        ResetPlan::Finish => false,
    }
}

/// What a synchronization on demand says of a reset that failed with
/// `reason`.
pub open spec fn sync_failure_text(reason: Seq<char>) -> Seq<char> {
    "failed to reset repository ("@ + reason + ")"@
}

/// What the resynchronization schedule says of a reset that failed with
/// `reason`.
pub open spec fn resync_failure_text(reason: Seq<char>) -> Seq<char> {
    "Failed to reset repository ("@ + reason + ")"@
}

/// What the host reports while a repository is created.
#[derive(Debug, PartialEq, Eq)]
pub enum CreateEvent {
    Begin,
    /// Whether anything stands at the location.
    Probed(bool),
    /// A bare repository was initialised.
    Initialized(Result<(), String>),
}

/// What creating a repository asks for next.
#[derive(Debug, PartialEq, Eq)]
pub enum CreateStep {
    /// Say whether anything stands at this path. Report as
    /// [`CreateEvent::Probed`].
    Probe(String),
    /// Initialise a bare repository at this path. Report as
    /// [`CreateEvent::Initialized`].
    Init(String),
    Done(Result<(), Error>),
}

/// What creating a repository does after an event.
pub enum CreatePlan {
    Probe,
    Init,
    Fail(ErrorView),
    Finish,
}

/// Creating a repository at `place`: it fails with `AlreadyExists` if
/// anything stands at `place`, and then nothing is initialised; else a bare
/// repository is initialised there, and a failure of that is `InitFailed`.
pub open spec fn create_plan(place: Seq<char>, event: CreateEvent) -> CreatePlan {
    match event {
        CreateEvent::Begin => CreatePlan::Probe,
        CreateEvent::Probed(exists) => if exists {
            CreatePlan::Fail(ErrorView::AlreadyExists(place))
        } else {
            CreatePlan::Init
        },
        CreateEvent::Initialized(Ok(_)) => CreatePlan::Finish,
        CreateEvent::Initialized(Err(reason)) => CreatePlan::Fail(
            ErrorView::InitFailed("Failed to init repository: "@ + reason@),
        ),
    }
}

/// `step` asks the host for what `plan` says, at `place`.
pub open spec fn create_asks(place: Seq<char>, plan: CreatePlan, step: CreateStep) -> bool {
    match plan {
        CreatePlan::Probe => step matches CreateStep::Probe(path) && path@ == place,
        CreatePlan::Init => step matches CreateStep::Init(path) && path@ == place,
        CreatePlan::Fail(_) => false,
        CreatePlan::Finish => false,
    }
}

/// What the host reports while a repository is mirrored.
#[derive(Debug, PartialEq, Eq)]
pub enum MirrorEvent {
    Begin,
    /// Whether anything stands at the location.
    Probed(bool),
    /// The source was cloned.
    Cloned(Result<(), String>),
    /// The resynchronization schedule of the mirror was started.
    Scheduled,
}

/// What mirroring a repository asks for next.
#[derive(Debug, PartialEq, Eq)]
pub enum MirrorStep<T> {
    /// Say whether anything stands at this path. Report as
    /// [`MirrorEvent::Probed`].
    Probe(String),
    /// Clone `url` into `location`, with `url` as the remote `origin`. Report
    /// as [`MirrorEvent::Cloned`].
    CloneInto { url: String, location: String },
    /// Start a task that follows [`RepositoryManager::resynchronize`] for
    /// `location` for as long as the process lives, and do not wait for it.
    /// Report as [`MirrorEvent::Scheduled`].
    Schedule { location: String },
    Done(T),
}

/// What mirroring does after `event`.
pub enum MirrorPlan {
    Probe,
    CloneInto,
    Schedule,
    Fail(ErrorView),
    Finish,
}

/// Mirroring into `place`: it fails with `AlreadyExists` if anything stands
/// at `place`, whatever the source is; else the source is cloned; if that
/// fails mirroring fails with `CloneFailed`; else the resynchronization
/// schedule is started, and then mirroring has succeeded.
pub open spec fn mirror_plan(place: Seq<char>, event: MirrorEvent) -> MirrorPlan {
    match event {
        MirrorEvent::Begin => MirrorPlan::Probe,
        MirrorEvent::Probed(exists) => if exists {
            MirrorPlan::Fail(ErrorView::AlreadyExists(place))
        } else {
            MirrorPlan::CloneInto
        },
        MirrorEvent::Cloned(Ok(_)) => MirrorPlan::Schedule,
        MirrorEvent::Cloned(Err(reason)) => MirrorPlan::Fail(
            ErrorView::CloneFailed("Failed to clone repository: "@ + reason@),
        ),
        MirrorEvent::Scheduled => MirrorPlan::Finish,
    }
}

/// `step` asks the host for what `plan` says, for the source `url` and the
/// location `place`.
pub open spec fn mirror_asks<T>(
    url: Seq<char>,
    place: Seq<char>,
    plan: MirrorPlan,
    step: MirrorStep<T>,
) -> bool {
    match plan {
        MirrorPlan::Probe => step matches MirrorStep::Probe(path) && path@ == place,
        MirrorPlan::CloneInto => step matches MirrorStep::CloneInto { url: from, location: path }
            && from@ == url && path@ == place,
        MirrorPlan::Schedule => step matches MirrorStep::Schedule { location: path } && path@
            == place,
        MirrorPlan::Fail(_) => false,
        MirrorPlan::Finish => false,
    }
}

/// What the host reports while tags are read.
#[derive(Debug, PartialEq, Eq)]
pub enum TagsEvent {
    Begin,
    /// The repository was opened.
    Opened(Result<(), String>),
    /// The tag names were enumerated, in the store's order. A name that is
    /// not text comes as `None`.
    Listed(Result<Vec<Option<String>>, String>),
}

/// What reading tags asks for next.
#[derive(Debug, PartialEq, Eq)]
pub enum TagsStep<T> {
    /// Open the repository at this path. Report as [`TagsEvent::Opened`].
    Open(String),
    /// Enumerate the tag names of the repository at this path. Report as
    /// [`TagsEvent::Listed`].
    List(String),
    Done(T),
}

/// The names among `entries` that are text, in the order of `entries`.
pub open spec fn decoded_names(entries: Seq<Option<String>>) -> Seq<Seq<char>>
    decreases entries.len(),
{
    if entries.len() == 0 {
        Seq::empty()
    } else {
        let before = decoded_names(entries.drop_last());
        match entries.last() {
            Some(name) => before.push(name@),
            None => before,
        }
    }
}

/// What reading tags comes to after `event`: the names, a failure, or
/// nothing yet.
pub open spec fn tags_result(event: TagsEvent) -> Option<Result<Seq<Seq<char>>, Seq<char>>> {
    match event {
        TagsEvent::Begin => None,
        TagsEvent::Opened(Ok(_)) => None,
        TagsEvent::Opened(Err(reason)) => Some(Err("Failed to open repository: "@ + reason@)),
        TagsEvent::Listed(Ok(entries)) => Some(Ok(decoded_names(entries@))),
        TagsEvent::Listed(Err(reason)) => Some(Err("Failed to retrieve tags: "@ + reason@)),
    }
}

/// `step` asks the host for the next thing reading tags needs at `place`
/// after `event`.
pub open spec fn tags_asks<T>(place: Seq<char>, event: TagsEvent, step: TagsStep<T>) -> bool {
    match event {
        TagsEvent::Begin => step matches TagsStep::Open(path) && path@ == place,
        TagsEvent::Opened(Ok(_)) => step matches TagsStep::List(path) && path@ == place,
        _ => false,
    }
}

/// What the host reports to the resynchronization schedule.
#[derive(Debug, PartialEq, Eq)]
pub enum ResyncEvent {
    Begin,
    /// A reset has ended, well or not.
    Reset(Result<(), String>),
    /// The pause is over.
    Slept,
}

/// What the resynchronization schedule asks for next. It never asks to stop.
#[derive(Debug, PartialEq, Eq)]
pub enum ResyncStep {
    /// Follow [`RepositoryManager::reset_repository_using_origin`] to its
    /// end. Report as [`ResyncEvent::Reset`].
    Reset,
    /// Record `complaint` if there is one, then pause for `seconds`. Report
    /// as [`ResyncEvent::Slept`].
    Sleep { seconds: u64, complaint: Option<String> },
}

/// Whatever stands at a location is left alone: creating a repository there
/// and mirroring one into it both fail with `AlreadyExists` and name the
/// location, and mirroring does so whatever the source is.
pub proof fn occupied_location_is_refused(place: Seq<char>)
    ensures
        create_plan(place, CreateEvent::Probed(true)) == CreatePlan::Fail(
            ErrorView::AlreadyExists(place),
        ),
        mirror_plan(place, MirrorEvent::Probed(true)) == MirrorPlan::Fail(
            ErrorView::AlreadyExists(place),
        ),
        forall|url: Seq<char>, step: MirrorStep<Result<(), Error>>|
            !mirror_asks(url, place, mirror_plan(place, MirrorEvent::Probed(true)), step),
{
}

/// A reset destroys and clones anew. It asks for the mirror to be deleted
/// only once it holds the URL of the origin, and for nothing to be deleted
/// otherwise; and what it then clones is what that URL names, into the place
/// that was deleted.
pub proof fn reset_is_destroy_and_reclone(place: Seq<char>, event: ResetEvent)
    ensures
        reset_plan(event) matches ResetPlan::Remove { url } ==> event matches ResetEvent::Origin(
            Ok(Some(found)),
        ) && found@ == url,
        reset_plan(event) matches ResetPlan::Reclone { url } ==> event matches ResetEvent::Removed {
            url: from,
            outcome: Ok(_),
        } && from@ == url,
        reset_plan(event) is Finish ==> event matches ResetEvent::Cloned(Ok(_)),
{
}

/// `event` is the report that `step` asks for.
pub open spec fn reset_answers<T>(step: ResetStep<T>, event: ResetEvent) -> bool {
    match step {
        ResetStep::Open { .. } => event is Opened,
        ResetStep::FindRemote { .. } => event is Origin,
        ResetStep::Remove { url, .. } => event matches ResetEvent::Removed { url: echoed, .. }
            && echoed@ == url@,
        ResetStep::Reclone { .. } => event is Cloned,
        ResetStep::Done(_) => false,
    }
}

/// How far a reset has come when `event` is reported.
pub open spec fn reset_stage(event: ResetEvent) -> nat {
    match event {
        ResetEvent::Begin => 0,
        ResetEvent::Opened(_) => 1,
        ResetEvent::Origin(_) => 2,
        ResetEvent::Removed { .. } => 3,
        ResetEvent::Cloned(_) => 4,
    }
}

/// A reset only ever moves forward, one stage at a time: it opens, reads,
/// deletes and clones in that order and each of them once.
pub proof fn reset_moves_forward<T>(
    place: Seq<char>,
    event: ResetEvent,
    step: ResetStep<T>,
    next: ResetEvent,
)
    requires
        reset_asks(place, reset_plan(event), step),
        reset_answers(step, next),
    ensures
        reset_stage(next) == reset_stage(event) + 1,
        reset_stage(next) <= 4,
{
}

/// A store that enumerates no tag yields the empty sequence, not a failure.
pub proof fn no_tags_is_no_failure(entries: Vec<Option<String>>)
    requires
        entries@.len() == 0,
    ensures
        tags_result(TagsEvent::Listed(Ok(entries))) == Some(
            Ok::<Seq<Seq<char>>, Seq<char>>(Seq::empty()),
        ),
{
}

/// The names that come out are the entries that are text: there are no more
/// names than entries, and where every entry is text each name is its entry.
pub proof fn decoded_names_follow_entries(entries: Seq<Option<String>>)
    ensures
        decoded_names(entries).len() <= entries.len(),
        (forall|i: int| 0 <= i < entries.len() ==> entries[i] is Some) ==> decoded_names(
            entries,
        ).len() == entries.len() && forall|i: int|
            0 <= i < entries.len() ==> decoded_names(entries)[i] == (#[trigger] entries[i])->0@,
    decreases entries.len(),
{
    if entries.len() > 0 {
        decoded_names_follow_entries(entries.drop_last());
        if forall|i: int| 0 <= i < entries.len() ==> entries[i] is Some {
            assert forall|i: int| 0 <= i < entries.drop_last().len() implies entries.drop_last()[i] is Some by {
                assert(entries.drop_last()[i] == entries[i]);
            }
            assert forall|i: int| 0 <= i < entries.len() implies decoded_names(entries)[i] == (
            #[trigger] entries[i])->0@ by {
                if i < entries.len() - 1 {
                    assert(entries.drop_last()[i] == entries[i]);
                }
            }
        }
    }
}

/// Keeps the names that are text, in order.
pub fn decode_names(entries: Vec<Option<String>>) -> (names: Vec<String>)
    ensures
        names.deep_view() == decoded_names(entries@),
{
    let mut names: Vec<String> = Vec::new();
    let mut i: usize = 0;
    assert(entries@.take(0) =~= Seq::<Option<String>>::empty());
    while i < entries.len()
        invariant
            i <= entries.len(),
            names.deep_view() == decoded_names(entries@.take(i as int)),
        decreases entries.len() - i,
    {
        let ghost before = names.deep_view();
        assert(entries@.take(i + 1).drop_last() =~= entries@.take(i as int));
        assert(entries@.take(i + 1).last() == entries@[i as int]);
        match &entries[i] {
            Some(name) => {
                names.push(name.clone());
                assert(names.deep_view() =~= before.push(name@));
            },
            None => {},
        }
        i += 1;
    }
    assert(entries@.take(entries.len() as int) =~= entries@);
    names
}

impl RepositoryManager {
    /// The directory under which the repositories live.
    pub closed spec fn base(&self) -> Seq<char> {
        self.file_system.base_location@
    }

    /// The manager of the repositories under `base_location`.
    pub fn new(base_location: &str) -> (manager: Self)
        ensures
            manager.base() == base_location@,
    {
        let file_system = FileSystem::new(base_location);
        RepositoryManager { file_system }
    }

    /// Resets the mirror at `location` to its origin by deleting it and
    /// cloning it anew. Whatever was changed in the mirror is lost.
    pub fn reset_repository_using_origin(location: &str, event: ResetEvent) -> (step: ResetStep<
        Result<(), String>,
    >)
        ensures
            match reset_plan(event) {
                ResetPlan::Fail(reason) => step matches ResetStep::Done(Err(text)) && text@
                    == reason,
                ResetPlan::Finish => step == ResetStep::Done(Ok::<(), String>(())),
                asked => reset_asks(location@, asked, step),
            },
    {
        match event {
            ResetEvent::Begin => ResetStep::Open { location: String::from_str(location) },
            ResetEvent::Opened(Ok(_)) => ResetStep::FindRemote {
                location: String::from_str(location),
                remote: String::from_str("origin"),
            },
            ResetEvent::Opened(Err(reason)) => ResetStep::Done(
                Err(join("Failed to open repository: ", reason.as_str())),
            ),
            ResetEvent::Origin(Ok(Some(url))) => ResetStep::Remove {
                location: String::from_str(location),
                url,
            },
            ResetEvent::Origin(Ok(None)) => ResetStep::Done(
                Err(String::from_str("Remote URL not found")),
            ),
            ResetEvent::Origin(Err(reason)) => ResetStep::Done(
                Err(join("Failed to find remote: ", reason.as_str())),
            ),
            ResetEvent::Removed { url, outcome: Ok(_) } => ResetStep::Reclone {
                url,
                location: String::from_str(location),
            },
            ResetEvent::Removed { url, outcome: Err(reason) } => ResetStep::Done(
                Err(join("Failed to delete repository: ", reason.as_str())),
            ),
            ResetEvent::Cloned(Ok(_)) => ResetStep::Done(Ok(())),
            ResetEvent::Cloned(Err(reason)) => ResetStep::Done(
                Err(join("Failed to clone repository: ", reason.as_str())),
            ),
        }
    }

    /// Creates an empty bare repository called `name`. Fails with
    /// `AlreadyExists` if anything stands at its location, and then nothing
    /// is initialised.
    pub fn create_repository(&self, name: &str, event: CreateEvent) -> (step: CreateStep)
        ensures
            match create_plan(location(self.base(), name@), event) {
                CreatePlan::Fail(error) => step matches CreateStep::Done(Err(failure))
                    && failure@ == error,
                CreatePlan::Finish => step == CreateStep::Done(Ok(())),
                asked => create_asks(location(self.base(), name@), asked, step),
            },
    {
        match event {
            CreateEvent::Begin => CreateStep::Probe(self.file_system.git_path(name)),
            CreateEvent::Probed(exists) => {
                let location = self.file_system.git_path(name);
                if exists {
                    CreateStep::Done(Err(Error::AlreadyExists(location)))
                } else {
                    CreateStep::Init(location)
                }
            },
            CreateEvent::Initialized(Ok(_)) => CreateStep::Done(Ok(())),
            CreateEvent::Initialized(Err(reason)) => CreateStep::Done(
                Err(Error::InitFailed(join("Failed to init repository: ", reason.as_str()))),
            ),
        }
    }

    /// Mirrors the repository at `url` under the name `name`, and has the
    /// mirror resynchronized from then on.
    pub fn clone_repository(&self, url: &str, name: &str, event: MirrorEvent) -> (step: MirrorStep<
        Result<(), Error>,
    >)
        ensures
            match mirror_plan(location(self.base(), name@), event) {
                MirrorPlan::Fail(error) => step matches MirrorStep::Done(Err(failure))
                    && failure@ == error,
                MirrorPlan::Finish => step == MirrorStep::Done(Ok::<(), Error>(())),
                asked => mirror_asks(url@, location(self.base(), name@), asked, step),
            },
    {
        let place = self.file_system.git_path(name);
        match event {
            MirrorEvent::Begin => MirrorStep::Probe(place),
            MirrorEvent::Probed(exists) => {
                if exists {
                    MirrorStep::Done(Err(Error::AlreadyExists(place)))
                } else {
                    MirrorStep::CloneInto { url: String::from_str(url), location: place }
                }
            },
            MirrorEvent::Cloned(Ok(_)) => MirrorStep::Schedule { location: place },
            MirrorEvent::Cloned(Err(reason)) => MirrorStep::Done(
                Err(Error::CloneFailed(join("Failed to clone repository: ", reason.as_str()))),
            ),
            MirrorEvent::Scheduled => MirrorStep::Done(Ok(())),
        }
    }

    /// The names of the tags of the repository called `name`, in the order in
    /// which the store enumerates them. A tag whose name is not text is left
    /// out. Fails with `NotFound` if the repository cannot be opened or its
    /// tags cannot be enumerated.
    pub fn get_tags(&self, name: &str, event: TagsEvent) -> (step: TagsStep<
        Result<Vec<String>, Error>,
    >)
        ensures
            match tags_result(event) {
                Some(Ok(names)) => step matches TagsStep::Done(Ok(tags)) && tags.deep_view()
                    == names,
                Some(Err(text)) => step matches TagsStep::Done(Err(failure)) && failure@
                    == ErrorView::NotFound(text),
                None => tags_asks(location(self.base(), name@), event, step),
            },
    {
        match event {
            TagsEvent::Begin => TagsStep::Open(self.file_system.git_path(name)),
            TagsEvent::Opened(Ok(_)) => TagsStep::List(self.file_system.git_path(name)),
            TagsEvent::Opened(Err(reason)) => TagsStep::Done(
                Err(Error::NotFound(join("Failed to open repository: ", reason.as_str()))),
            ),
            TagsEvent::Listed(Ok(entries)) => TagsStep::Done(Ok(decode_names(entries))),
            TagsEvent::Listed(Err(reason)) => TagsStep::Done(
                Err(Error::NotFound(join("Failed to retrieve tags: ", reason.as_str()))),
            ),
        }
    }

    /// Resets the mirror at `path` to its origin, now. A reset that fails
    /// is reported as `SyncFailed`, with the failure in its text.
    pub fn sync_repo(&self, path: &str, event: ResetEvent) -> (step: ResetStep<Result<(), Error>>)
        ensures
            match reset_plan(event) {
                ResetPlan::Fail(reason) => step matches ResetStep::Done(Err(failure)) && failure@
                    == ErrorView::SyncFailed(sync_failure_text(reason)),
                ResetPlan::Finish => step == ResetStep::Done(Ok::<(), Error>(())),
                asked => reset_asks(path@, asked, step),
            },
    {
        match RepositoryManager::reset_repository_using_origin(path, event) {
            ResetStep::Open { location } => ResetStep::Open { location },
            ResetStep::FindRemote { location, remote } => ResetStep::FindRemote {
                location,
                remote,
            },
            ResetStep::Remove { location, url } => ResetStep::Remove { location, url },
            ResetStep::Reclone { url, location } => ResetStep::Reclone { url, location },
            ResetStep::Done(Ok(_)) => ResetStep::Done(Ok(())),
            ResetStep::Done(Err(reason)) => ResetStep::Done(
                Err(
                    Error::SyncFailed(
                        join3("failed to reset repository (", reason.as_str(), ")"),
                    ),
                ),
            ),
        }
    }

    /// The schedule on which a mirror is kept fresh: reset, pause for an
    /// hour, reset again, without end. A reset that fails is recorded and
    /// followed by the same pause; it never ends the schedule.
    pub fn resynchronize(event: ResyncEvent) -> (step: ResyncStep)
        ensures
            match event {
                ResyncEvent::Begin => step == ResyncStep::Reset,
                ResyncEvent::Slept => step == ResyncStep::Reset,
                ResyncEvent::Reset(Ok(_)) => step == (ResyncStep::Sleep {
                    seconds: RESYNC_INTERVAL_SECONDS,
                    complaint: None,
                }),
                ResyncEvent::Reset(Err(reason)) => step matches ResyncStep::Sleep {
                    seconds,
                    complaint: Some(text),
                } && seconds == RESYNC_INTERVAL_SECONDS && text@ == resync_failure_text(reason@),
            },
    {
        match event {
            ResyncEvent::Begin => ResyncStep::Reset,
            ResyncEvent::Slept => ResyncStep::Reset,
            ResyncEvent::Reset(Ok(_)) => ResyncStep::Sleep {
                seconds: RESYNC_INTERVAL_SECONDS,
                complaint: None,
            },
            ResyncEvent::Reset(Err(reason)) => ResyncStep::Sleep {
                seconds: RESYNC_INTERVAL_SECONDS,
                complaint: Some(join3("Failed to reset repository (", reason.as_str(), ")")),
            },
        }
    }
}

} // verus!
