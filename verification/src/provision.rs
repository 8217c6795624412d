//! Making sure that a directory exists. The file system is the caller's:
//! this module says what to look at and what to create, and the caller
//! reports what it found.

use crate::error::{outcome_view, Error, ErrorView};
use vstd::prelude::*;
use vstd::string::StringExecFns;

verus! {

/// What a look at a path found.
#[derive(Clone, Copy, Debug, PartialEq, Eq, Structural)]
pub enum PathStatus {
    /// Nothing exists at the path.
    Missing,
    /// A directory exists at the path.
    Directory,
    /// Something exists at the path, and it is not a directory.
    NotDirectory,
}

/// Where a run of [`ensure_dir_exists`] stands.
#[derive(Clone, Copy, Debug, PartialEq, Eq, Structural)]
pub enum DirState {
    /// Nothing has been asked yet.
    Start,
    /// The caller was asked to look at the path.
    Probing,
    /// The caller was asked to create the directory.
    Creating,
    /// The run has ended.
    Done,
}

/// What the caller reports to a run of [`ensure_dir_exists`].
#[derive(Debug)]
pub enum DirEvent {
    /// The run is to begin.
    Begin,
    /// The path was looked at.
    Probed(PathStatus),
    /// The creation of the directory and of its missing ancestors ended so.
    Created(Result<(), std::io::Error>),
}

/// What a run of [`ensure_dir_exists`] asks of the caller.
#[derive(Debug)]
pub enum DirAction {
    /// Look at the path and report its status.
    Probe,
    /// Create the directory with all its missing ancestors, and report.
    Create,
    /// The run has ended with this outcome.
    Finish(Result<(), Error>),
    /// The event was not the one waited for: nothing changes.
    Nothing,
}

/// What a [`DirAction`] is in contracts.
pub enum DirActionView {
    Probe,
    Create,
    Finish(Result<(), ErrorView>),
    Nothing,
}

impl View for DirAction {
    type V = DirActionView;

    open spec fn view(&self) -> DirActionView {
        match *self {
            DirAction::Probe => DirActionView::Probe,
            DirAction::Create => DirActionView::Create,
            DirAction::Finish(outcome) => DirActionView::Finish(outcome_view(outcome)),
            DirAction::Nothing => DirActionView::Nothing,
        }
    }
}

/// The status of a path of which it is known whether anything exists there
/// and whether a directory does.
pub open spec fn observed(exists: bool, is_dir: bool) -> PathStatus {
    if !exists {
        PathStatus::Missing
    } else if !is_dir {
        PathStatus::NotDirectory
    } else {
        PathStatus::Directory
    }
}

/// The message of the failure reported for a path that exists and is not a
/// directory.
pub open spec fn not_a_directory_message(path: Seq<char>) -> Seq<char> {
    "path exists but is not a directory: "@ + path
}

/// One step of a run on the path with text `path`: the next state and what
/// is asked of the caller.
///
/// A missing path is created; a directory is left alone; anything else at
/// the path ends the run with a failure that names the path. A failed
/// creation ends the run with the failure of the file system. An event that
/// the state does not wait for changes nothing.
pub open spec fn dir_step(path: Seq<char>, state: DirState, event: DirEvent) -> (
    DirState,
    DirActionView,
) {
    match (state, event) {
        (DirState::Start, DirEvent::Begin) => (DirState::Probing, DirActionView::Probe),
        (DirState::Probing, DirEvent::Probed(PathStatus::Missing)) => (
            DirState::Creating,
            DirActionView::Create,
        ),
        (DirState::Probing, DirEvent::Probed(PathStatus::Directory)) => (
            DirState::Done,
            DirActionView::Finish(Ok(())),
        ),
        (DirState::Probing, DirEvent::Probed(PathStatus::NotDirectory)) => (
            DirState::Done,
            DirActionView::Finish(Err(ErrorView::Custom(not_a_directory_message(path)))),
        ),
        (DirState::Creating, DirEvent::Created(Ok(_))) => (
            DirState::Done,
            DirActionView::Finish(Ok(())),
        ),
        (DirState::Creating, DirEvent::Created(Err(e))) => (
            DirState::Done,
            DirActionView::Finish(Err(ErrorView::Io(e))),
        ),
        _ => (state, DirActionView::Nothing),
    }
}

impl PathStatus {
    /// The status of a path, from whether anything exists there and whether
    /// a directory does.
    pub fn observe(exists: bool, is_dir: bool) -> (status: PathStatus)
        ensures
            status == observed(exists, is_dir),
    {
        if !exists {
            PathStatus::Missing
        } else if !is_dir {
            PathStatus::NotDirectory
        } else {
            PathStatus::Directory
        }
    }
}

/// Takes a run that makes sure of the directory at `path` one step further:
/// `state` is where the run stands and `event` what the caller reports. The
/// result is the next state and what the caller is to do. `path` is the text
/// of the path, for the failure's message.
pub fn ensure_dir_exists(path: &str, state: DirState, event: DirEvent) -> (next: (
    DirState,
    DirAction,
))
    ensures
        next.0 == dir_step(path@, state, event).0,
        next.1@ == dir_step(path@, state, event).1,
{
    match (state, event) {
        (DirState::Start, DirEvent::Begin) => (DirState::Probing, DirAction::Probe),
        (DirState::Probing, DirEvent::Probed(PathStatus::Missing)) => (
            DirState::Creating,
            DirAction::Create,
        ),
        (DirState::Probing, DirEvent::Probed(PathStatus::Directory)) => (
            DirState::Done,
            DirAction::Finish(Ok(())),
        ),
        (DirState::Probing, DirEvent::Probed(PathStatus::NotDirectory)) => {
            let mut message = String::from_str("path exists but is not a directory: ");
            message.append(path);
            (DirState::Done, DirAction::Finish(Err(Error::Custom(message))))
        },
        (DirState::Creating, DirEvent::Created(Ok(_))) => (
            DirState::Done,
            DirAction::Finish(Ok(())),
        ),
        (DirState::Creating, DirEvent::Created(Err(e))) => (
            DirState::Done,
            DirAction::Finish(Err(Error::from(e))),
        ),
        (state, _) => (state, DirAction::Nothing),
    }
}

/// A path at which something other than a directory exists is refused
/// with a message that names it, and nothing is asked to be created there.
pub proof fn lemma_not_a_directory_is_refused(path: Seq<char>)
    ensures
        dir_step(path, DirState::Start, DirEvent::Begin) == (
            DirState::Probing,
            DirActionView::Probe,
        ),
        dir_step(path, DirState::Probing, DirEvent::Probed(PathStatus::NotDirectory)) == (
            DirState::Done,
            DirActionView::Finish(Err(ErrorView::Custom(not_a_directory_message(path)))),
        ),
{
}

/// Running twice is as good as running once. A first run on a missing path
/// asks for its creation and, when that succeeds, ends in success. A second
/// run then finds the directory: it ends in success at once and asks for
/// nothing to be created.
pub proof fn lemma_provision_idempotent(path: Seq<char>)
    ensures
        dir_step(path, DirState::Probing, DirEvent::Probed(PathStatus::Missing)) == (
            DirState::Creating,
            DirActionView::Create,
        ),
        dir_step(path, DirState::Creating, DirEvent::Created(Ok(()))) == (
            DirState::Done,
            DirActionView::Finish(Ok(())),
        ),
        dir_step(path, DirState::Probing, DirEvent::Probed(PathStatus::Directory)) == (
            DirState::Done,
            DirActionView::Finish(Ok(())),
        ),
{
}

/// A failed creation ends the run with the failure of the file system,
/// unchanged.
pub proof fn lemma_failed_creation_is_reported(path: Seq<char>, failure: std::io::Error)
    ensures
        dir_step(path, DirState::Creating, DirEvent::Created(Err(failure))) == (
            DirState::Done,
            DirActionView::Finish(Err(ErrorView::Io(failure))),
        ),
{
}

/// A run that has ended stays ended: whatever is reported to it, it asks
/// for nothing more.
pub proof fn lemma_done_is_final(path: Seq<char>, event: DirEvent)
    ensures
        dir_step(path, DirState::Done, event) == (DirState::Done, DirActionView::Nothing),
{
}

/// The directory is asked to be created only after the path was found
/// missing.
pub proof fn lemma_create_only_when_missing(path: Seq<char>, state: DirState, event: DirEvent)
    requires
        dir_step(path, state, event).1 == DirActionView::Create,
    ensures
        state == DirState::Probing,
        event == DirEvent::Probed(PathStatus::Missing),
{
}

} // verus!
