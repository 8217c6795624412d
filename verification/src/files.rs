//! Reading and writing whole files. The file system is the caller's: this
//! module says in which order things are to be done and classifies what the
//! caller reports.

use crate::error::Error;
use crate::paths::{parent_of, path_parent};
use std::path::PathBuf;
use vstd::prelude::*;

verus! {

/// Where a run of [`write_file`] stands.
#[derive(Clone, Copy, Debug, PartialEq, Eq, Structural)]
pub enum WriteState {
    /// Nothing has been asked yet.
    Start,
    /// The caller was asked to make sure that the parent directory exists.
    ProvisioningParent,
    /// The caller was asked to write the file.
    Writing,
    /// The run has ended.
    Done,
}

/// What the caller reports to a run of [`write_file`].
#[derive(Debug)]
pub enum WriteEvent {
    /// The run is to begin.
    Begin,
    /// Making sure of the parent directory ended so.
    ParentProvisioned(Result<(), Error>),
    /// Writing the file ended so.
    Written(Result<(), std::io::Error>),
}

/// What a run of [`write_file`] asks of the caller.
#[derive(Debug)]
pub enum WriteAction {
    /// Make sure that this directory, the parent of the file's path, exists,
    /// and report.
    ProvisionParent(PathBuf),
    /// Write the contents to the file, and report.
    Write,
    /// The run has ended with this outcome.
    Finish(Result<(), Error>),
    /// The event was not the one waited for: nothing changes.
    Nothing,
}

/// One step of a run that writes the file at `path`: the next state and
/// what is asked of the caller.
///
/// The parent directory of the path, where it has one, is made sure of
/// before the file is written. If that fails, the run ends with the same
/// failure and the file is not written. A failed write ends the run with the
/// failure of the file system. An event that the state does not wait for
/// changes nothing.
pub open spec fn write_step(path: PathBuf, state: WriteState, event: WriteEvent) -> (
    WriteState,
    WriteAction,
) {
    match (state, event) {
        (WriteState::Start, WriteEvent::Begin) => match path_parent(path) {
            Some(parent) => (WriteState::ProvisioningParent, WriteAction::ProvisionParent(parent)),
            None => (WriteState::Writing, WriteAction::Write),
        },
        (WriteState::ProvisioningParent, WriteEvent::ParentProvisioned(Ok(_))) => (
            WriteState::Writing,
            WriteAction::Write,
        ),
        (WriteState::ProvisioningParent, WriteEvent::ParentProvisioned(Err(e))) => (
            WriteState::Done,
            WriteAction::Finish(Err(e)),
        ),
        (WriteState::Writing, WriteEvent::Written(Ok(_))) => (
            WriteState::Done,
            WriteAction::Finish(Ok(())),
        ),
        (WriteState::Writing, WriteEvent::Written(Err(e))) => (
            WriteState::Done,
            WriteAction::Finish(Err(Error::Io(e))),
        ),
        _ => (state, WriteAction::Nothing),
    }
}

/// Takes a run that writes the file at `path` one step further: `state` is
/// where the run stands and `event` what the caller reports. The result is
/// the next state and what the caller is to do. The parent directory that is
/// to be made sure of is derived from `path` here.
pub fn write_file(path: &PathBuf, state: WriteState, event: WriteEvent) -> (next: (
    WriteState,
    WriteAction,
))
    ensures
        next == write_step(*path, state, event),
{
    match (state, event) {
        (WriteState::Start, WriteEvent::Begin) => match parent_of(path) {
            Some(parent) => (WriteState::ProvisioningParent, WriteAction::ProvisionParent(parent)),
            None => (WriteState::Writing, WriteAction::Write),
        },
        (WriteState::ProvisioningParent, WriteEvent::ParentProvisioned(Ok(_))) => (
            WriteState::Writing,
            WriteAction::Write,
        ),
        (WriteState::ProvisioningParent, WriteEvent::ParentProvisioned(Err(e))) => (
            WriteState::Done,
            WriteAction::Finish(Err(e)),
        ),
        (WriteState::Writing, WriteEvent::Written(Ok(_))) => (
            WriteState::Done,
            WriteAction::Finish(Ok(())),
        ),
        (WriteState::Writing, WriteEvent::Written(Err(e))) => (
            WriteState::Done,
            WriteAction::Finish(Err(Error::from(e))),
        ),
        (state, _) => (state, WriteAction::Nothing),
    }
}

/// The outcome of reading a file to a text, from what the file system
/// reported: the text as it was read, or the failure of the file system as
/// an I/O failure.
pub fn read_file(outcome: Result<String, std::io::Error>) -> (r: Result<String, Error>)
    ensures
        r == match outcome {
            Ok(text) => Ok::<String, Error>(text),
            Err(e) => Err(Error::Io(e)),
        },
{
    match outcome {
        Ok(text) => Ok(text),
        Err(e) => Err(Error::from(e)),
    }
}

/// The file is asked to be written only at the start of a run on a path
/// without a parent, or after the parent directory was made sure of with
/// success.
pub proof fn lemma_write_only_after_parent(path: PathBuf, state: WriteState, event: WriteEvent)
    requires
        write_step(path, state, event).1 == WriteAction::Write,
    ensures
        (state == WriteState::Start && event == WriteEvent::Begin && path_parent(path) is None)
            || (state == WriteState::ProvisioningParent && event
            matches WriteEvent::ParentProvisioned(Ok(_))),
{
}

/// The directory that is asked to be made sure of is the parent of the
/// file's path, and it is asked for only at the start of a run.
pub proof fn lemma_parent_is_provisioned(
    path: PathBuf,
    state: WriteState,
    event: WriteEvent,
    dir: PathBuf,
)
    requires
        write_step(path, state, event).1 == WriteAction::ProvisionParent(dir),
    ensures
        state == WriteState::Start,
        event == WriteEvent::Begin,
        path_parent(path) == Some(dir),
{
}

/// If the parent directory cannot be made sure of, the run ends with that
/// same failure, and from then on nothing is asked: the file is not written.
pub proof fn lemma_failed_parent_stops_write(path: PathBuf, failure: Error, later: WriteEvent)
    ensures
        write_step(
            path,
            WriteState::ProvisioningParent,
            WriteEvent::ParentProvisioned(Err(failure)),
        ) == (WriteState::Done, WriteAction::Finish(Err(failure))),
        write_step(path, WriteState::Done, later) == (WriteState::Done, WriteAction::Nothing),
{
}

/// A run on a path whose parent is made sure of and whose write succeeds
/// asks for the parent first, then for the write, and ends in success.
pub proof fn lemma_write_succeeds(path: PathBuf, parent: PathBuf)
    requires
        path_parent(path) == Some(parent),
    ensures
        write_step(path, WriteState::Start, WriteEvent::Begin) == (
            WriteState::ProvisioningParent,
            WriteAction::ProvisionParent(parent),
        ),
        write_step(path, WriteState::ProvisioningParent, WriteEvent::ParentProvisioned(Ok(())))
            == (WriteState::Writing, WriteAction::Write),
        write_step(path, WriteState::Writing, WriteEvent::Written(Ok(()))) == (
            WriteState::Done,
            WriteAction::Finish(Ok(())),
        ),
{
}

} // verus!
