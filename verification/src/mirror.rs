//! The rule of a recursive directory copy.
//!
//! The walk and the file-system calls are the caller's. For each entry it
//! asks here which call to make, reports how the call ended, and is told how
//! to go on.

use vstd::prelude::*;

verus! {

/// What the walk found in the source directory.
#[derive(Clone, Copy, Debug, PartialEq, Eq, Structural)]
pub enum EntryKind {
    /// A directory, to be mirrored with all that is in it.
    Directory,
    /// Anything else, to be copied as a file.
    File,
}

/// The file-system call made for an entry.
#[derive(Clone, Copy, Debug, PartialEq, Eq, Structural)]
pub enum Step {
    /// Create the directory of the same name at the destination.
    CreateDirectory,
    /// Copy the file to the destination.
    CopyFile,
}

/// How a call failed.
#[derive(Clone, Copy, Debug, PartialEq, Eq, Structural)]
pub enum Failure {
    /// What was to be created is there already.
    AlreadyExists,
    /// Any other failure of the file system.
    Other,
}

/// How the walk goes on after a call.
#[derive(Clone, Copy, Debug, PartialEq, Eq, Structural)]
pub enum Next {
    /// Mirror the contents of the directory just created or found.
    Descend,
    /// Go to the next entry.
    Continue,
    /// End the copy and report the failure.
    Abort,
}

/// The call that an entry asks for.
pub open spec fn step_of(kind: EntryKind) -> Step {
    match kind {
        EntryKind::Directory => Step::CreateDirectory,
        EntryKind::File => Step::CopyFile,
    }
}

/// A failure that does not end the copy: only a directory that is there
/// already.
pub open spec fn is_tolerated(step: Step, failure: Failure) -> bool {
    step == Step::CreateDirectory && failure == Failure::AlreadyExists
}

/// How the walk goes on: past a success or a tolerated failure into the
/// directory or on to the next entry, and no further after any other failure.
pub open spec fn next_of(step: Step, ended: Result<(), Failure>) -> Next {
    match ended {
        Err(failure) if !is_tolerated(step, failure) => Next::Abort,
        _ => match step {
            Step::CreateDirectory => Next::Descend,
            Step::CopyFile => Next::Continue,
        },
    }
}

/// Which call to make for an entry.
pub fn step_for(kind: EntryKind) -> (step: Step)
    ensures
        step == step_of(kind),
{
    match kind {
        EntryKind::Directory => Step::CreateDirectory,
        EntryKind::File => Step::CopyFile,
    }
}

/// How to go on after a call that ended as given.
pub fn after_step(step: Step, ended: Result<(), Failure>) -> (next: Next)
    ensures
        next == next_of(step, ended),
{
    match ended {
        Ok(_) => match step {
            Step::CreateDirectory => Next::Descend,
            Step::CopyFile => Next::Continue,
        },
        Err(failure) => match (step, failure) {
            (Step::CreateDirectory, Failure::AlreadyExists) => Next::Descend,
            _ => Next::Abort,
        },
    }
}

/// A directory that exists already never ends the copy, and every other
/// failure does.
pub proof fn lemma_only_existing_directory_is_tolerated(step: Step, failure: Failure)
    ensures
        next_of(step, Err(failure)) != Next::Abort <==> step == Step::CreateDirectory && failure
            == Failure::AlreadyExists,
        next_of(Step::CreateDirectory, Err(Failure::AlreadyExists)) == next_of(
            Step::CreateDirectory,
            Ok(()),
        ),
{
}

} // verus!
