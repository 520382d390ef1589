//! One clone operation: clone the source into a new file, then overwrite the
//! clone's first block.
//!
//! The write is part of the operation. A clone alone only records that two
//! files share their extents; the filesystem does the work under measurement
//! when the first write to the clone forces it to give the clone an extent of
//! its own.
//!
//! The operation is a fixed sequence of five file operations. The driver
//! performs each one and reports how it went; [`CloneStep::advance`] says what
//! comes next or with which error the operation ends.

use crate::error::CloneError;
use vstd::prelude::*;

verus! {

/// The request number of the clone call (`FICLONE`): it makes the file it is
/// issued on share the extents of the file whose descriptor is its argument.
pub const FICLONE: u64 = 0x40049409;

/// The error number for a link across devices.
pub const EXDEV: i32 = 18;

/// The error number for an operation that the filesystem does not support.
pub const EOPNOTSUPP: i32 = 95;

/// The byte that the block written to every clone is filled with.
pub const FILLER_BYTE: u8 = 0xAA;

/// The length of the block written to every clone.
pub const FILLER_LEN: usize = 4096;

/// The offset in the clone at which the block is written.
pub const WRITE_OFFSET: u64 = 0;

/// How a file is opened.
#[derive(Clone, Copy, Debug, PartialEq, Eq, Structural)]
pub struct OpenMode {
    pub read: bool,
    pub write: bool,
    pub create: bool,
    pub truncate: bool,
}

/// The file operations that make up one clone operation, in order.
#[derive(Clone, Copy, Debug, PartialEq, Eq, Structural)]
pub enum CloneStep {
    /// Open the source file for reading.
    OpenSource,
    /// Create the target file, or open and empty it, for reading and writing.
    CreateTarget,
    /// Issue the clone call on the target with the source as its donor.
    CloneExtents,
    /// Move to the start of the target.
    SeekToStart,
    /// Write the filler block.
    WriteFiller,
    /// Nothing is left to do: the operation has succeeded.
    Finished,
}

/// How one file operation went.
#[derive(Clone, Copy, Debug, PartialEq, Eq)]
pub enum StepOutcome {
    Succeeded,
    /// The operation failed, with the error number of the operating system
    /// where there is one.
    Failed { os_error: Option<i32> },
}

/// Whether an error number of the clone call says that the filesystem cannot
/// clone, rather than that something else went wrong.
pub open spec fn means_unsupported(os_error: Option<i32>) -> bool {
    os_error == Some(EXDEV) || os_error == Some(EOPNOTSUPP)
}

/// The error that a failed clone call stands for.
pub open spec fn clone_failure_of(os_error: Option<i32>) -> CloneError {
    if means_unsupported(os_error) {
        CloneError::CloneUnsupported
    } else {
        CloneError::IoFailure
    }
}

impl CloneStep {
    /// The step that follows this one when it succeeds.
    pub open spec fn successor(self) -> CloneStep {
        match self {
            CloneStep::OpenSource => CloneStep::CreateTarget,
            CloneStep::CreateTarget => CloneStep::CloneExtents,
            CloneStep::CloneExtents => CloneStep::SeekToStart,
            CloneStep::SeekToStart => CloneStep::WriteFiller,
            CloneStep::WriteFiller => CloneStep::Finished,
            CloneStep::Finished => CloneStep::Finished,
        }
    }

    /// What follows this step given how it went: the next step, or the error
    /// that the operation ends with. A failed clone call is
    /// `CloneUnsupported` when its error number says so; every other failure
    /// is an `IoFailure`. A finished operation stays finished.
    pub open spec fn after(self, outcome: StepOutcome) -> Result<CloneStep, CloneError> {
        match outcome {
            StepOutcome::Succeeded => Ok(self.successor()),
            StepOutcome::Failed { os_error } => match self {
                CloneStep::Finished => Ok(CloneStep::Finished),
                CloneStep::CloneExtents => Err(clone_failure_of(os_error)),
                _ => Err(CloneError::IoFailure),
            },
        }
    }

    /// The number of steps that have succeeded when this one is due.
    pub open spec fn position(self) -> nat {
        match self {
            CloneStep::OpenSource => 0,
            CloneStep::CreateTarget => 1,
            CloneStep::CloneExtents => 2,
            CloneStep::SeekToStart => 3,
            CloneStep::WriteFiller => 4,
            CloneStep::Finished => 5,
        }
    }

    /// The step that every clone operation begins with.
    pub fn first() -> (step: CloneStep)
        ensures
            step == CloneStep::OpenSource,
    {
        CloneStep::OpenSource
    }

    /// Whether the operation has succeeded.
    pub fn is_finished(&self) -> (finished: bool)
        ensures
            finished == (*self == CloneStep::Finished),
    {
        match self {
            CloneStep::Finished => true,
            _ => false,
        }
    }

    /// Takes the outcome of this step and says how the operation goes on.
    pub fn advance(self, outcome: StepOutcome) -> (next: Result<CloneStep, CloneError>)
        ensures
            next == self.after(outcome),
    {
        match outcome {
            StepOutcome::Succeeded => Ok(
                match self {
                    CloneStep::OpenSource => CloneStep::CreateTarget,
                    CloneStep::CreateTarget => CloneStep::CloneExtents,
                    CloneStep::CloneExtents => CloneStep::SeekToStart,
                    CloneStep::SeekToStart => CloneStep::WriteFiller,
                    CloneStep::WriteFiller => CloneStep::Finished,
                    CloneStep::Finished => CloneStep::Finished,
                },
            ),
            StepOutcome::Failed { os_error } => match self {
                CloneStep::Finished => Ok(CloneStep::Finished),
                CloneStep::CloneExtents => Err(classify_clone_failure(os_error)),
                _ => Err(CloneError::IoFailure),
            },
        }
    }
}

/// Says what a failed clone call means: `CloneUnsupported` when the error
/// number is that of a link across devices or of an unsupported operation,
/// `IoFailure` otherwise.
pub fn classify_clone_failure(os_error: Option<i32>) -> (error: CloneError)
    ensures
        error == clone_failure_of(os_error),
{
    match os_error {
        Some(code) => {
            if code == EXDEV || code == EOPNOTSUPP {
                CloneError::CloneUnsupported
            } else {
                CloneError::IoFailure
            }
        },
        None => CloneError::IoFailure,
    }
}

/// How the source is opened: for reading only.
pub fn source_open_mode() -> (mode: OpenMode)
    ensures
        mode == (OpenMode { read: true, write: false, create: false, truncate: false }),
{
    OpenMode { read: true, write: false, create: false, truncate: false }
}

/// How the target is opened: for reading and writing, created if it is not
/// there and emptied if it is.
pub fn target_open_mode() -> (mode: OpenMode)
    ensures
        mode == (OpenMode { read: true, write: true, create: true, truncate: true }),
{
    OpenMode { read: true, write: true, create: true, truncate: true }
}

/// The block that is written to the start of every clone: `FILLER_LEN` bytes,
/// each of them `FILLER_BYTE`, which is not 0.
pub fn filler_block() -> (block: Vec<u8>)
    ensures
        block@.len() == FILLER_LEN,
        forall|i: int| 0 <= i < block@.len() ==> block@[i] == FILLER_BYTE && block@[i] != 0,
{
    let mut block: Vec<u8> = Vec::new();
    let mut written: usize = 0;
    while written < FILLER_LEN
        invariant
            written <= FILLER_LEN,
            block@.len() == written,
            forall|i: int| 0 <= i < block@.len() ==> block@[i] == FILLER_BYTE,
        decreases FILLER_LEN - written,
    {
        block.push(FILLER_BYTE);
        written = written + 1;
    }
    block
}

/// A clone operation succeeds exactly when all five of its steps do: each
/// success moves it one step on, and after the fifth it is finished.
pub proof fn lemma_success_moves_on(step: CloneStep)
    ensures
        step.after(StepOutcome::Succeeded) is Ok,
        step != CloneStep::Finished ==> step.after(StepOutcome::Succeeded)->Ok_0.position()
            == step.position() + 1,
        step.position() <= 5,
        step.position() == 5 <==> step == CloneStep::Finished,
{
}

/// A failed step ends the operation, whichever step it is, and only the clone
/// call can end it with `CloneUnsupported`.
pub proof fn lemma_failure_ends_operation(step: CloneStep, os_error: Option<i32>)
    requires
        step != CloneStep::Finished,
    ensures
        step.after(StepOutcome::Failed { os_error }) is Err,
        step.after(StepOutcome::Failed { os_error }) == Err::<CloneStep, CloneError>(
            CloneError::CloneUnsupported,
        ) <==> step == CloneStep::CloneExtents && means_unsupported(os_error),
{
}

} // verus!
