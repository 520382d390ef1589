//! The ways in which a benchmark can fail.
//!
//! Nothing is retried: a retry would distort the time that is being measured.
//! The first failure of a run ends that run, and a failed run ends the
//! benchmark of the filesystem it ran on.

use crate::naming::{decimal, decimal_string};
use vstd::prelude::*;
use vstd::string::*;

verus! {

/// Why a single clone operation failed.
#[derive(Clone, Copy, Debug, PartialEq, Eq, Structural)]
pub enum CloneError {
    /// The filesystem or mount cannot clone: source and target lie on
    /// different devices, or the filesystem does not share extents. Every
    /// further operation on this filesystem would fail in the same way.
    CloneUnsupported,
    /// Opening, seeking, reading or writing a file failed.
    IoFailure,
}

/// Why a run, or the benchmark as a whole, failed.
#[derive(Clone, Copy, Debug, PartialEq, Eq, Structural)]
pub enum BenchmarkError {
    /// The filesystem under test cannot clone.
    CloneUnsupported,
    /// A file operation failed.
    IoFailure,
    /// An operation of a concurrent worker failed. The run reports this once
    /// the other workers have finished what they were given.
    WorkerFailure { worker: u32, cause: CloneError },
}

impl CloneError {
    /// What the error says, in words.
    pub open spec fn description_of(self) -> Seq<char> {
        match self {
            CloneError::CloneUnsupported => "the filesystem does not support reflinks"@,
            CloneError::IoFailure => "a file operation failed"@,
        }
    }

    /// What the error says, in words.
    pub fn description(&self) -> (text: &'static str)
        ensures
            text@ == self.description_of(),
    {
        match self {
            CloneError::CloneUnsupported => "the filesystem does not support reflinks",
            CloneError::IoFailure => "a file operation failed",
        }
    }
}

impl BenchmarkError {
    /// What the error says, in words. The failure of a worker names the
    /// worker and then says what went wrong.
    pub open spec fn description_of(self) -> Seq<char> {
        match self {
            BenchmarkError::CloneUnsupported => CloneError::CloneUnsupported.description_of(),
            BenchmarkError::IoFailure => CloneError::IoFailure.description_of(),
            BenchmarkError::WorkerFailure { worker, cause } => "worker "@ + decimal(worker as nat)
                + ": "@ + cause.description_of(),
        }
    }

    /// What the error says, in words.
    pub fn description(&self) -> (text: String)
        ensures
            text@ == self.description_of(),
    {
        match self {
            BenchmarkError::CloneUnsupported => String::from_str(
                CloneError::CloneUnsupported.description(),
            ),
            BenchmarkError::IoFailure => String::from_str(CloneError::IoFailure.description()),
            BenchmarkError::WorkerFailure { worker, cause } => {
                let mut text = String::from_str("worker ");
                text.append(decimal_string(*worker as u128).as_str());
                text.append(": ");
                text.append(cause.description());
                text
            },
        }
    }

    /// The error of a run whose operation failed with `cause` outside any
    /// worker.
    pub open spec fn of_clone(cause: CloneError) -> BenchmarkError {
        match cause {
            CloneError::CloneUnsupported => BenchmarkError::CloneUnsupported,
            CloneError::IoFailure => BenchmarkError::IoFailure,
        }
    }

    /// The failure of the clone operation that lies behind this error.
    pub open spec fn cause(self) -> CloneError {
        match self {
            BenchmarkError::CloneUnsupported => CloneError::CloneUnsupported,
            BenchmarkError::IoFailure => CloneError::IoFailure,
            BenchmarkError::WorkerFailure { worker, cause } => cause,
        }
    }

    /// Turns the failure of a clone operation into the error of the run that
    /// it belongs to.
    pub fn from_clone(cause: CloneError) -> (error: BenchmarkError)
        ensures
            error == BenchmarkError::of_clone(cause),
    {
        match cause {
            CloneError::CloneUnsupported => BenchmarkError::CloneUnsupported,
            CloneError::IoFailure => BenchmarkError::IoFailure,
        }
    }

    /// Whether the error says that the filesystem cannot clone at all, so
    /// that testing it further is pointless.
    pub fn is_clone_unsupported(&self) -> (unsupported: bool)
        ensures
            unsupported == (self.cause() == CloneError::CloneUnsupported),
    {
        match self {
            BenchmarkError::CloneUnsupported => true,
            BenchmarkError::IoFailure => false,
            BenchmarkError::WorkerFailure { worker, cause } => match cause {
                CloneError::CloneUnsupported => true,
                CloneError::IoFailure => false,
            },
        }
    }
}

} // verus!
