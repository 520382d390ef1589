//! Writing the source file.
//!
//! The source file is the file that every clone is made from. It is created
//! once per filesystem, filled with random bytes one chunk of a megabyte at a
//! time, and flushed to disk before the first run starts. After that it is
//! only read.

use crate::benchmark::BenchmarkConfig;
use crate::error::BenchmarkError;
use rand::Rng;
use vstd::prelude::*;

verus! {

/// The length of one chunk of the source file: one megabyte.
pub const CHUNK_LEN: usize = 1_048_576;

/// What the writer of the source file asks its driver to do next.
#[derive(Clone, Copy, Debug, PartialEq, Eq, Structural)]
pub enum SourceAction {
    /// Create the file, or empty it if it is there.
    Create,
    /// Append a chunk of `len` random bytes.
    WriteChunk { len: usize },
    /// Flush the file to disk.
    Sync,
    /// The file is complete.
    Done,
    /// A file operation has failed: report the error and write no more.
    Abort { error: BenchmarkError },
}

/// Where the writing of a source file of `chunks` chunks stands.
pub struct SourceState {
    pub chunks: nat,
    pub created: bool,
    pub written: nat,
    pub synced: bool,
    pub failed: bool,
}

impl SourceState {
    /// Whether no more chunks have been written than the file has.
    pub open spec fn valid(self) -> bool {
        self.written <= self.chunks <= u64::MAX
    }

    /// The state before the file is created: a file of `file_size_mb`
    /// megabytes has that many chunks.
    pub open spec fn begin(config: BenchmarkConfig) -> SourceState {
        SourceState {
            chunks: config.file_size_mb as nat,
            created: false,
            written: 0,
            synced: false,
            failed: false,
        }
    }

    /// What the driver has to do in this state: create the file, write its
    /// chunks, flush it.
    pub open spec fn action(self) -> SourceAction {
        if self.failed {
            SourceAction::Abort { error: BenchmarkError::IoFailure }
        } else if !self.created {
            SourceAction::Create
        } else if self.written < self.chunks {
            SourceAction::WriteChunk { len: CHUNK_LEN }
        } else if !self.synced {
            SourceAction::Sync
        } else {
            SourceAction::Done
        }
    }

    /// The state after the file operation that was due has succeeded or
    /// failed. Any failure ends the writing.
    pub open spec fn step(self, succeeded: bool) -> SourceState {
        match self.action() {
            SourceAction::Create => if succeeded {
                SourceState { created: true, ..self }
            } else {
                SourceState { failed: true, ..self }
            },
            SourceAction::WriteChunk { len } => if succeeded {
                SourceState { written: self.written + 1, ..self }
            } else {
                SourceState { failed: true, ..self }
            },
            SourceAction::Sync => if succeeded {
                SourceState { synced: true, ..self }
            } else {
                SourceState { failed: true, ..self }
            },
            _ => self,
        }
    }

    /// The state after `count` file operations in a row have succeeded.
    pub open spec fn after_successes(self, count: nat) -> SourceState
        decreases count,
    {
        if count == 0 {
            self
        } else {
            self.after_successes((count - 1) as nat).step(true)
        }
    }

    /// The number of bytes written so far.
    pub open spec fn bytes_written(self) -> nat {
        self.written * CHUNK_LEN as nat
    }
}

/// When no file operation fails, the file is created, then gets one chunk
/// after another, then is flushed: after `count` successes, `count - 1` chunks
/// have been written, until all are there.
pub proof fn lemma_source_written_in_order(config: BenchmarkConfig, count: nat)
    requires
        count <= config.file_size_mb + 2,
    ensures
        ({
            let state = SourceState::begin(config).after_successes(count);
            &&& state.valid()
            &&& state.chunks == config.file_size_mb
            &&& !state.failed
            &&& state.created == (count >= 1)
            &&& state.synced == (count == config.file_size_mb + 2)
            &&& count >= 1 && !state.synced ==> state.written == count - 1
            &&& count == 0 ==> state.written == 0
            &&& state.synced ==> state.written == config.file_size_mb
        }),
    decreases count,
{
    if count > 0 {
        lemma_source_written_in_order(config, (count - 1) as nat);
    }
}

/// A source file whose writing succeeds holds exactly as many megabytes as
/// the configuration asks for.
pub proof fn lemma_source_has_full_size(config: BenchmarkConfig)
    ensures
        SourceState::begin(config).after_successes((config.file_size_mb + 2) as nat).action()
            == SourceAction::Done,
        SourceState::begin(config).after_successes(
            (config.file_size_mb + 2) as nat,
        ).bytes_written() == config.file_size_bytes_of(),
{
    lemma_source_written_in_order(config, (config.file_size_mb + 2) as nat);
}

/// The writer of one source file.
pub struct SourceWriter {
    chunks: u64,
    created: bool,
    written: u64,
    synced: bool,
    failed: bool,
}

impl View for SourceWriter {
    type V = SourceState;

    closed spec fn view(&self) -> SourceState {
        SourceState {
            chunks: self.chunks as nat,
            created: self.created,
            written: self.written as nat,
            synced: self.synced,
            failed: self.failed,
        }
    }
}

impl SourceWriter {
    #[verifier::type_invariant]
    spec fn within_size(self) -> bool {
        self.written <= self.chunks
    }

    /// The writer of the source file for `config`, before the file is
    /// created.
    pub fn new(config: BenchmarkConfig) -> (writer: SourceWriter)
        ensures
            writer@ == SourceState::begin(config),
            writer@.valid(),
    {
        SourceWriter {
            chunks: config.file_size_mb,
            created: false,
            written: 0,
            synced: false,
            failed: false,
        }
    }

    /// What the driver has to do next.
    pub fn next_action(&self) -> (action: SourceAction)
        ensures
            action == self@.action(),
    {
        if self.failed {
            SourceAction::Abort { error: BenchmarkError::IoFailure }
        } else if !self.created {
            SourceAction::Create
        } else if self.written < self.chunks {
            SourceAction::WriteChunk { len: CHUNK_LEN }
        } else if !self.synced {
            SourceAction::Sync
        } else {
            SourceAction::Done
        }
    }

    /// Records whether the file operation that was due has succeeded.
    pub fn record(&mut self, succeeded: bool)
        ensures
            final(self)@ == old(self)@.step(succeeded),
            final(self)@.valid(),
    {
        proof {
            use_type_invariant(&*self);
        }
        if self.failed {
        } else if !self.created {
            if succeeded {
                self.created = true;
            } else {
                self.failed = true;
            }
        } else if self.written < self.chunks {
            if succeeded {
                self.written = self.written + 1;
            } else {
                self.failed = true;
            }
        } else if !self.synced {
            if succeeded {
                self.synced = true;
            } else {
                self.failed = true;
            }
        }
    }

    /// The number of bytes written so far.
    pub fn bytes_written(&self) -> (bytes: u128)
        ensures
            bytes == self@.bytes_written(),
    {
        proof {
            assert(self.written * CHUNK_LEN <= 0xffff_ffff_ffff_ffff * 1_048_576)
                by (nonlinear_arith)
                requires
                    self.written <= 0xffff_ffff_ffff_ffff,
                    CHUNK_LEN == 1_048_576,
            ;
        }
        self.written as u128 * CHUNK_LEN as u128
    }
}

/// The random number generator of the current thread, `rand::rngs::ThreadRng`.
/// Nothing is known of what it holds.
#[verifier::external_type_specification]
#[verifier::external_body]
pub struct ExThreadRng(rand::rngs::ThreadRng);

/// `rand::thread_rng` hands out the generator of the current thread. Nothing
/// is claimed of it.
pub assume_specification[ rand::thread_rng ]() -> (rng: rand::rngs::ThreadRng)
;

/// Fills `chunk` with bytes from `rng`, by `rand::Rng::fill`. Which bytes
/// these are is left open; all that is claimed is that the chunk keeps its
/// length.
#[verifier::external_body]
fn fill_random(rng: &mut rand::rngs::ThreadRng, chunk: &mut Vec<u8>)
    ensures
        final(chunk)@.len() == old(chunk)@.len(),
{
    rng.fill(&mut chunk[..]);
}

/// A chunk of random bytes for the source file.
pub fn random_chunk() -> (chunk: Vec<u8>)
    ensures
        chunk@.len() == CHUNK_LEN,
{
    let mut rng = rand::thread_rng();
    let mut chunk: Vec<u8> = vec![0u8; CHUNK_LEN];
    fill_random(&mut rng, &mut chunk);
    chunk
}

} // verus!
