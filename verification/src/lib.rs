//! Planning and bookkeeping for a reflink benchmark.
//!
//! The benchmark clones one source file many times with the filesystem's
//! copy-on-write clone call, overwrites the first block of every clone, and
//! times the work once sequentially and once per concurrency level. This
//! crate holds everything about that benchmark that can be decided without
//! touching the disk: how work is split between workers, how target files are
//! named, how a run reacts to the outcome of each operation, and how the
//! measured times turn into rates and contention ratios. Each item carries a
//! contract that is checked by Verus.
//!
//! A driver performs the file operations that the state machines here ask for
//! and hands their outcomes back. The state machines share one shape: a
//! function that says what is to be done next, and one that records how it
//! went. What they do is laid down on a plain model of their state, which is
//! the view of the machine.
//!
//! - [`clone_op`]: the steps of one clone operation and what its failures mean
//! - [`runner`]: a run over a range of operations, one after another
//! - [`partition`]: splitting the operations between workers
//! - [`concurrent`]: a run spread over concurrent workers
//! - [`sweep`]: the sweep over the concurrency levels
//! - [`source`]: writing the source file
//! - [`benchmark`]: the stages of a benchmark and its result
//! - [`timing`]: measured times, rates and ratios as exact fractions
//! - [`naming`]: the names of the files that the runs create
//! - [`error`]: the ways in which a benchmark can fail
//! - [`filesystem`]: the filesystems under test and how one is made ready
//! - [`results`]: comparing the results of the filesystems

pub mod benchmark;
pub mod clone_op;
pub mod concurrent;
pub mod error;
pub mod filesystem;
pub mod naming;
pub mod partition;
pub mod results;
pub mod runner;
pub mod source;
pub mod sweep;
pub mod timing;
