//! The traversal-and-dispatch core of a recursive directory compressor.
//!
//! A run discovers every regular file under a root directory, binds each one
//! to a fixed set of codecs as one composite task, executes the tasks under a
//! global concurrency cap, and tracks aggregate progress until every task has
//! been observed. The byte-level encoders are outside collaborators, called
//! behind small trusted wrappers; the scheduling rules, counters, output-path
//! derivation and per-codec bookkeeping are stated in contracts and verified.

pub mod codec;
pub mod compressor;
pub mod orchestrator;
pub mod progress;
pub mod task;
