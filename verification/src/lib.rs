//! Verified core of a parallel frame-download and reassembly pipeline.
//!
//! The library covers the logic of the pipeline: partitioning a frame range
//! into balanced work intervals, the bounded-retry policy of the fetcher, the
//! progress counter shared by the workers, the naming of remote and local
//! frame resources, and the assembly manifest with its integrity accounting.
//! All I/O (network requests, file writes, spawning worker threads, invoking
//! the encoder) is left to the surrounding application, which feeds plain
//! values in and carries the decided actions out.

pub mod assembly;
pub mod coordinator;
pub mod counter;
pub mod fetch;
pub mod naming;
pub mod partition;
pub mod progress;
pub mod worker;
