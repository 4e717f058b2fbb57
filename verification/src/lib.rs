//! Small verified studies of Rust's language constructs: closures and
//! caches built on them, iterator-style pipelines written as loops,
//! ownership wrappers, and a fan-out/fan-in registry of per-worker
//! counters whose aggregate is proved to equal the worker count.

pub mod closures;
pub mod iterators;
pub mod pointers;
pub mod workers;
