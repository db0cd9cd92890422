//! Bounded concurrent gateway around an external graph-rendering engine.
//!
//! The library holds the verified core: the admission-control permit pool,
//! the per-request lifecycle state machine with its deadline handling, the
//! classification of an engine run's outcome, and the mapping from requested
//! output kinds to engine arguments and content types.  The surrounding
//! process plumbing (HTTP, signals, the actual child process) lives outside.

pub mod concurrency;
pub mod deadline;
pub mod error;
pub mod gateway;
pub mod format;
pub mod pool;
pub mod supervisor;
