//! Building blocks of a thread-per-core runtime: the decisions of a
//! readiness-driven socket reactor, and a value sharded one cell per worker.
//!
//! The library holds the rules and leaves the system calls, the polling
//! context and the worker threads to its caller: every function here takes
//! what an outside step produced and says what has to happen next.

pub mod net;
pub mod shard;
