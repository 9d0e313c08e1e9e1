//! A minimal TCP request server library: admission control over a bounded
//! worker pool, a fixed diagnostic response for each connection, and a
//! resilient startup pipeline (file logging with console fallback, bind
//! failure with a nonzero exit code).
//!
//! The library holds the decision logic and the text it produces; the thin
//! binary around it performs the socket, thread-pool and logging calls.

pub mod admission;
pub mod decimal;
pub mod pool;
pub mod response;
pub mod startup;
