//! A cooperative, single-threaded runtime core for network servers.
//!
//! The crate holds the decisions of the runtime as plain state machines:
//! the task scheduler, the registry that maps descriptors to wakeups, and
//! the non-blocking socket operations. Each takes the outcome of the
//! operating-system work as a value and says what to do next, so the
//! embedding program only performs system calls and runs threads.

pub mod error;
pub mod executor;
pub mod reactor;
pub mod session;
pub mod tcp_listener;
