//! Asynchronous Rust functions for Lua code that runs in `rlua`, and asynchronous calls of Lua code
//! from Rust.
//!
//! A Lua function that is called asynchronously runs in a coroutine of its own. When it calls an
//! asynchronous Rust function whose future is pending, the coroutine yields, with no values, and the
//! call is pending too. Polling the call resumes the coroutine, which polls the future again. So
//! the Lua code itself must not use coroutines.
//!
//! The crate holds the decisions: when arguments are handed over, what Lua is told after a poll,
//! when a call is pending, done or failed. It does not depend on how futures are polled or how Rust
//! values are converted to and from Lua values: functions that need to know this take it as a
//! parameter, or, for the arguments of an asynchronous function, from a trait.

pub mod args;
pub mod ext;
pub mod fut_gen;
pub mod helper;
pub mod laws;
pub mod lua;
pub mod operations;
pub mod poll;
pub mod poller;
pub mod prelude;
pub mod reply;
pub mod thread;

pub use crate::ext::{ChunkExt, ContextExt, FunctionExt, ScopeExt};
