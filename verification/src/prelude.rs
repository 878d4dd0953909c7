//! All the extension traits, for a single import.

pub use crate::ext::{ChunkExt, ContextExt, FunctionExt, ScopeExt};
