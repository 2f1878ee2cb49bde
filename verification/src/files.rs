//! Search-path resolution and filename helpers.

pub mod resolv;
pub mod timestamp;

pub use resolv::{ResolveError, Resolver};
pub use timestamp::fs_timestamp;
