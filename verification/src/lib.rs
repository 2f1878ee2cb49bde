//! Verified core of a procedural-weathering simulation pipeline.
//!
//! The crate owns the logic of the pipeline: merging partial simulation
//! specifications into one resolved specification, validating and
//! instantiating that specification into a simulation plan with a stable
//! substance-index space, caching per-resolution surfel lookup tables, and
//! scheduling the iteration loop that alternates particle tracing with the
//! texture-synthesis effect pipeline.
//!
//! File loading, texture compositing and the particle-tracing engine are
//! outside collaborators: the functions here work on plain values that a
//! thin unverified shell reads for them and hand back decisions, filenames
//! and aligned parameter vectors with exact contracts.

pub mod realval;
pub mod args;
pub mod assoc;
pub mod bencher;
pub mod builder;
pub mod entity;
pub mod files;
pub mod runner;
pub mod specs;
pub mod strings;

pub use realval::RealBits;
