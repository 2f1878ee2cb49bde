//! The simulation runner: the iteration state machine, the surfel-table
//! cache and the planning of the synthesis effects.


pub mod effects;
pub mod runner;
pub mod surfel_table_cache;

pub use runner::{IterationStep, SimulationRunner};
pub use surfel_table_cache::{CacheError, CacheKey, SurfelTableCache};
