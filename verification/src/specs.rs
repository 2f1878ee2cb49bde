//! The declarative data model of a simulation: specification fragments
//! and the pieces they are assembled from.

pub mod bench;
pub mod effect;
pub mod sim;
pub mod source;
pub mod surfel;
pub mod transport;

pub use bench::BenchSpec;
pub use effect::{Blend, EffectSpec, Stop, SurfelLookup};
pub use sim::{MaterialMap, SimulationSpec};
pub use source::{TonSourceSpec, Vector3};
pub use surfel::{SurfelRuleSpec, SurfelSpec, TonReflectance};
pub use transport::Transport;
