use vstd::prelude::*;

verus! {

/// Substance transport model of the particle simulation.
#[derive(Debug, Clone, Copy, PartialEq, Eq, Structural)]
pub enum Transport {
    Classic,
    Consistent,
    Conserving,
    Differential,
}

} // verus!
