use vstd::prelude::*;

use crate::assoc::SubstanceMap;
use crate::realval::RealBits;

verus! {

/// Energy retention coefficients of a material for the three particle
/// motion modes.
#[derive(Debug, Clone, Copy, PartialEq, Eq, Structural)]
pub struct TonReflectance {
    pub delta_straight: RealBits,
    pub delta_parabolic: RealBits,
    pub delta_flow: RealBits,
}

/// A transformation rule over symbolic substance names, resolved against
/// the substance-name table at instantiation time.
pub enum SurfelRuleSpec {
    /// Moves a fraction of one substance into another.
    Transfer { from: String, to: String, factor: RealBits },
    /// Scales one substance by a factor each pass.
    Deteriorate { from: String, factor: RealBits },
    /// Adds a fixed amount of one substance each pass.
    Deposit { to: String, amount: RealBits },
}

/// Declarative description of the surfels sampled over a material.
pub struct SurfelSpec {
    pub name: String,
    pub description: String,
    pub reflectance: TonReflectance,
    /// Initial concentrations by substance name.
    pub initial: SubstanceMap,
    /// Deposition rates by substance name.
    pub deposit: SubstanceMap,
    pub rules: Vec<SurfelRuleSpec>,
}

} // verus!
