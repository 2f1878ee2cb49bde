use vstd::prelude::*;

use crate::assoc::SubstanceMap;
use crate::realval::RealBits;

verus! {

/// A fixed direction in world space.
#[derive(Debug, Clone, Copy, PartialEq, Eq, Structural)]
pub struct Vector3 {
    pub x: RealBits,
    pub y: RealBits,
    pub z: RealBits,
}

/// Declarative description of a particle source.
pub struct TonSourceSpec {
    pub name: String,
    pub description: String,
    /// Path of the emission mesh scene.
    pub mesh: String,
    pub emission_count: usize,
    pub diffuse: bool,
    pub p_straight: RealBits,
    pub p_parabolic: RealBits,
    pub p_flow: RealBits,
    /// Initial concentrations by substance name.
    pub initial: SubstanceMap,
    /// How much material a bouncing particle absorbs from surfels, by
    /// substance name.
    pub absorb: SubstanceMap,
    pub interaction_radius: RealBits,
    pub parabola_height: RealBits,
    pub flow_distance: RealBits,
    /// If set, the direction of flow projected onto triangles; if left
    /// out, the incoming direction is projected.
    pub flow_direction: Option<Vector3>,
}

/// Whether a source emits diffusely when the spec does not say: it does
/// not.
pub fn is_diffuse_default() -> (r: bool)
    ensures
        r == false,
{
    false
}

} // verus!
