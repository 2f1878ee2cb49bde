use vstd::prelude::*;

use crate::realval::{RealBits, REAL_ONE};
use crate::strings::clone_opt_string;

verus! {

/// Technique for looking up the surfels that correspond to a texel:
/// either a fixed count of nearest surfels or all within some world-space
/// radius.
#[derive(Debug, Clone, Copy, PartialEq, Eq, Structural)]
pub enum SurfelLookup {
    Nearest { count: usize },
    Within { within: RealBits },
}

/// A texture sample at a specified concentration. The cenith is the
/// concentration at which this sample has maximum influence.
pub struct Stop {
    /// Path to the texture sample.
    pub sample: Option<String>,
    /// The concentration where this texture has maximum influence.
    pub cenith: RealBits,
}

impl Clone for Stop {
    fn clone(&self) -> (r: Self)
        ensures
            r == *self,
    {
        Stop { sample: clone_opt_string(&self.sample), cenith: self.cenith }
    }
}

/// One channel of a layer effect: an ordered stop list blended under a
/// per-texel concentration guide.
pub struct Blend {
    /// Output width override; with no height, also used for the height.
    pub width: Option<usize>,
    /// Output height override; with no width, also used for the width.
    pub height: Option<usize>,
    /// Texture samples at specified concentrations. Unless a stop stands
    /// at concentration zero, the original texture is implicitly blended
    /// in there.
    pub stops: Vec<Stop>,
    /// Multiplier for blending the newly created texture together with
    /// the original texture: zero leaves the original intact, one
    /// replaces it.
    pub influence: RealBits,
    /// Output path pattern; `{entity}` `{iteration}` `{id}` `{substance}`
    /// `{datetime}` are substituted.
    pub tex_pattern: String,
}

/// A copy of a stop list, equal to the original.
pub fn clone_stops(v: &Vec<Stop>) -> (r: Vec<Stop>)
    ensures
        r@ == v@,
{
    let mut out: Vec<Stop> = Vec::new();
    let n = v.len();
    let mut i: usize = 0;
    while i < n
        invariant
            i <= n,
            n == v@.len(),
            out@ =~= v@.take(i as int),
        decreases n - i,
    {
        out.push(v[i].clone());
        proof {
            assert(out@ =~= v@.take(i + 1));
        }
        i += 1;
    }
    proof {
        assert(v@.take(n as int) =~= v@);
    }
    out
}

impl Clone for Blend {
    fn clone(&self) -> (r: Self)
        ensures
            r.width == self.width,
            r.height == self.height,
            r.stops@ == self.stops@,
            r.influence == self.influence,
            r.tex_pattern == self.tex_pattern,
    {
        Blend {
            width: self.width,
            height: self.height,
            stops: clone_stops(&self.stops),
            influence: self.influence,
            tex_pattern: self.tex_pattern.clone(),
        }
    }
}

/// One step of the synthesis pipeline.
pub enum EffectSpec {
    /// For every substance and entity, writes a concentration-to-color
    /// texture, and optionally a scene referencing the textures.
    Density {
        width: usize,
        height: usize,
        surfel_lookup: SurfelLookup,
        island_bleed: usize,
        tex_pattern: String,
        obj_pattern: Option<String>,
        mtl_pattern: Option<String>,
    },
    /// Writes the scene with the effects applied before this declaration.
    Export { obj_pattern: Option<String>, mtl_pattern: Option<String> },
    /// Uses the concentration of the named substance to derive new
    /// channel textures for all entities whose material name matches the
    /// list; an empty list or `_` matches all.
    Layer {
        materials: Vec<String>,
        substance: String,
        surfel_lookup: SurfelLookup,
        island_bleed: usize,
        normal: Option<Blend>,
        displacement: Option<Blend>,
        albedo: Option<Blend>,
        metallicity: Option<Blend>,
        roughness: Option<Blend>,
    },
    /// Writes the current surface samples as a point-cloud mesh file.
    DumpSurfels { obj_pattern: String },
}

/// Island-bleed radius used when a spec does not give one.
pub fn default_bleed() -> (r: usize)
    ensures
        r == 2,
{
    2
}

/// Influence factor used when a spec does not give one: one.
pub fn default_influence() -> (r: RealBits)
    ensures
        r == REAL_ONE,
{
    0x3f80_0000
}

/// Lookup policy used when a spec does not give one: the six nearest.
pub fn default_surfel_lookup() -> (r: SurfelLookup)
    ensures
        r == (SurfelLookup::Nearest { count: 6 }),
{
    SurfelLookup::Nearest { count: 6 }
}

} // verus!
