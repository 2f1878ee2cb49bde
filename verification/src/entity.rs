//! Plain model of a loaded scene entity: its name and the material
//! fields the pipeline reads. The mesh itself stays with the outside
//! loader; the pipeline only decides over names and texture paths.

use vstd::prelude::*;

use crate::strings::clone_opt_string;

verus! {

/// The material fields the pipeline reads and rewrites: the material's
/// name and its per-channel texture paths.
pub struct MaterialDesc {
    pub name: String,
    pub diffuse_color_map: Option<String>,
    pub normal_map: Option<String>,
    pub displacement_map: Option<String>,
    pub metallic_map: Option<String>,
    pub roughness_map: Option<String>,
}

impl Clone for MaterialDesc {
    fn clone(&self) -> (r: Self)
        ensures
            r == *self,
    {
        MaterialDesc {
            name: self.name.clone(),
            diffuse_color_map: clone_opt_string(&self.diffuse_color_map),
            normal_map: clone_opt_string(&self.normal_map),
            displacement_map: clone_opt_string(&self.displacement_map),
            metallic_map: clone_opt_string(&self.metallic_map),
            roughness_map: clone_opt_string(&self.roughness_map),
        }
    }
}

/// A loaded mesh-plus-material entity, as the pipeline sees it.
pub struct EntityDesc {
    pub name: String,
    pub material: MaterialDesc,
}

impl Clone for EntityDesc {
    fn clone(&self) -> (r: Self)
        ensures
            r == *self,
    {
        EntityDesc { name: self.name.clone(), material: self.material.clone() }
    }
}

/// A copy of an entity list, equal to the original. Effect passes run on
/// such a fresh copy of the baseline, so their output never leaks into
/// the next iteration's starting material state.
pub fn clone_entities(v: &Vec<EntityDesc>) -> (r: Vec<EntityDesc>)
    ensures
        r@ == v@,
{
    let mut out: Vec<EntityDesc> = Vec::new();
    let n = v.len();
    let mut i: usize = 0;
    while i < n
        invariant
            i <= n,
            n == v@.len(),
            out@ =~= v@.take(i as int),
        decreases n - i,
    {
        out.push(v[i].clone());
        proof {
            assert(out@ =~= v@.take(i + 1));
        }
        i += 1;
    }
    proof {
        assert(v@.take(n as int) =~= v@);
    }
    out
}

} // verus!
