use vstd::prelude::*;

use crate::builder::err::Error;
use crate::builder::instantiate::{index_of_name, position_of};
use crate::entity::{EntityDesc, MaterialDesc};
use crate::realval::{real_is_zero, RealBits, REAL_POS_ZERO};
use crate::specs::effect::{Blend, EffectSpec, Stop, SurfelLookup};
use crate::strings::{
    clone_opt_string, dec_seq, dec_string_u32, dec_string_usize, replace_all, replace_seq, str_eq,
    views_of,
};

verus! {

/// An output path pattern with the `{iteration}`, `{id}`, `{entity}`,
/// `{substance}` and `{datetime}` tokens textually substituted, in that
/// order.
pub open spec fn spec_substitute(
    pattern: Seq<char>,
    iteration: int,
    id: int,
    entity: Seq<char>,
    substance: Seq<char>,
    datetime: Seq<char>,
) -> Seq<char> {
    replace_seq(
        replace_seq(
            replace_seq(
                replace_seq(
                    replace_seq(pattern, "{iteration}"@, dec_seq(iteration)),
                    "{id}"@,
                    dec_seq(id),
                ),
                "{entity}"@,
                entity,
            ),
            "{substance}"@,
            substance,
        ),
        "{datetime}"@,
        datetime,
    )
}

/// Substitutes every filename token of an output pattern.
pub fn substitute_pattern(
    pattern: &str,
    iteration: u32,
    id: usize,
    entity: &str,
    substance: &str,
    datetime: &str,
) -> (r: String)
    ensures
        r@ == spec_substitute(
            pattern@,
            iteration as int,
            id as int,
            entity@,
            substance@,
            datetime@,
        ),
{
    proof {
        reveal_strlit("{iteration}");
        reveal_strlit("{id}");
        reveal_strlit("{entity}");
        reveal_strlit("{substance}");
        reveal_strlit("{datetime}");
    }
    let s1 = replace_all(pattern, "{iteration}", dec_string_u32(iteration).as_str());
    let s2 = replace_all(s1.as_str(), "{id}", dec_string_usize(id).as_str());
    let s3 = replace_all(s2.as_str(), "{entity}", entity);
    let s4 = replace_all(s3.as_str(), "{substance}", substance);
    replace_all(s4.as_str(), "{datetime}", datetime)
}

/// An export path pattern with the `{iteration}`, `{substance}` and
/// `{datetime}` tokens substituted, in that order.
pub open spec fn spec_substitute_export(
    pattern: Seq<char>,
    iteration: int,
    substance: Seq<char>,
    datetime: Seq<char>,
) -> Seq<char> {
    replace_seq(
        replace_seq(replace_seq(pattern, "{iteration}"@, dec_seq(iteration)), "{substance}"@,
            substance),
        "{datetime}"@,
        datetime,
    )
}

/// Substitutes the filename tokens an exported scene path carries.
pub fn substitute_export_pattern(
    pattern: &str,
    iteration: u32,
    substance: &str,
    datetime: &str,
) -> (r: String)
    ensures
        r@ == spec_substitute_export(pattern@, iteration as int, substance@, datetime@),
{
    proof {
        reveal_strlit("{iteration}");
        reveal_strlit("{substance}");
        reveal_strlit("{datetime}");
    }
    let s1 = replace_all(pattern, "{iteration}", dec_string_u32(iteration).as_str());
    let s2 = replace_all(s1.as_str(), "{substance}", substance);
    replace_all(s2.as_str(), "{datetime}", datetime)
}

/// A surfel-dump path pattern with the `{iteration}` and `{datetime}`
/// tokens substituted.
pub open spec fn spec_substitute_surfel_obj(
    pattern: Seq<char>,
    iteration: int,
    datetime: Seq<char>,
) -> Seq<char> {
    replace_seq(replace_seq(pattern, "{iteration}"@, dec_seq(iteration)), "{datetime}"@, datetime)
}

/// Substitutes the filename tokens a surfel-dump path carries.
pub fn substitute_surfel_obj_pattern(pattern: &str, iteration: u32, datetime: &str) -> (r: String)
    ensures
        r@ == spec_substitute_surfel_obj(pattern@, iteration as int, datetime@),
{
    proof {
        reveal_strlit("{iteration}");
        reveal_strlit("{datetime}");
    }
    let s1 = replace_all(pattern, "{iteration}", dec_string_u32(iteration).as_str());
    replace_all(s1.as_str(), "{datetime}", datetime)
}

/// The mesh and material filenames of one scene export, or nothing
/// where no export is configured. Giving only one of the two patterns
/// is not supported and reported as such.
pub fn export_filenames(
    obj_pattern: &Option<String>,
    mtl_pattern: &Option<String>,
    iteration: u32,
    substance: &str,
    datetime: &str,
) -> (r: Result<Option<(String, String)>, crate::builder::err::Error>)
    ensures
        match (*obj_pattern, *mtl_pattern) {
            (Some(op), Some(mp)) => match r {
                Ok(Some((obj, mtl))) => obj@ == spec_substitute_export(
                    op@,
                    iteration as int,
                    substance@,
                    datetime@,
                ) && mtl@ == spec_substitute_export(
                    mp@,
                    iteration as int,
                    substance@,
                    datetime@,
                ),
                _ => false,
            },
            (None, None) => r == Ok::<Option<(String, String)>, crate::builder::err::Error>(None),
            _ => r == Err::<Option<(String, String)>, crate::builder::err::Error>(
                crate::builder::err::Error::ExportPatternIncomplete,
            ),
        },
{
    match (obj_pattern, mtl_pattern) {
        (Some(op), Some(mp)) => {
            let obj = substitute_export_pattern(op.as_str(), iteration, substance, datetime);
            let mtl = substitute_export_pattern(mp.as_str(), iteration, substance, datetime);
            Ok(Some((obj, mtl)))
        },
        (None, None) => Ok(None),
        _ => Err(crate::builder::err::Error::ExportPatternIncomplete),
    }
}

/// Whether a layer effect applies to an entity: the material allow-list
/// is empty, or names `_`, or names the entity's material.
pub open spec fn spec_entity_applicable(entity: EntityDesc, materials: Seq<String>) -> bool {
    materials.len() == 0 || exists|i: int|
        0 <= i < materials.len() && (materials[i]@ == "_"@ || materials[i]@
            == entity.material.name@)
}

/// Decides whether a layer effect applies to an entity.
pub fn is_entity_applicable_for_materials(entity: &EntityDesc, materials: &Vec<String>) -> (r:
    bool)
    ensures
        r == spec_entity_applicable(*entity, materials@),
{
    let n = materials.len();
    if n == 0 {
        return true;
    }
    let mut i: usize = 0;
    while i < n
        invariant
            i <= n,
            n == materials@.len(),
            forall|j: int|
                0 <= j < i ==> materials@[j]@ != "_"@ && materials@[j]@
                    != entity.material.name@,
        decreases n - i,
    {
        if str_eq(materials[i].as_str(), "_") || str_eq(
            materials[i].as_str(),
            entity.material.name.as_str(),
        ) {
            return true;
        }
        i += 1;
    }
    false
}

/// One density texture to synthesize: for a substance and an entity, the
/// output resolution and island bleed, the substituted output filename
/// and the name of the replacement material that references it.
pub struct DensityJob {
    pub substance_idx: usize,
    pub entity_idx: usize,
    pub width: usize,
    pub height: usize,
    pub island_bleed: usize,
    pub tex_filename: String,
    pub material_name: String,
}

/// The name of the material a density texture is attached to.
pub open spec fn spec_density_material_name(
    substance: Seq<char>,
    entity_idx: int,
    entity_name: Seq<char>,
) -> Seq<char> {
    substance + "-density-"@ + dec_seq(entity_idx) + "-"@ + entity_name
}

fn density_material_name(substance: &str, entity_idx: usize, entity_name: &str) -> (r: String)
    ensures
        r@ == spec_density_material_name(substance@, entity_idx as int, entity_name@),
{
    let mut out = substance.to_owned();
    out.append("-density-");
    out.append(dec_string_usize(entity_idx).as_str());
    out.append("-");
    out.append(entity_name);
    out
}

/// How the density jobs of one synthesis pass relate to their inputs:
/// for every substance, for every entity, one texture, substance-major
/// in substance-table order, each filename with the pattern's tokens
/// substituted.
pub open spec fn density_jobs_ok(
    jobs: Seq<DensityJob>,
    entities: Seq<EntityDesc>,
    substance_names: Seq<String>,
    width: usize,
    height: usize,
    island_bleed: usize,
    iteration: int,
    datetime: Seq<char>,
    tex_pattern: Seq<char>,
) -> bool {
    &&& jobs.len() == substance_names.len() * entities.len()
    &&& forall|s: int, e: int|
        0 <= s < substance_names.len() && 0 <= e < entities.len() ==> {
            let job = #[trigger] jobs[s * entities.len() + e];
            &&& job.substance_idx == s
            &&& job.entity_idx == e
            &&& job.width == width
            &&& job.height == height
            &&& job.island_bleed == island_bleed
            &&& job.tex_filename@ == spec_substitute(
                tex_pattern,
                iteration,
                e,
                entities[e].name@,
                substance_names[s]@,
                datetime,
            )
            &&& job.material_name@ == spec_density_material_name(
                substance_names[s]@,
                e,
                entities[e].name@,
            )
        }
}

/// The density jobs of one synthesis pass: for every substance, for
/// every entity, one texture, substance-major in substance-table order.
/// Each filename substitutes the pattern's tokens for that entity and
/// substance.
pub fn density_jobs(
    entities: &Vec<EntityDesc>,
    substance_names: &Vec<String>,
    width: usize,
    height: usize,
    island_bleed: usize,
    iteration: u32,
    datetime: &str,
    tex_pattern: &str,
) -> (r: Vec<DensityJob>)
    requires
        substance_names@.len() * entities@.len() <= usize::MAX,
    ensures
        density_jobs_ok(
            r@,
            entities@,
            substance_names@,
            width,
            height,
            island_bleed,
            iteration as int,
            datetime@,
            tex_pattern@,
        ),
{
    let mut out: Vec<DensityJob> = Vec::new();
    let n_sub = substance_names.len();
    let n_ent = entities.len();
    let mut s: usize = 0;
    while s < n_sub
        invariant
            s <= n_sub,
            n_sub == substance_names@.len(),
            n_ent == entities@.len(),
            n_sub * n_ent <= usize::MAX,
            out@.len() == s * n_ent,
            forall|s2: int, e2: int|
                0 <= s2 < s && 0 <= e2 < n_ent ==> {
                    let job = #[trigger] out@[s2 * n_ent + e2];
                    &&& job.substance_idx == s2
                    &&& job.entity_idx == e2
                    &&& job.width == width
                    &&& job.height == height
                    &&& job.island_bleed == island_bleed
                    &&& job.tex_filename@ == spec_substitute(
                        tex_pattern@,
                        iteration as int,
                        e2,
                        entities@[e2].name@,
                        substance_names@[s2]@,
                        datetime@,
                    )
                    &&& job.material_name@ == spec_density_material_name(
                        substance_names@[s2]@,
                        e2,
                        entities@[e2].name@,
                    )
                },
        decreases n_sub - s,
    {
        proof {
            assert((s + 1) * n_ent <= n_sub * n_ent) by (nonlinear_arith)
                requires
                    s < n_sub,
                    0 <= n_ent,
            ;
            assert(s * n_ent + n_ent == (s + 1) * n_ent) by (nonlinear_arith);
        }
        let mut e: usize = 0;
        while e < n_ent
            invariant
                e <= n_ent,
                s < n_sub,
                n_sub == substance_names@.len(),
                n_ent == entities@.len(),
                n_sub * n_ent <= usize::MAX,
                (s + 1) * n_ent <= n_sub * n_ent,
                s * n_ent + n_ent == (s + 1) * n_ent,
                out@.len() == s * n_ent + e,
                forall|s2: int, e2: int|
                    (0 <= s2 < s && 0 <= e2 < n_ent) || (s2 == s && 0 <= e2 < e) ==> {
                        let job = #[trigger] out@[s2 * n_ent + e2];
                        &&& job.substance_idx == s2
                        &&& job.entity_idx == e2
                        &&& job.width == width
                        &&& job.height == height
                        &&& job.island_bleed == island_bleed
                        &&& job.tex_filename@ == spec_substitute(
                            tex_pattern@,
                            iteration as int,
                            e2,
                            entities@[e2].name@,
                            substance_names@[s2]@,
                            datetime@,
                        )
                        &&& job.material_name@ == spec_density_material_name(
                            substance_names@[s2]@,
                            e2,
                            entities@[e2].name@,
                        )
                    },
            decreases n_ent - e,
        {
            proof {
                assert(s * n_ent + e < (s + 1) * n_ent <= n_sub * n_ent);
            }
            let tex_filename = substitute_pattern(
                tex_pattern,
                iteration,
                e,
                entities[e].name.as_str(),
                substance_names[s].as_str(),
                datetime,
            );
            let material_name = density_material_name(
                substance_names[s].as_str(),
                e,
                entities[e].name.as_str(),
            );
            let ghost pre = out@;
            out.push(
                DensityJob {
                    substance_idx: s,
                    entity_idx: e,
                    width,
                    height,
                    island_bleed,
                    tex_filename,
                    material_name,
                },
            );
            proof {
                assert forall|s2: int, e2: int|
                    (0 <= s2 < s && 0 <= e2 < n_ent) || (s2 == s && 0 <= e2 < e + 1) implies {
                    let job = #[trigger] out@[s2 * n_ent + e2];
                    &&& job.substance_idx == s2
                    &&& job.entity_idx == e2
                    &&& job.width == width
                    &&& job.height == height
                    &&& job.island_bleed == island_bleed
                    &&& job.tex_filename@ == spec_substitute(
                        tex_pattern@,
                        iteration as int,
                        e2,
                        entities@[e2].name@,
                        substance_names@[s2]@,
                        datetime@,
                    )
                    &&& job.material_name@ == spec_density_material_name(
                        substance_names@[s2]@,
                        e2,
                        entities@[e2].name@,
                    )
                } by {
                    if s2 == s && e2 == e {
                        assert(s2 * n_ent + e2 == pre.len());
                    } else {
                        assert(0 <= s2 * n_ent + e2 < pre.len()) by (nonlinear_arith)
                            requires
                                (0 <= s2 < s && 0 <= e2 < n_ent) || (s2 == s && 0 <= e2 < e),
                                0 <= e < n_ent,
                                0 <= s,
                                pre.len() == s * n_ent + e,
                        ;
                        assert(out@[s2 * n_ent + e2] == pre[s2 * n_ent + e2]);
                        assert((0 <= s2 < s && 0 <= e2 < n_ent) || (s2 == s && 0 <= e2 < e));
                    }
                }
            }
            e += 1;
        }
        s += 1;
    }
    proof {
        assert(out@.len() == n_sub * n_ent);
    }
    out
}

/// The cache keys a density effect queries: one per entity, all at the
/// effect's resolution, neighbor count and island bleed. The runner
/// prepares every one of them before the first synthesis pass.
pub fn density_table_keys(
    width: usize,
    height: usize,
    surfel_lookup: SurfelLookup,
    island_bleed: usize,
    n_entities: usize,
) -> (r: Result<Vec<crate::runner::surfel_table_cache::CacheKey>, crate::runner::surfel_table_cache::CacheError>)
    ensures
        match surfel_lookup {
            SurfelLookup::Nearest { count } => match r {
                Ok(keys) => keys@.len() == n_entities && forall|i: int|
                    0 <= i < n_entities ==> keys@[i]
                        == (crate::runner::surfel_table_cache::CacheKey {
                        entity_idx: i as usize,
                        width,
                        height,
                        count,
                        island_bleed,
                    }),
                Err(_) => false,
            },
            SurfelLookup::Within { .. } => r == Err::<
                Vec<crate::runner::surfel_table_cache::CacheKey>,
                crate::runner::surfel_table_cache::CacheError,
            >(crate::runner::surfel_table_cache::CacheError::UnsupportedLookup),
        },
{
    let count = match surfel_lookup {
        SurfelLookup::Nearest { count } => count,
        SurfelLookup::Within { .. } => {
            return Err(crate::runner::surfel_table_cache::CacheError::UnsupportedLookup);
        },
    };
    let mut out: Vec<crate::runner::surfel_table_cache::CacheKey> = Vec::new();
    let mut i: usize = 0;
    while i < n_entities
        invariant
            i <= n_entities,
            out@.len() == i,
            forall|j: int|
                0 <= j < i ==> out@[j] == (crate::runner::surfel_table_cache::CacheKey {
                    entity_idx: j as usize,
                    width,
                    height,
                    count,
                    island_bleed,
                }),
        decreases n_entities - i,
    {
        out.push(
            crate::runner::surfel_table_cache::CacheKey {
                entity_idx: i,
                width,
                height,
                count,
                island_bleed,
            },
        );
        i += 1;
    }
    Ok(out)
}

/// The texture channels a layer effect can rewrite.
#[derive(Debug, Clone, Copy, PartialEq, Eq, Structural)]
pub enum ChannelKind {
    Normal,
    Displacement,
    Albedo,
    Metallicity,
    Roughness,
}

/// How a blended channel composes with the pre-existing texture: normal
/// maps combine detail normals with the base normal; every other
/// channel alpha-composites over the original, scaled by the influence
/// factor.
#[derive(Debug, Clone, Copy, PartialEq, Eq, Structural)]
pub enum BlendType {
    Normal,
    Linear,
}

/// The composition a channel kind uses.
pub fn channel_blend_type(kind: ChannelKind) -> (r: BlendType)
    ensures
        r == match kind {
            ChannelKind::Normal => BlendType::Normal,
            _ => BlendType::Linear,
        },
{
    match kind {
        ChannelKind::Normal => BlendType::Normal,
        _ => BlendType::Linear,
    }
}

/// The texture path a material holds for a channel, at the spec level.
pub open spec fn spec_channel_map(material: MaterialDesc, kind: ChannelKind) -> Option<String> {
    match kind {
        ChannelKind::Normal => material.normal_map,
        ChannelKind::Displacement => material.displacement_map,
        ChannelKind::Albedo => material.diffuse_color_map,
        ChannelKind::Metallicity => material.metallic_map,
        ChannelKind::Roughness => material.roughness_map,
    }
}

/// The texture path a material holds for a channel, copied.
pub fn material_channel_map(material: &MaterialDesc, kind: ChannelKind) -> (r: Option<String>)
    ensures
        r == spec_channel_map(*material, kind),
{
    match kind {
        ChannelKind::Normal => clone_opt_string(&material.normal_map),
        ChannelKind::Displacement => clone_opt_string(&material.displacement_map),
        ChannelKind::Albedo => clone_opt_string(&material.diffuse_color_map),
        ChannelKind::Metallicity => clone_opt_string(&material.metallic_map),
        ChannelKind::Roughness => clone_opt_string(&material.roughness_map),
    }
}

/// The material with one channel's texture replaced by a freshly
/// synthesized one; every other field is kept. Mutation always produces
/// a new material value; channel outputs accumulate on it across the
/// channels of one layer effect.
pub fn material_with_map(material: &MaterialDesc, kind: ChannelKind, path: String) -> (r:
    MaterialDesc)
    ensures
        r.name == material.name,
        spec_channel_map(r, kind) == Some(path),
        forall|k: ChannelKind| k != kind ==> spec_channel_map(r, k) == spec_channel_map(
            *material,
            k,
        ),
{
    let mut out = material.clone();
    match kind {
        ChannelKind::Normal => {
            out.normal_map = Some(path);
        },
        ChannelKind::Displacement => {
            out.displacement_map = Some(path);
        },
        ChannelKind::Albedo => {
            out.diffuse_color_map = Some(path);
        },
        ChannelKind::Metallicity => {
            out.metallic_map = Some(path);
        },
        ChannelKind::Roughness => {
            out.roughness_map = Some(path);
        },
    }
    out
}

/// Whether two blends read the same.
pub open spec fn blend_like(a: Blend, b: Blend) -> bool {
    &&& a.width == b.width
    &&& a.height == b.height
    &&& a.stops@ == b.stops@
    &&& a.influence == b.influence
    &&& a.tex_pattern@ == b.tex_pattern@
}

/// The channels a layer effect configures, in the order they are
/// applied: normal, displacement, albedo, metallicity, roughness.
pub open spec fn spec_layer_channels(
    normal: Option<Blend>,
    displacement: Option<Blend>,
    albedo: Option<Blend>,
    metallicity: Option<Blend>,
    roughness: Option<Blend>,
) -> Seq<(ChannelKind, Blend)> {
    (match normal {
        Some(b) => seq![(ChannelKind::Normal, b)],
        None => Seq::empty(),
    }) + (match displacement {
        Some(b) => seq![(ChannelKind::Displacement, b)],
        None => Seq::empty(),
    }) + (match albedo {
        Some(b) => seq![(ChannelKind::Albedo, b)],
        None => Seq::empty(),
    }) + (match metallicity {
        Some(b) => seq![(ChannelKind::Metallicity, b)],
        None => Seq::empty(),
    }) + (match roughness {
        Some(b) => seq![(ChannelKind::Roughness, b)],
        None => Seq::empty(),
    })
}

/// The channels a layer effect configures, in application order.
pub fn layer_channels(
    normal: &Option<Blend>,
    displacement: &Option<Blend>,
    albedo: &Option<Blend>,
    metallicity: &Option<Blend>,
    roughness: &Option<Blend>,
) -> (r: Vec<(ChannelKind, Blend)>)
    ensures
        ({
            let cs = spec_layer_channels(*normal, *displacement, *albedo, *metallicity, *roughness);
            &&& r@.len() == cs.len()
            &&& forall|i: int|
                0 <= i < cs.len() ==> (#[trigger] r@[i]).0 == cs[i].0 && blend_like(
                    r@[i].1,
                    cs[i].1,
                )
        }),
{
    let mut out: Vec<(ChannelKind, Blend)> = Vec::new();
    match normal {
        Some(b) => {
            out.push((ChannelKind::Normal, b.clone()));
        },
        None => {},
    }
    match displacement {
        Some(b) => {
            out.push((ChannelKind::Displacement, b.clone()));
        },
        None => {},
    }
    match albedo {
        Some(b) => {
            out.push((ChannelKind::Albedo, b.clone()));
        },
        None => {},
    }
    match metallicity {
        Some(b) => {
            out.push((ChannelKind::Metallicity, b.clone()));
        },
        None => {},
    }
    match roughness {
        Some(b) => {
            out.push((ChannelKind::Roughness, b.clone()));
        },
        None => {},
    }
    out
}

/// Whether `a` is at least `b`, comparing widths first: the order the
/// largest stop texture is picked by.
pub open spec fn dims_ge(a: (u32, u32), b: (u32, u32)) -> bool {
    a.0 > b.0 || (a.0 == b.0 && a.1 >= b.1)
}

/// The largest of the dimensions, the last winning among equals.
pub open spec fn max_dims(s: Seq<(u32, u32)>) -> (u32, u32)
    recommends
        s.len() > 0,
    decreases s.len(),
{
    if s.len() <= 1 {
        s[0]
    } else if dims_ge(s.last(), max_dims(s.drop_last())) {
        s.last()
    } else {
        max_dims(s.drop_last())
    }
}

/// The output resolution of a blended channel: the explicit width and
/// height if given (one of them standing in for both), else the
/// original texture's dimensions, else the dimensions of the largest
/// configured stop texture; with none of these the size cannot be
/// determined, which is fatal.
pub open spec fn spec_blend_output_size(
    width: Option<usize>,
    height: Option<usize>,
    original_dims: Option<(u32, u32)>,
    stop_dims: Seq<(u32, u32)>,
) -> Result<(u32, u32), Error> {
    match (width, height) {
        (Some(w), Some(h)) => Ok((w as u32, h as u32)),
        (Some(w), None) => Ok((w as u32, w as u32)),
        (None, Some(h)) => Ok((h as u32, h as u32)),
        (None, None) => match original_dims {
            Some(d) => Ok(d),
            None => if stop_dims.len() > 0 {
                Ok(max_dims(stop_dims))
            } else {
                Err(Error::UndeterminedOutputSize)
            },
        },
    }
}

/// Decides the output resolution of a blended channel. `original_dims`
/// are the dimensions of the material's original channel texture where
/// it has one; `stop_dims` are the dimensions of the stops' sample
/// textures, in stop order.
pub fn blend_output_size(
    blend: &Blend,
    original_dims: Option<(u32, u32)>,
    stop_dims: &Vec<(u32, u32)>,
) -> (r: Result<(u32, u32), Error>)
    ensures
        r == spec_blend_output_size(blend.width, blend.height, original_dims, stop_dims@),
{
    match (blend.width, blend.height) {
        (Some(w), Some(h)) => Ok(
            (
                #[verifier::truncate]
                (w as u32),
                #[verifier::truncate]
                (h as u32),
            ),
        ),
        (Some(w), None) => {
            let wu =
                #[verifier::truncate]
                (w as u32);
            Ok((wu, wu))
        },
        (None, Some(h)) => {
            let hu =
                #[verifier::truncate]
                (h as u32);
            Ok((hu, hu))
        },
        (None, None) => match original_dims {
            Some(d) => Ok(d),
            None => {
                let n = stop_dims.len();
                if n == 0 {
                    return Err(Error::UndeterminedOutputSize);
                }
                let mut best = stop_dims[0];
                let mut i: usize = 1;
                proof {
                    assert(stop_dims@.take(1).len() == 1);
                    assert(stop_dims@.take(1)[0] == stop_dims@[0]);
                    assert(best == max_dims(stop_dims@.take(1)));
                }
                while i < n
                    invariant
                        1 <= i <= n,
                        n == stop_dims@.len(),
                        best == max_dims(stop_dims@.take(i as int)),
                    decreases n - i,
                {
                    let d = stop_dims[i];
                    proof {
                        assert(stop_dims@.take(i + 1).drop_last() =~= stop_dims@.take(i as int));
                        assert(stop_dims@.take(i + 1).last() == stop_dims@[i as int]);
                    }
                    if d.0 > best.0 || (d.0 == best.0 && d.1 >= best.1) {
                        best = d;
                    }
                    i += 1;
                }
                proof {
                    assert(stop_dims@.take(n as int) =~= stop_dims@);
                }
                Ok(best)
            },
        },
    }
}

/// One stop of a planned guided blend: the concentration of maximum
/// influence and the texture sampled there.
pub struct PlannedStop {
    pub cenith: RealBits,
    pub texture: String,
}

/// The characters an optional string reads as.
pub open spec fn opt_view(o: Option<String>) -> Option<Seq<char>> {
    match o {
        Some(s) => Some(s@),
        None => None,
    }
}

/// The pairs a planned stop list reads as.
pub open spec fn planned_views(v: Seq<PlannedStop>) -> Seq<(RealBits, Seq<char>)> {
    v.map_values(|p: PlannedStop| (p.cenith, p.texture@))
}

/// Whether some stop stands at concentration zero.
pub open spec fn has_zero_stop(stops: Seq<Stop>) -> bool {
    exists|i: int| 0 <= i < stops.len() && real_is_zero(stops[i].cenith)
}

/// The texture of each configured stop: its own sample, else the
/// original texture; a stop with neither is fatal.
pub open spec fn stop_texture(stop: Stop, original: Option<Seq<char>>) -> Option<Seq<char>> {
    match stop.sample {
        Some(s) => Some(s@),
        None => original,
    }
}

/// What planning a stop list yields: where the material has an original
/// texture and no stop stands at concentration zero, the original is
/// implicitly inserted there; the configured stops follow in order,
/// each with its sample texture or the original. With no original and
/// no stops at all, or with a sample-less stop and no original, the
/// blend cannot run.
pub open spec fn spec_stop_plan(stops: Seq<Stop>, original: Option<Seq<char>>) -> Result<
    Seq<(RealBits, Seq<char>)>,
    Error,
> {
    if original is None && stops.len() == 0 {
        Err(Error::NoBlendStops)
    } else if exists|j: int| 0 <= j < stops.len() && stop_texture(stops[j], original) is None {
        Err(
            Error::MissingStopTexture {
                stop_index: (choose|j: int|
                    0 <= j < stops.len() && stop_texture(stops[j], original) is None && forall|
                        k: int,
                    | 0 <= k < j ==> stop_texture(stops[k], original) is Some) as usize,
            },
        )
    } else {
        let configured = Seq::new(
            stops.len(),
            |j: int| (stops[j].cenith, stop_texture(stops[j], original).unwrap()),
        );
        if original is Some && !has_zero_stop(stops) {
            Ok(seq![(REAL_POS_ZERO, original.unwrap())] + configured)
        } else {
            Ok(configured)
        }
    }
}

/// Plans the stop list of one guided blend.
pub fn stop_plan(blend: &Blend, original_map: &Option<String>) -> (r: Result<
    Vec<PlannedStop>,
    Error,
>)
    ensures
        ({
            let original = match *original_map {
                Some(m) => Some(m@),
                None => None::<Seq<char>>,
            };
            match r {
                Ok(v) => spec_stop_plan(blend.stops@, original) == Ok::<
                    Seq<(RealBits, Seq<char>)>,
                    Error,
                >(planned_views(v@)),
                Err(e) => spec_stop_plan(blend.stops@, original) == Err::<
                    Seq<(RealBits, Seq<char>)>,
                    Error,
                >(e),
            }
        }),
{
    let ghost original: Option<Seq<char>> = match original_map {
        Some(m) => Some(m@),
        None => None,
    };
    let n = blend.stops.len();
    if original_map.is_none() && n == 0 {
        return Err(Error::NoBlendStops);
    }
    let mut zero_stop = false;
    let mut i: usize = 0;
    while i < n
        invariant
            i <= n,
            n == blend.stops@.len(),
            zero_stop == exists|j: int| 0 <= j < i && real_is_zero(blend.stops@[j].cenith),
        decreases n - i,
    {
        if crate::realval::is_real_zero(blend.stops[i].cenith) {
            zero_stop = true;
            proof {
                assert(real_is_zero(blend.stops@[i as int].cenith));
            }
        }
        proof {
            if !zero_stop {
                assert forall|j: int|
                    0 <= j < i + 1 implies !real_is_zero(blend.stops@[j].cenith) by {}
            }
        }
        i += 1;
    }
    proof {
        assert(zero_stop == has_zero_stop(blend.stops@));
    }
    let mut out: Vec<PlannedStop> = Vec::new();
    let implicit = original_map.is_some() && !zero_stop;
    if implicit {
        match original_map {
            Some(m) => {
                out.push(PlannedStop { cenith: 0, texture: m.clone() });
            },
            None => {},
        }
    }
    let ghost head: Seq<(RealBits, Seq<char>)> = if implicit {
        seq![(REAL_POS_ZERO, original.unwrap())]
    } else {
        Seq::empty()
    };
    let mut i: usize = 0;
    while i < n
        invariant
            i <= n,
            n == blend.stops@.len(),
            implicit == (original is Some && !has_zero_stop(blend.stops@)),
            head == if implicit {
                seq![(REAL_POS_ZERO, original.unwrap())]
            } else {
                Seq::<(RealBits, Seq<char>)>::empty()
            },
            original == match *original_map {
                Some(m) => Some(m@),
                None => None::<Seq<char>>,
            },
            forall|j: int| 0 <= j < i ==> stop_texture(blend.stops@[j], original) is Some,
            planned_views(out@) =~= head + Seq::new(
                i as nat,
                |j: int| (blend.stops@[j].cenith, stop_texture(blend.stops@[j], original).unwrap()),
            ),
        decreases n - i,
    {
        let stop = &blend.stops[i];
        let texture: String = match &stop.sample {
            Some(s) => s.clone(),
            None => match original_map {
                Some(m) => m.clone(),
                None => {
                    proof {
                        assert(stop_texture(blend.stops@[i as int], original) is None);
                        assert forall|k: int|
                            0 <= k < i implies stop_texture(blend.stops@[k], original)
                            is Some by {}
                        let j0 = choose|j: int|
                            0 <= j < blend.stops@.len() && stop_texture(blend.stops@[j], original)
                                is None && forall|k: int|
                                0 <= k < j ==> stop_texture(blend.stops@[k], original) is Some;
                        assert(j0 == i) by {
                            if j0 < i {
                                assert(stop_texture(blend.stops@[j0], original) is Some);
                            }
                            if j0 > i {
                                assert(stop_texture(blend.stops@[i as int], original) is Some);
                            }
                        }
                    }
                    return Err(Error::MissingStopTexture { stop_index: i });
                },
            },
        };
        let ghost pre = out@;
        out.push(PlannedStop { cenith: stop.cenith, texture });
        proof {
            assert(planned_views(out@) =~= planned_views(pre).push(
                (blend.stops@[i as int].cenith, stop_texture(blend.stops@[i as int],
                    original).unwrap()),
            ));
            assert(planned_views(out@) =~= head + Seq::new(
                (i + 1) as nat,
                |j: int| (blend.stops@[j].cenith, stop_texture(blend.stops@[j], original).unwrap()),
            ));
        }
        i += 1;
    }
    proof {
        assert forall|j: int|
            0 <= j < blend.stops@.len() implies stop_texture(blend.stops@[j], original)
            is Some by {}
        assert(Seq::new(
            n as nat,
            |j: int| (blend.stops@[j].cenith, stop_texture(blend.stops@[j], original).unwrap()),
        ) =~= Seq::new(
            blend.stops@.len(),
            |j: int| (blend.stops@[j].cenith, stop_texture(blend.stops@[j], original).unwrap()),
        ));
    }
    Ok(out)
}

/// Everything one guided blend needs from its caller: the output
/// resolution and cache-key parts, the planned stop list, the influence
/// factor, the composition kind and the substituted output filename.
/// The pixel work itself — collecting the guide, interpolating the
/// stops, compositing over the original — is the texture engine's.
pub struct BlendJob {
    pub entity_idx: usize,
    pub width: u32,
    pub height: u32,
    pub count: usize,
    pub island_bleed: usize,
    pub stops: Vec<PlannedStop>,
    pub influence: RealBits,
    pub blend_type: BlendType,
    pub tex_filename: String,
}

/// What planning one guided blend yields, before the filename: the
/// output size, the neighbor count of its cache key, and the planned
/// stop list; or the first failure, in the order the blend hits them —
/// an undeterminable output size, an unsupported lookup policy, then a
/// stop without a texture.
pub open spec fn spec_blend_plan(
    width: Option<usize>,
    height: Option<usize>,
    stops: Seq<Stop>,
    original_map: Option<Seq<char>>,
    original_dims: Option<(u32, u32)>,
    stop_dims: Seq<(u32, u32)>,
    surfel_lookup: SurfelLookup,
) -> Result<((u32, u32), usize, Seq<(RealBits, Seq<char>)>), Error> {
    match spec_blend_output_size(width, height, original_dims, stop_dims) {
        Err(e) => Err(e),
        Ok(wh) => match surfel_lookup {
            SurfelLookup::Within { .. } => Err(Error::UnsupportedLookup),
            SurfelLookup::Nearest { count } => match spec_stop_plan(stops, original_map) {
                Err(e) => Err(e),
                Ok(planned) => Ok((wh, count, planned)),
            },
        },
    }
}

/// How a built blend job relates to its blend's plan and fields.
pub open spec fn blend_job_ok(
    job: BlendJob,
    plan: ((u32, u32), usize, Seq<(RealBits, Seq<char>)>),
    kind: ChannelKind,
    influence: RealBits,
    tex_pattern: Seq<char>,
    island_bleed: usize,
    iteration: int,
    entity_idx: int,
    entity_name: Seq<char>,
    substance_name: Seq<char>,
    datetime: Seq<char>,
) -> bool {
    &&& job.entity_idx == entity_idx
    &&& job.width == plan.0.0
    &&& job.height == plan.0.1
    &&& job.count == plan.1
    &&& job.island_bleed == island_bleed
    &&& planned_views(job.stops@) == plan.2
    &&& job.influence == influence
    &&& job.blend_type == match kind {
        ChannelKind::Normal => BlendType::Normal,
        _ => BlendType::Linear,
    }
    &&& job.tex_filename@ == spec_substitute(
        tex_pattern,
        iteration,
        entity_idx,
        entity_name,
        substance_name,
        datetime,
    )
}

/// Plans one guided blend of a layer effect for one entity and channel.
/// Failures come in the order the blend would hit them: an output size
/// that cannot be determined, a lookup policy the table cache does not
/// support, then a stop without a texture.
pub fn plan_blend(
    blend: &Blend,
    kind: ChannelKind,
    original_map: &Option<String>,
    original_dims: Option<(u32, u32)>,
    stop_dims: &Vec<(u32, u32)>,
    surfel_lookup: SurfelLookup,
    island_bleed: usize,
    iteration: u32,
    entity_idx: usize,
    entity_name: &str,
    substance_name: &str,
    datetime: &str,
) -> (r: Result<BlendJob, Error>)
    ensures
        match spec_blend_plan(
            blend.width,
            blend.height,
            blend.stops@,
            opt_view(*original_map),
            original_dims,
            stop_dims@,
            surfel_lookup,
        ) {
            Err(e) => r == Err::<BlendJob, Error>(e),
            Ok(plan) => r is Ok && blend_job_ok(
                r.unwrap(),
                plan,
                kind,
                blend.influence,
                blend.tex_pattern@,
                island_bleed,
                iteration as int,
                entity_idx as int,
                entity_name@,
                substance_name@,
                datetime@,
            ),
        },
{
    let (width, height) = match blend_output_size(blend, original_dims, stop_dims) {
        Ok(d) => d,
        Err(e) => {
            return Err(e);
        },
    };
    let count = match surfel_lookup {
        SurfelLookup::Nearest { count } => count,
        SurfelLookup::Within { .. } => {
            return Err(Error::UnsupportedLookup);
        },
    };
    let stops = match stop_plan(blend, original_map) {
        Ok(stops) => stops,
        Err(e) => {
            return Err(e);
        },
    };
    let tex_filename = substitute_pattern(
        blend.tex_pattern.as_str(),
        iteration,
        entity_idx,
        entity_name,
        substance_name,
        datetime,
    );
    Ok(
        BlendJob {
            entity_idx,
            width,
            height,
            count,
            island_bleed,
            stops,
            influence: blend.influence,
            blend_type: channel_blend_type(kind),
            tex_filename,
        },
    )
}

/// The dimensions of one entity's baseline channel textures, as the
/// filesystem gives them: per channel, the size of the material's own
/// texture where it has one. The shell opens the images; the planners
/// only decide over the numbers.
#[derive(Debug, Clone, Copy)]
pub struct ChannelDims {
    pub normal: Option<(u32, u32)>,
    pub displacement: Option<(u32, u32)>,
    pub albedo: Option<(u32, u32)>,
    pub metallicity: Option<(u32, u32)>,
    pub roughness: Option<(u32, u32)>,
}

/// The dimensions of the stop sample textures of a layer effect, per
/// channel, in stop order; empty for a channel the effect does not
/// configure.
pub struct ChannelStopDims {
    pub normal: Vec<(u32, u32)>,
    pub displacement: Vec<(u32, u32)>,
    pub albedo: Vec<(u32, u32)>,
    pub metallicity: Vec<(u32, u32)>,
    pub roughness: Vec<(u32, u32)>,
}

/// The characters a material's channel texture path reads as, if any.
pub open spec fn channel_map_view(m: MaterialDesc, kind: ChannelKind) -> Option<Seq<char>> {
    opt_view(spec_channel_map(m, kind))
}

/// How one channel of a layer effect is planned for one entity: with no
/// blend configured, no job and the channel untouched; with one, a job
/// per the blend's plan and the new material pointing at the planned
/// filename.
pub open spec fn channel_planned(
    blend_opt: Option<Blend>,
    kind: ChannelKind,
    job_opt: Option<BlendJob>,
    base: MaterialDesc,
    new_mat: MaterialDesc,
    original_dims: Option<(u32, u32)>,
    stop_dims: Seq<(u32, u32)>,
    surfel_lookup: SurfelLookup,
    island_bleed: usize,
    iteration: int,
    entity_idx: int,
    entity_name: Seq<char>,
    substance_name: Seq<char>,
    datetime: Seq<char>,
) -> bool {
    match blend_opt {
        None => job_opt is None && channel_map_view(new_mat, kind) == channel_map_view(
            base,
            kind,
        ),
        Some(b) => match spec_blend_plan(
            b.width,
            b.height,
            b.stops@,
            channel_map_view(base, kind),
            original_dims,
            stop_dims,
            surfel_lookup,
        ) {
            Err(_) => false,
            Ok(plan) => job_opt is Some && blend_job_ok(
                job_opt.unwrap(),
                plan,
                kind,
                b.influence,
                b.tex_pattern@,
                island_bleed,
                iteration,
                entity_idx,
                entity_name,
                substance_name,
                datetime,
            ) && channel_map_view(new_mat, kind) == Some(job_opt.unwrap().tex_filename@),
        },
    }
}

/// Whether planning one channel of a layer effect fails with `e` for an
/// entity.
pub open spec fn channel_plan_fails(
    blend_opt: Option<Blend>,
    kind: ChannelKind,
    base: MaterialDesc,
    original_dims: Option<(u32, u32)>,
    stop_dims: Seq<(u32, u32)>,
    surfel_lookup: SurfelLookup,
    e: Error,
) -> bool {
    blend_opt is Some && spec_blend_plan(
        blend_opt.unwrap().width,
        blend_opt.unwrap().height,
        blend_opt.unwrap().stops@,
        channel_map_view(base, kind),
        original_dims,
        stop_dims,
        surfel_lookup,
    ) == Err::<((u32, u32), usize, Seq<(RealBits, Seq<char>)>), Error>(e)
}

/// The planned blends of one entity under a layer effect, one per
/// configured channel, applied in channel order: normal, displacement,
/// albedo, metallicity, roughness.
pub struct EntityLayerPlan {
    pub entity_idx: usize,
    pub normal: Option<BlendJob>,
    pub displacement: Option<BlendJob>,
    pub albedo: Option<BlendJob>,
    pub metallicity: Option<BlendJob>,
    pub roughness: Option<BlendJob>,
}

/// Plans every configured channel of a layer effect for one applicable
/// entity: each channel reads the baseline material, and the channel
/// outputs accumulate onto one new material.
fn plan_layer_entity(
    entity: &EntityDesc,
    entity_idx: usize,
    normal: &Option<Blend>,
    displacement: &Option<Blend>,
    albedo: &Option<Blend>,
    metallicity: &Option<Blend>,
    roughness: &Option<Blend>,
    surfel_lookup: SurfelLookup,
    island_bleed: usize,
    dims: ChannelDims,
    stop_dims: &ChannelStopDims,
    substance_name: &str,
    iteration: u32,
    datetime: &str,
) -> (r: Result<(EntityDesc, EntityLayerPlan), Error>)
    ensures
        match r {
            Ok((new_entity, plan)) => {
                &&& new_entity.name == entity.name
                &&& new_entity.material.name == entity.material.name
                &&& plan.entity_idx == entity_idx
                &&& channel_planned(
                    *normal,
                    ChannelKind::Normal,
                    plan.normal,
                    entity.material,
                    new_entity.material,
                    dims.normal,
                    stop_dims.normal@,
                    surfel_lookup,
                    island_bleed,
                    iteration as int,
                    entity_idx as int,
                    entity.name@,
                    substance_name@,
                    datetime@,
                )
                &&& channel_planned(
                    *displacement,
                    ChannelKind::Displacement,
                    plan.displacement,
                    entity.material,
                    new_entity.material,
                    dims.displacement,
                    stop_dims.displacement@,
                    surfel_lookup,
                    island_bleed,
                    iteration as int,
                    entity_idx as int,
                    entity.name@,
                    substance_name@,
                    datetime@,
                )
                &&& channel_planned(
                    *albedo,
                    ChannelKind::Albedo,
                    plan.albedo,
                    entity.material,
                    new_entity.material,
                    dims.albedo,
                    stop_dims.albedo@,
                    surfel_lookup,
                    island_bleed,
                    iteration as int,
                    entity_idx as int,
                    entity.name@,
                    substance_name@,
                    datetime@,
                )
                &&& channel_planned(
                    *metallicity,
                    ChannelKind::Metallicity,
                    plan.metallicity,
                    entity.material,
                    new_entity.material,
                    dims.metallicity,
                    stop_dims.metallicity@,
                    surfel_lookup,
                    island_bleed,
                    iteration as int,
                    entity_idx as int,
                    entity.name@,
                    substance_name@,
                    datetime@,
                )
                &&& channel_planned(
                    *roughness,
                    ChannelKind::Roughness,
                    plan.roughness,
                    entity.material,
                    new_entity.material,
                    dims.roughness,
                    stop_dims.roughness@,
                    surfel_lookup,
                    island_bleed,
                    iteration as int,
                    entity_idx as int,
                    entity.name@,
                    substance_name@,
                    datetime@,
                )
            },
            Err(e) => channel_plan_fails(
                *normal,
                ChannelKind::Normal,
                entity.material,
                dims.normal,
                stop_dims.normal@,
                surfel_lookup,
                e,
            ) || channel_plan_fails(
                *displacement,
                ChannelKind::Displacement,
                entity.material,
                dims.displacement,
                stop_dims.displacement@,
                surfel_lookup,
                e,
            ) || channel_plan_fails(
                *albedo,
                ChannelKind::Albedo,
                entity.material,
                dims.albedo,
                stop_dims.albedo@,
                surfel_lookup,
                e,
            ) || channel_plan_fails(
                *metallicity,
                ChannelKind::Metallicity,
                entity.material,
                dims.metallicity,
                stop_dims.metallicity@,
                surfel_lookup,
                e,
            ) || channel_plan_fails(
                *roughness,
                ChannelKind::Roughness,
                entity.material,
                dims.roughness,
                stop_dims.roughness@,
                surfel_lookup,
                e,
            ),
        },
{
    let mut new_mat = entity.material.clone();
    let mut plan = EntityLayerPlan {
        entity_idx,
        normal: None,
        displacement: None,
        albedo: None,
        metallicity: None,
        roughness: None,
    };
    match normal {
        Some(b) => {
            let base_map = material_channel_map(&entity.material, ChannelKind::Normal);
            let job = match plan_blend(
                b,
                ChannelKind::Normal,
                &base_map,
                dims.normal,
                &stop_dims.normal,
                surfel_lookup,
                island_bleed,
                iteration,
                entity_idx,
                entity.name.as_str(),
                substance_name,
                datetime,
            ) {
                Ok(job) => job,
                Err(e) => {
                    return Err(e);
                },
            };
            new_mat = material_with_map(&new_mat, ChannelKind::Normal, job.tex_filename.clone());
            plan.normal = Some(job);
        },
        None => {},
    }
    match displacement {
        Some(b) => {
            let base_map = material_channel_map(&entity.material, ChannelKind::Displacement);
            let job = match plan_blend(
                b,
                ChannelKind::Displacement,
                &base_map,
                dims.displacement,
                &stop_dims.displacement,
                surfel_lookup,
                island_bleed,
                iteration,
                entity_idx,
                entity.name.as_str(),
                substance_name,
                datetime,
            ) {
                Ok(job) => job,
                Err(e) => {
                    return Err(e);
                },
            };
            new_mat = material_with_map(
                &new_mat,
                ChannelKind::Displacement,
                job.tex_filename.clone(),
            );
            plan.displacement = Some(job);
        },
        None => {},
    }
    match albedo {
        Some(b) => {
            let base_map = material_channel_map(&entity.material, ChannelKind::Albedo);
            let job = match plan_blend(
                b,
                ChannelKind::Albedo,
                &base_map,
                dims.albedo,
                &stop_dims.albedo,
                surfel_lookup,
                island_bleed,
                iteration,
                entity_idx,
                entity.name.as_str(),
                substance_name,
                datetime,
            ) {
                Ok(job) => job,
                Err(e) => {
                    return Err(e);
                },
            };
            new_mat = material_with_map(&new_mat, ChannelKind::Albedo, job.tex_filename.clone());
            plan.albedo = Some(job);
        },
        None => {},
    }
    match metallicity {
        Some(b) => {
            let base_map = material_channel_map(&entity.material, ChannelKind::Metallicity);
            let job = match plan_blend(
                b,
                ChannelKind::Metallicity,
                &base_map,
                dims.metallicity,
                &stop_dims.metallicity,
                surfel_lookup,
                island_bleed,
                iteration,
                entity_idx,
                entity.name.as_str(),
                substance_name,
                datetime,
            ) {
                Ok(job) => job,
                Err(e) => {
                    return Err(e);
                },
            };
            new_mat = material_with_map(
                &new_mat,
                ChannelKind::Metallicity,
                job.tex_filename.clone(),
            );
            plan.metallicity = Some(job);
        },
        None => {},
    }
    match roughness {
        Some(b) => {
            let base_map = material_channel_map(&entity.material, ChannelKind::Roughness);
            let job = match plan_blend(
                b,
                ChannelKind::Roughness,
                &base_map,
                dims.roughness,
                &stop_dims.roughness,
                surfel_lookup,
                island_bleed,
                iteration,
                entity_idx,
                entity.name.as_str(),
                substance_name,
                datetime,
            ) {
                Ok(job) => job,
                Err(e) => {
                    return Err(e);
                },
            };
            new_mat = material_with_map(&new_mat, ChannelKind::Roughness, job.tex_filename.clone());
            plan.roughness = Some(job);
        },
        None => {},
    }
    Ok((EntityDesc { name: entity.name.clone(), material: new_mat }, plan))
}

/// One layer effect, planned: the substance index its guide reads, the
/// entity list with the applicable entities' materials rewritten, and
/// the blend jobs per entity. Entities the allow-list does not match
/// pass through unchanged and get no plan.
pub struct LayerPlan {
    pub substance_idx: usize,
    pub entities: Vec<EntityDesc>,
    pub plans: Vec<Option<EntityLayerPlan>>,
}

/// How a planned layer effect relates to its inputs.
pub open spec fn layer_plan_ok(
    lp: LayerPlan,
    entities: Seq<EntityDesc>,
    materials: Seq<String>,
    substance: Seq<char>,
    names: Seq<Seq<char>>,
    normal: Option<Blend>,
    displacement: Option<Blend>,
    albedo: Option<Blend>,
    metallicity: Option<Blend>,
    roughness: Option<Blend>,
    surfel_lookup: SurfelLookup,
    island_bleed: usize,
    originals: Seq<ChannelDims>,
    stop_dims: ChannelStopDims,
    iteration: int,
    datetime: Seq<char>,
) -> bool {
    &&& lp.substance_idx == index_of_name(names, substance)
    &&& lp.entities@.len() == entities.len()
    &&& lp.plans@.len() == entities.len()
    &&& forall|e: int|
        0 <= e < entities.len() ==> if spec_entity_applicable(#[trigger] entities[e], materials) {
            &&& lp.plans@[e] is Some
            &&& lp.plans@[e].unwrap().entity_idx == e
            &&& lp.entities@[e].name == entities[e].name
            &&& lp.entities@[e].material.name == entities[e].material.name
            &&& channel_planned(
                normal,
                ChannelKind::Normal,
                lp.plans@[e].unwrap().normal,
                entities[e].material,
                lp.entities@[e].material,
                originals[e].normal,
                stop_dims.normal@,
                surfel_lookup,
                island_bleed,
                iteration,
                e,
                entities[e].name@,
                substance,
                datetime,
            )
            &&& channel_planned(
                displacement,
                ChannelKind::Displacement,
                lp.plans@[e].unwrap().displacement,
                entities[e].material,
                lp.entities@[e].material,
                originals[e].displacement,
                stop_dims.displacement@,
                surfel_lookup,
                island_bleed,
                iteration,
                e,
                entities[e].name@,
                substance,
                datetime,
            )
            &&& channel_planned(
                albedo,
                ChannelKind::Albedo,
                lp.plans@[e].unwrap().albedo,
                entities[e].material,
                lp.entities@[e].material,
                originals[e].albedo,
                stop_dims.albedo@,
                surfel_lookup,
                island_bleed,
                iteration,
                e,
                entities[e].name@,
                substance,
                datetime,
            )
            &&& channel_planned(
                metallicity,
                ChannelKind::Metallicity,
                lp.plans@[e].unwrap().metallicity,
                entities[e].material,
                lp.entities@[e].material,
                originals[e].metallicity,
                stop_dims.metallicity@,
                surfel_lookup,
                island_bleed,
                iteration,
                e,
                entities[e].name@,
                substance,
                datetime,
            )
            &&& channel_planned(
                roughness,
                ChannelKind::Roughness,
                lp.plans@[e].unwrap().roughness,
                entities[e].material,
                lp.entities@[e].material,
                originals[e].roughness,
                stop_dims.roughness@,
                surfel_lookup,
                island_bleed,
                iteration,
                e,
                entities[e].name@,
                substance,
                datetime,
            )
        } else {
            lp.entities@[e] == entities[e] && lp.plans@[e] is None
        }
}

/// Whether planning a layer effect fails with `e`: some applicable
/// entity has a configured channel whose blend cannot be planned.
pub open spec fn layer_plan_fails(
    err: Error,
    entities: Seq<EntityDesc>,
    materials: Seq<String>,
    normal: Option<Blend>,
    displacement: Option<Blend>,
    albedo: Option<Blend>,
    metallicity: Option<Blend>,
    roughness: Option<Blend>,
    surfel_lookup: SurfelLookup,
    originals: Seq<ChannelDims>,
    stop_dims: ChannelStopDims,
) -> bool {
    exists|i: int|
        0 <= i < entities.len() && spec_entity_applicable(#[trigger] entities[i], materials) && (
        channel_plan_fails(
            normal,
            ChannelKind::Normal,
            entities[i].material,
            originals[i].normal,
            stop_dims.normal@,
            surfel_lookup,
            err,
        ) || channel_plan_fails(
            displacement,
            ChannelKind::Displacement,
            entities[i].material,
            originals[i].displacement,
            stop_dims.displacement@,
            surfel_lookup,
            err,
        ) || channel_plan_fails(
            albedo,
            ChannelKind::Albedo,
            entities[i].material,
            originals[i].albedo,
            stop_dims.albedo@,
            surfel_lookup,
            err,
        ) || channel_plan_fails(
            metallicity,
            ChannelKind::Metallicity,
            entities[i].material,
            originals[i].metallicity,
            stop_dims.metallicity@,
            surfel_lookup,
            err,
        ) || channel_plan_fails(
            roughness,
            ChannelKind::Roughness,
            entities[i].material,
            originals[i].roughness,
            stop_dims.roughness@,
            surfel_lookup,
            err,
        ))
}

/// Plans one layer effect across the entity list. The effect's substance
/// name is resolved against the substance-name table first; an unknown
/// name is a fatal configuration error, never silently ignored. Each
/// applicable entity gets a new material accumulating every configured
/// channel's output; the rest pass through unchanged.
pub fn plan_layer(
    entities: &Vec<EntityDesc>,
    materials: &Vec<String>,
    substance: &str,
    names: &Vec<String>,
    normal: &Option<Blend>,
    displacement: &Option<Blend>,
    albedo: &Option<Blend>,
    metallicity: &Option<Blend>,
    roughness: &Option<Blend>,
    surfel_lookup: SurfelLookup,
    island_bleed: usize,
    original_dims: &Vec<ChannelDims>,
    stop_dims: &ChannelStopDims,
    iteration: u32,
    datetime: &str,
) -> (r: Result<LayerPlan, Error>)
    requires
        original_dims@.len() == entities@.len(),
    ensures
        !views_of(names@).contains(substance@) ==> (r matches Err(Error::UnknownSubstanceName(n))
            && n@ == substance@),
        views_of(names@).contains(substance@) ==> match r {
            Ok(lp) => layer_plan_ok(
                lp,
                entities@,
                materials@,
                substance@,
                views_of(names@),
                *normal,
                *displacement,
                *albedo,
                *metallicity,
                *roughness,
                surfel_lookup,
                island_bleed,
                original_dims@,
                *stop_dims,
                iteration as int,
                datetime@,
            ),
            Err(e) => layer_plan_fails(
                e,
                entities@,
                materials@,
                *normal,
                *displacement,
                *albedo,
                *metallicity,
                *roughness,
                surfel_lookup,
                original_dims@,
                *stop_dims,
            ),
        },
{
    let substance_idx = match position_of(names, substance) {
        Some(i) => i,
        None => {
            return Err(Error::UnknownSubstanceName(substance.to_owned()));
        },
    };
    let n = entities.len();
    let mut out_entities: Vec<EntityDesc> = Vec::new();
    let mut out_plans: Vec<Option<EntityLayerPlan>> = Vec::new();
    let mut e: usize = 0;
    while e < n
        invariant
            e <= n,
            n == entities@.len(),
            original_dims@.len() == entities@.len(),
            views_of(names@).contains(substance@),
            out_entities@.len() == e,
            out_plans@.len() == e,
            forall|j: int|
                0 <= j < e ==> if spec_entity_applicable(#[trigger] entities@[j], materials@) {
                    &&& out_plans@[j] is Some
                    &&& out_plans@[j].unwrap().entity_idx == j
                    &&& out_entities@[j].name == entities@[j].name
                    &&& out_entities@[j].material.name == entities@[j].material.name
                    &&& channel_planned(
                        *normal,
                        ChannelKind::Normal,
                        out_plans@[j].unwrap().normal,
                        entities@[j].material,
                        out_entities@[j].material,
                        original_dims@[j].normal,
                        stop_dims.normal@,
                        surfel_lookup,
                        island_bleed,
                        iteration as int,
                        j,
                        entities@[j].name@,
                        substance@,
                        datetime@,
                    )
                    &&& channel_planned(
                        *displacement,
                        ChannelKind::Displacement,
                        out_plans@[j].unwrap().displacement,
                        entities@[j].material,
                        out_entities@[j].material,
                        original_dims@[j].displacement,
                        stop_dims.displacement@,
                        surfel_lookup,
                        island_bleed,
                        iteration as int,
                        j,
                        entities@[j].name@,
                        substance@,
                        datetime@,
                    )
                    &&& channel_planned(
                        *albedo,
                        ChannelKind::Albedo,
                        out_plans@[j].unwrap().albedo,
                        entities@[j].material,
                        out_entities@[j].material,
                        original_dims@[j].albedo,
                        stop_dims.albedo@,
                        surfel_lookup,
                        island_bleed,
                        iteration as int,
                        j,
                        entities@[j].name@,
                        substance@,
                        datetime@,
                    )
                    &&& channel_planned(
                        *metallicity,
                        ChannelKind::Metallicity,
                        out_plans@[j].unwrap().metallicity,
                        entities@[j].material,
                        out_entities@[j].material,
                        original_dims@[j].metallicity,
                        stop_dims.metallicity@,
                        surfel_lookup,
                        island_bleed,
                        iteration as int,
                        j,
                        entities@[j].name@,
                        substance@,
                        datetime@,
                    )
                    &&& channel_planned(
                        *roughness,
                        ChannelKind::Roughness,
                        out_plans@[j].unwrap().roughness,
                        entities@[j].material,
                        out_entities@[j].material,
                        original_dims@[j].roughness,
                        stop_dims.roughness@,
                        surfel_lookup,
                        island_bleed,
                        iteration as int,
                        j,
                        entities@[j].name@,
                        substance@,
                        datetime@,
                    )
                } else {
                    out_entities@[j] == entities@[j] && out_plans@[j] is None
                },
        decreases n - e,
    {
        if is_entity_applicable_for_materials(&entities[e], materials) {
            match plan_layer_entity(
                &entities[e],
                e,
                normal,
                displacement,
                albedo,
                metallicity,
                roughness,
                surfel_lookup,
                island_bleed,
                original_dims[e],
                stop_dims,
                substance,
                iteration,
                datetime,
            ) {
                Ok((new_entity, plan)) => {
                    out_entities.push(new_entity);
                    out_plans.push(Some(plan));
                },
                Err(err) => {
                    proof {
                        assert(spec_entity_applicable(entities@[e as int], materials@));
                    }
                    return Err(err);
                },
            }
        } else {
            out_entities.push(entities[e].clone());
            out_plans.push(None);
        }
        e += 1;
    }
    Ok(LayerPlan { substance_idx, entities: out_entities, plans: out_plans })
}

/// The texture dimensions one effect's planning needs from the
/// filesystem: nothing for most effects; for a layer effect, the
/// baseline channel texture sizes per entity and the stop sample sizes
/// per channel.
pub enum EffectDims {
    Plain,
    Layer { originals: Vec<ChannelDims>, stop_dims: ChannelStopDims },
}

/// What one effect of the pipeline does when it runs, decided up front:
/// which textures to synthesize, the entity list with rewritten
/// materials, and which files to write. The pipeline applies effects in
/// declaration order against a fresh copy of the baseline entity list,
/// so effects accumulate within one pass but never leak into the next.
pub enum EffectAction {
    /// One texture per substance and entity, plus one optional scene
    /// export per substance.
    Density { jobs: Vec<DensityJob>, exports: Option<Vec<(String, String)>> },
    /// The rewritten entity list and the planned blends.
    Layer { plan: LayerPlan },
    /// The mesh and material filenames, or nothing where no export is
    /// configured.
    Export { filenames: Option<(String, String)> },
    /// The point-cloud filename.
    DumpSurfels { filename: String },
}

/// How the per-substance scene exports of a density effect relate to
/// the configured patterns.
pub open spec fn density_exports_ok(
    exports: Option<Vec<(String, String)>>,
    obj_pattern: Option<String>,
    mtl_pattern: Option<String>,
    substance_names: Seq<String>,
    iteration: int,
    datetime: Seq<char>,
) -> bool {
    match (obj_pattern, mtl_pattern) {
        (Some(op), Some(mp)) => exports is Some && exports.unwrap()@.len()
            == substance_names.len() && forall|s: int|
            0 <= s < substance_names.len() ==> (#[trigger] exports.unwrap()@[s]).0@
                == spec_substitute_export(op@, iteration, substance_names[s]@, datetime)
                && exports.unwrap()@[s].1@ == spec_substitute_export(
                mp@,
                iteration,
                substance_names[s]@,
                datetime,
            ),
        (None, None) => exports is None,
        _ => false,
    }
}

/// Plans one effect of the pipeline, in the order the effects declare
/// themselves. The synthesis and the file writes are its caller's; this
/// decides exactly what they are.
pub fn plan_effect(
    effect: &EffectSpec,
    entities: &Vec<EntityDesc>,
    names: &Vec<String>,
    dims: &EffectDims,
    iteration: u32,
    datetime: &str,
) -> (r: Result<EffectAction, Error>)
    requires
        *effect matches EffectSpec::Density { .. } ==> names@.len() * entities@.len()
            <= usize::MAX,
        *effect matches EffectSpec::Layer { .. } ==> (*dims matches EffectDims::Layer {
            originals,
            ..
        } && originals@.len() == entities@.len()),
    ensures
        match *effect {
            EffectSpec::Density {
                width,
                height,
                island_bleed,
                tex_pattern,
                obj_pattern,
                mtl_pattern,
                ..
            } => if (obj_pattern is Some) != (mtl_pattern is Some) {
                r == Err::<EffectAction, Error>(Error::ExportPatternIncomplete)
            } else {
                match r {
                    Ok(EffectAction::Density { jobs, exports }) => density_jobs_ok(
                        jobs@,
                        entities@,
                        names@,
                        width,
                        height,
                        island_bleed,
                        iteration as int,
                        datetime@,
                        tex_pattern@,
                    ) && density_exports_ok(
                        exports,
                        obj_pattern,
                        mtl_pattern,
                        names@,
                        iteration as int,
                        datetime@,
                    ),
                    _ => false,
                }
            },
            EffectSpec::Export { obj_pattern, mtl_pattern } => match (obj_pattern, mtl_pattern) {
                (Some(op), Some(mp)) => match r {
                    Ok(EffectAction::Export { filenames }) => filenames is Some
                        && filenames.unwrap().0@ == spec_substitute_export(
                        op@,
                        iteration as int,
                        "all"@,
                        datetime@,
                    ) && filenames.unwrap().1@ == spec_substitute_export(
                        mp@,
                        iteration as int,
                        "all"@,
                        datetime@,
                    ),
                    _ => false,
                },
                (None, None) => r matches Ok(EffectAction::Export { filenames }) && filenames
                    is None,
                _ => r == Err::<EffectAction, Error>(Error::ExportPatternIncomplete),
            },
            EffectSpec::DumpSurfels { obj_pattern } => match r {
                Ok(EffectAction::DumpSurfels { filename }) => filename@
                    == spec_substitute_surfel_obj(obj_pattern@, iteration as int, datetime@),
                _ => false,
            },
            EffectSpec::Layer {
                materials,
                substance,
                surfel_lookup,
                island_bleed,
                normal,
                displacement,
                albedo,
                metallicity,
                roughness,
            } => match *dims {
                EffectDims::Layer { originals, stop_dims } => if !views_of(names@).contains(
                    substance@,
                ) {
                    r matches Err(Error::UnknownSubstanceName(n)) && n@ == substance@
                } else {
                    match r {
                        Ok(EffectAction::Layer { plan }) => layer_plan_ok(
                            plan,
                            entities@,
                            materials@,
                            substance@,
                            views_of(names@),
                            normal,
                            displacement,
                            albedo,
                            metallicity,
                            roughness,
                            surfel_lookup,
                            island_bleed,
                            originals@,
                            stop_dims,
                            iteration as int,
                            datetime@,
                        ),
                        Err(e) => layer_plan_fails(
                            e,
                            entities@,
                            materials@,
                            normal,
                            displacement,
                            albedo,
                            metallicity,
                            roughness,
                            surfel_lookup,
                            originals@,
                            stop_dims,
                        ),
                        _ => false,
                    }
                },
                _ => true,
            },
        },
{
    match effect {
        EffectSpec::Density {
            width,
            height,
            surfel_lookup: _,
            island_bleed,
            tex_pattern,
            obj_pattern,
            mtl_pattern,
        } => {
            let exports: Option<Vec<(String, String)>> = match (obj_pattern, mtl_pattern) {
                (Some(op), Some(mp)) => {
                    let n = names.len();
                    let mut v: Vec<(String, String)> = Vec::new();
                    let mut s: usize = 0;
                    while s < n
                        invariant
                            s <= n,
                            n == names@.len(),
                            v@.len() == s,
                            forall|j: int|
                                0 <= j < s ==> (#[trigger] v@[j]).0@ == spec_substitute_export(
                                    op@,
                                    iteration as int,
                                    names@[j]@,
                                    datetime@,
                                ) && v@[j].1@ == spec_substitute_export(
                                    mp@,
                                    iteration as int,
                                    names@[j]@,
                                    datetime@,
                                ),
                        decreases n - s,
                    {
                        let obj = substitute_export_pattern(
                            op.as_str(),
                            iteration,
                            names[s].as_str(),
                            datetime,
                        );
                        let mtl = substitute_export_pattern(
                            mp.as_str(),
                            iteration,
                            names[s].as_str(),
                            datetime,
                        );
                        v.push((obj, mtl));
                        s += 1;
                    }
                    Some(v)
                },
                (None, None) => None,
                _ => {
                    return Err(Error::ExportPatternIncomplete);
                },
            };
            let jobs = density_jobs(
                entities,
                names,
                *width,
                *height,
                *island_bleed,
                iteration,
                datetime,
                tex_pattern.as_str(),
            );
            Ok(EffectAction::Density { jobs, exports })
        },
        EffectSpec::Export { obj_pattern, mtl_pattern } => {
            match export_filenames(obj_pattern, mtl_pattern, iteration, "all", datetime) {
                Ok(filenames) => Ok(EffectAction::Export { filenames }),
                Err(e) => Err(e),
            }
        },
        EffectSpec::DumpSurfels { obj_pattern } => {
            let filename = substitute_surfel_obj_pattern(obj_pattern.as_str(), iteration, datetime);
            Ok(EffectAction::DumpSurfels { filename })
        },
        EffectSpec::Layer {
            materials,
            substance,
            surfel_lookup,
            island_bleed,
            normal,
            displacement,
            albedo,
            metallicity,
            roughness,
        } => {
            match dims {
                EffectDims::Layer { originals, stop_dims } => {
                    match plan_layer(
                        entities,
                        materials,
                        substance.as_str(),
                        names,
                        normal,
                        displacement,
                        albedo,
                        metallicity,
                        roughness,
                        *surfel_lookup,
                        *island_bleed,
                        originals,
                        stop_dims,
                        iteration,
                        datetime,
                    ) {
                        Ok(plan) => Ok(EffectAction::Layer { plan }),
                        Err(e) => Err(e),
                    }
                },
                EffectDims::Plain => {
                    proof {
                        assert(false);
                    }
                    Err(Error::UnsupportedLookup)
                },
            }
        },
    }
}

/// Whether a channel is configured and its output size is determinable.
pub open spec fn channel_sized(
    blend_opt: Option<Blend>,
    original_dims: Option<(u32, u32)>,
    stop_dims: Seq<(u32, u32)>,
) -> bool {
    blend_opt is Some && spec_blend_output_size(
        blend_opt.unwrap().width,
        blend_opt.unwrap().height,
        original_dims,
        stop_dims,
    ) is Ok
}

/// Whether a channel is configured but its output size cannot be
/// determined.
pub open spec fn channel_size_undetermined(
    blend_opt: Option<Blend>,
    original_dims: Option<(u32, u32)>,
    stop_dims: Seq<(u32, u32)>,
) -> bool {
    blend_opt is Some && spec_blend_output_size(
        blend_opt.unwrap().width,
        blend_opt.unwrap().height,
        original_dims,
        stop_dims,
    ) is Err
}

/// Whether one channel's cache key can be derived: the channel is not
/// configured, or its output size is determinable and the lookup policy
/// is a nearest count.
pub open spec fn channel_key_achievable(
    blend_opt: Option<Blend>,
    original_dims: Option<(u32, u32)>,
    stop_dims: Seq<(u32, u32)>,
    surfel_lookup: SurfelLookup,
) -> bool {
    blend_opt is Some ==> channel_sized(blend_opt, original_dims, stop_dims) && surfel_lookup
        matches SurfelLookup::Nearest { .. }
}

/// Whether the keys of every configured channel of one entity can be
/// derived.
pub open spec fn entity_channels_achievable(
    normal: Option<Blend>,
    displacement: Option<Blend>,
    albedo: Option<Blend>,
    metallicity: Option<Blend>,
    roughness: Option<Blend>,
    originals: ChannelDims,
    stop_dims: ChannelStopDims,
    surfel_lookup: SurfelLookup,
) -> bool {
    &&& channel_key_achievable(normal, originals.normal, stop_dims.normal@, surfel_lookup)
    &&& channel_key_achievable(
        displacement,
        originals.displacement,
        stop_dims.displacement@,
        surfel_lookup,
    )
    &&& channel_key_achievable(albedo, originals.albedo, stop_dims.albedo@, surfel_lookup)
    &&& channel_key_achievable(
        metallicity,
        originals.metallicity,
        stop_dims.metallicity@,
        surfel_lookup,
    )
    &&& channel_key_achievable(roughness, originals.roughness, stop_dims.roughness@, surfel_lookup)
}

/// Whether deriving one entity's channel keys would run into the
/// unsupported within-radius policy: some configured, sized channel
/// stands under it.
pub open spec fn entity_within_cause(
    normal: Option<Blend>,
    displacement: Option<Blend>,
    albedo: Option<Blend>,
    metallicity: Option<Blend>,
    roughness: Option<Blend>,
    originals: ChannelDims,
    stop_dims: ChannelStopDims,
    surfel_lookup: SurfelLookup,
) -> bool {
    surfel_lookup matches SurfelLookup::Within { .. } && (channel_sized(
        normal,
        originals.normal,
        stop_dims.normal@,
    ) || channel_sized(displacement, originals.displacement, stop_dims.displacement@)
        || channel_sized(albedo, originals.albedo, stop_dims.albedo@) || channel_sized(
        metallicity,
        originals.metallicity,
        stop_dims.metallicity@,
    ) || channel_sized(roughness, originals.roughness, stop_dims.roughness@))
}

/// Whether deriving one entity's channel keys would run into an
/// undeterminable output size.
pub open spec fn entity_size_cause(
    normal: Option<Blend>,
    displacement: Option<Blend>,
    albedo: Option<Blend>,
    metallicity: Option<Blend>,
    roughness: Option<Blend>,
    originals: ChannelDims,
    stop_dims: ChannelStopDims,
) -> bool {
    ||| channel_size_undetermined(normal, originals.normal, stop_dims.normal@)
    ||| channel_size_undetermined(displacement, originals.displacement, stop_dims.displacement@)
    ||| channel_size_undetermined(albedo, originals.albedo, stop_dims.albedo@)
    ||| channel_size_undetermined(metallicity, originals.metallicity, stop_dims.metallicity@)
    ||| channel_size_undetermined(roughness, originals.roughness, stop_dims.roughness@)
}

/// Whether every key one effect derives can be derived: a density
/// effect over a non-empty entity list needs a nearest-count policy; a
/// layer effect needs, for every applicable entity, every configured
/// channel sized under a nearest-count policy. Other effects derive no
/// keys.
pub open spec fn effect_keys_achievable(
    effect: EffectSpec,
    dims: EffectDims,
    entities: Seq<EntityDesc>,
) -> bool {
    match effect {
        EffectSpec::Density { surfel_lookup, .. } => entities.len() > 0 ==> surfel_lookup
            matches SurfelLookup::Nearest { .. },
        EffectSpec::Layer {
            materials,
            surfel_lookup,
            normal,
            displacement,
            albedo,
            metallicity,
            roughness,
            ..
        } => match dims {
            EffectDims::Layer { originals, stop_dims } => forall|e: int|
                0 <= e < entities.len() && spec_entity_applicable(
                    #[trigger] entities[e],
                    materials@,
                ) ==> entity_channels_achievable(
                    normal,
                    displacement,
                    albedo,
                    metallicity,
                    roughness,
                    originals@[e],
                    stop_dims,
                    surfel_lookup,
                ),
            EffectDims::Plain => false,
        },
        _ => true,
    }
}

/// Whether one effect's key derivation would run into the within-radius
/// policy.
pub open spec fn effect_within_cause(
    effect: EffectSpec,
    dims: EffectDims,
    entities: Seq<EntityDesc>,
) -> bool {
    match effect {
        EffectSpec::Density { surfel_lookup, .. } => entities.len() > 0 && surfel_lookup
            matches SurfelLookup::Within { .. },
        EffectSpec::Layer {
            materials,
            surfel_lookup,
            normal,
            displacement,
            albedo,
            metallicity,
            roughness,
            ..
        } => match dims {
            EffectDims::Layer { originals, stop_dims } => exists|e: int|
                0 <= e < entities.len() && spec_entity_applicable(
                    #[trigger] entities[e],
                    materials@,
                ) && entity_within_cause(
                    normal,
                    displacement,
                    albedo,
                    metallicity,
                    roughness,
                    originals@[e],
                    stop_dims,
                    surfel_lookup,
                ),
            EffectDims::Plain => false,
        },
        _ => false,
    }
}

/// Whether one effect's key derivation would run into an undeterminable
/// output size.
pub open spec fn effect_size_cause(
    effect: EffectSpec,
    dims: EffectDims,
    entities: Seq<EntityDesc>,
) -> bool {
    match effect {
        EffectSpec::Layer {
            materials,
            normal,
            displacement,
            albedo,
            metallicity,
            roughness,
            ..
        } => match dims {
            EffectDims::Layer { originals, stop_dims } => exists|e: int|
                0 <= e < entities.len() && spec_entity_applicable(
                    #[trigger] entities[e],
                    materials@,
                ) && entity_size_cause(
                    normal,
                    displacement,
                    albedo,
                    metallicity,
                    roughness,
                    originals@[e],
                    stop_dims,
                ),
            EffectDims::Plain => false,
        },
        _ => false,
    }
}

/// Whether the cache key of one configured channel's lookups for one
/// entity is among `keys`.
pub open spec fn channel_key_covered(
    keys: Seq<crate::runner::surfel_table_cache::CacheKey>,
    blend_opt: Option<Blend>,
    original_dims: Option<(u32, u32)>,
    stop_dims: Seq<(u32, u32)>,
    surfel_lookup: SurfelLookup,
    island_bleed: usize,
    entity_idx: int,
) -> bool {
    blend_opt is Some ==> match spec_blend_output_size(
        blend_opt.unwrap().width,
        blend_opt.unwrap().height,
        original_dims,
        stop_dims,
    ) {
        Ok(wh) => surfel_lookup matches SurfelLookup::Nearest { count }
            && keys.contains(
            crate::runner::surfel_table_cache::CacheKey {
                entity_idx: entity_idx as usize,
                width: wh.0 as usize,
                height: wh.1 as usize,
                count,
                island_bleed,
            },
        ),
        Err(_) => false,
    }
}

/// Whether every lookup one effect derives during a run has its key
/// among `keys`: for a density effect, one key per entity at the
/// effect's resolution; for a layer effect, one key per applicable
/// entity and configured channel at that channel's output size. Other
/// effects derive no lookups.
pub open spec fn effect_keys_covered(
    keys: Seq<crate::runner::surfel_table_cache::CacheKey>,
    effect: EffectSpec,
    dims: EffectDims,
    entities: Seq<EntityDesc>,
) -> bool {
    match effect {
        EffectSpec::Density { width, height, surfel_lookup, island_bleed, .. } => match surfel_lookup {
            SurfelLookup::Nearest { count } => forall|e: int|
                0 <= e < entities.len() ==> #[trigger] keys.contains(
                    crate::runner::surfel_table_cache::CacheKey {
                        entity_idx: e as usize,
                        width,
                        height,
                        count,
                        island_bleed,
                    },
                ),
            SurfelLookup::Within { .. } => entities.len() == 0,
        },
        EffectSpec::Layer {
            materials,
            surfel_lookup,
            island_bleed,
            normal,
            displacement,
            albedo,
            metallicity,
            roughness,
            ..
        } => match dims {
            EffectDims::Layer { originals, stop_dims } => originals@.len() == entities.len()
                && forall|e: int|
                0 <= e < entities.len() && spec_entity_applicable(
                    #[trigger] entities[e],
                    materials@,
                ) ==> {
                    &&& channel_key_covered(
                        keys,
                        normal,
                        originals@[e].normal,
                        stop_dims.normal@,
                        surfel_lookup,
                        island_bleed,
                        e,
                    )
                    &&& channel_key_covered(
                        keys,
                        displacement,
                        originals@[e].displacement,
                        stop_dims.displacement@,
                        surfel_lookup,
                        island_bleed,
                        e,
                    )
                    &&& channel_key_covered(
                        keys,
                        albedo,
                        originals@[e].albedo,
                        stop_dims.albedo@,
                        surfel_lookup,
                        island_bleed,
                        e,
                    )
                    &&& channel_key_covered(
                        keys,
                        metallicity,
                        originals@[e].metallicity,
                        stop_dims.metallicity@,
                        surfel_lookup,
                        island_bleed,
                        e,
                    )
                    &&& channel_key_covered(
                        keys,
                        roughness,
                        originals@[e].roughness,
                        stop_dims.roughness@,
                        surfel_lookup,
                        island_bleed,
                        e,
                    )
                },
            EffectDims::Plain => false,
        },
        _ => true,
    }
}

/// A key set that covers a channel still covers it after more keys are
/// appended.
proof fn lemma_channel_covered_mono(
    s1: Seq<crate::runner::surfel_table_cache::CacheKey>,
    s2: Seq<crate::runner::surfel_table_cache::CacheKey>,
    blend_opt: Option<Blend>,
    original_dims: Option<(u32, u32)>,
    stop_dims: Seq<(u32, u32)>,
    surfel_lookup: SurfelLookup,
    island_bleed: usize,
    entity_idx: int,
)
    requires
        forall|x: crate::runner::surfel_table_cache::CacheKey|
            s1.contains(x) ==> s2.contains(x),
        channel_key_covered(
            s1,
            blend_opt,
            original_dims,
            stop_dims,
            surfel_lookup,
            island_bleed,
            entity_idx,
        ),
    ensures
        channel_key_covered(
            s2,
            blend_opt,
            original_dims,
            stop_dims,
            surfel_lookup,
            island_bleed,
            entity_idx,
        ),
{
}

/// A key set that covers an effect still covers it after more keys are
/// appended.
proof fn lemma_effect_covered_mono(
    s1: Seq<crate::runner::surfel_table_cache::CacheKey>,
    s2: Seq<crate::runner::surfel_table_cache::CacheKey>,
    effect: EffectSpec,
    dims: EffectDims,
    entities: Seq<EntityDesc>,
)
    requires
        forall|x: crate::runner::surfel_table_cache::CacheKey|
            s1.contains(x) ==> s2.contains(x),
        effect_keys_covered(s1, effect, dims, entities),
    ensures
        effect_keys_covered(s2, effect, dims, entities),
{
}

/// Walks the effect list once and collects the cache key of every
/// surfel-table lookup the run will derive: one key per entity for each
/// density effect, and one per applicable entity and configured channel
/// for each layer effect, at that channel's output size. A runner that
/// prepares exactly these keys before the first synthesis pass can
/// never hit a cache miss, so a lookup without a prior prepare stays
/// unreachable. Collecting the keys succeeds exactly when every key is
/// derivable; it fails only where some lookup actually stands under the
/// unsupported within-radius policy or some channel's output size
/// cannot be determined.
pub fn effect_table_keys(
    effects: &Vec<EffectSpec>,
    entities: &Vec<EntityDesc>,
    dims: &Vec<EffectDims>,
) -> (r: Result<Vec<crate::runner::surfel_table_cache::CacheKey>, Error>)
    requires
        dims@.len() == effects@.len(),
        forall|g: int|
            0 <= g < effects@.len() ==> ((#[trigger] effects@[g]) matches EffectSpec::Layer {
                ..
            } ==> (dims@[g] matches EffectDims::Layer { originals, .. } && originals@.len()
                == entities@.len())),
    ensures
        (r is Ok) <==> (forall|g: int|
            0 <= g < effects@.len() ==> effect_keys_achievable(
                #[trigger] effects@[g],
                dims@[g],
                entities@,
            )),
        match r {
            Ok(keys) => forall|g: int|
                0 <= g < effects@.len() ==> effect_keys_covered(
                    keys@,
                    #[trigger] effects@[g],
                    dims@[g],
                    entities@,
                ),
            Err(e) => (e == Error::UnsupportedLookup && (exists|g: int|
                0 <= g < effects@.len() && effect_within_cause(
                    #[trigger] effects@[g],
                    dims@[g],
                    entities@,
                ))) || (e == Error::UndeterminedOutputSize && (exists|g: int|
                0 <= g < effects@.len() && effect_size_cause(
                    #[trigger] effects@[g],
                    dims@[g],
                    entities@,
                ))),
        },
{
    let n_eff = effects.len();
    let n_ent = entities.len();
    let mut out: Vec<crate::runner::surfel_table_cache::CacheKey> = Vec::new();
    let mut f: usize = 0;
    while f < n_eff
        invariant
            f <= n_eff,
            n_eff == effects@.len(),
            n_ent == entities@.len(),
            dims@.len() == effects@.len(),
            forall|g: int|
                0 <= g < effects@.len() ==> ((#[trigger] effects@[g]) matches EffectSpec::Layer {
                    ..
                } ==> (dims@[g] matches EffectDims::Layer { originals, .. } && originals@.len()
                    == entities@.len())),
            forall|g: int|
                0 <= g < f ==> effect_keys_covered(
                    out@,
                    #[trigger] effects@[g],
                    dims@[g],
                    entities@,
                ),
        decreases n_eff - f,
    {
        let ghost pre = out@;
        let mut mine: Vec<crate::runner::surfel_table_cache::CacheKey> = Vec::new();
        match &effects[f] {
            EffectSpec::Density { width, height, surfel_lookup, island_bleed, .. } => {
                if n_ent > 0 {
                    let count = match surfel_lookup {
                        SurfelLookup::Nearest { count } => *count,
                        SurfelLookup::Within { .. } => {
                            return Err(Error::UnsupportedLookup);
                        },
                    };
                    let w = *width;
                    let h = *height;
                    let b = *island_bleed;
                    let mut e: usize = 0;
                    while e < n_ent
                        invariant
                            e <= n_ent,
                            mine@.len() == e,
                            forall|j: int|
                                0 <= j < e ==> mine@[j]
                                    == (crate::runner::surfel_table_cache::CacheKey {
                                    entity_idx: j as usize,
                                    width: w,
                                    height: h,
                                    count,
                                    island_bleed: b,
                                }),
                        decreases n_ent - e,
                    {
                        mine.push(
                            crate::runner::surfel_table_cache::CacheKey {
                                entity_idx: e,
                                width: w,
                                height: h,
                                count,
                                island_bleed: b,
                            },
                        );
                        e += 1;
                    }
                    proof {
                        assert forall|j: int| 0 <= j < n_ent implies #[trigger] mine@.contains(
                            crate::runner::surfel_table_cache::CacheKey {
                                entity_idx: j as usize,
                                width: w,
                                height: h,
                                count,
                                island_bleed: b,
                            },
                        ) by {
                            assert(mine@[j] == (crate::runner::surfel_table_cache::CacheKey {
                                entity_idx: j as usize,
                                width: w,
                                height: h,
                                count,
                                island_bleed: b,
                            }));
                        }
                        assert(effect_keys_covered(
                            mine@,
                            effects@[f as int],
                            dims@[f as int],
                            entities@,
                        ));
                    }
                } else {
                    proof {
                        assert(effect_keys_covered(
                            mine@,
                            effects@[f as int],
                            dims@[f as int],
                            entities@,
                        ));
                    }
                }
            },
            EffectSpec::Layer {
                materials,
                surfel_lookup,
                island_bleed,
                normal,
                displacement,
                albedo,
                metallicity,
                roughness,
                ..
            } => {
                let originals_dims = match &dims[f] {
                    EffectDims::Layer { originals, stop_dims } => (originals, stop_dims),
                    EffectDims::Plain => {
                        proof {
                            assert(false);
                        }
                        return Err(Error::UnsupportedLookup);
                    },
                };
                let (originals, stop_dims) = originals_dims;
                let lookup = *surfel_lookup;
                let b = *island_bleed;
                let mut e: usize = 0;
                while e < n_ent
                    invariant
                        e <= n_ent,
                        n_ent == entities@.len(),
                        originals@.len() == entities@.len(),
                        effects@[f as int] matches EffectSpec::Layer {
                            materials: mm,
                            surfel_lookup: sl,
                            island_bleed: ib,
                            normal: nn,
                            displacement: dd,
                            albedo: aa,
                            metallicity: met,
                            roughness: rr,
                            ..
                        } && mm == *materials && sl == lookup && ib == b && nn == *normal && dd
                            == *displacement && aa == *albedo && met == *metallicity && rr
                            == *roughness,
                        dims@[f as int] matches EffectDims::Layer {
                            originals: oo,
                            stop_dims: sd,
                        } && oo == *originals && sd == *stop_dims,
                        0 <= f < effects@.len(),
                        forall|j: int|
                            0 <= j < e && spec_entity_applicable(
                                #[trigger] entities@[j],
                                materials@,
                            ) ==> {
                                &&& channel_key_covered(
                                    mine@,
                                    *normal,
                                    originals@[j].normal,
                                    stop_dims.normal@,
                                    lookup,
                                    b,
                                    j,
                                )
                                &&& channel_key_covered(
                                    mine@,
                                    *displacement,
                                    originals@[j].displacement,
                                    stop_dims.displacement@,
                                    lookup,
                                    b,
                                    j,
                                )
                                &&& channel_key_covered(
                                    mine@,
                                    *albedo,
                                    originals@[j].albedo,
                                    stop_dims.albedo@,
                                    lookup,
                                    b,
                                    j,
                                )
                                &&& channel_key_covered(
                                    mine@,
                                    *metallicity,
                                    originals@[j].metallicity,
                                    stop_dims.metallicity@,
                                    lookup,
                                    b,
                                    j,
                                )
                                &&& channel_key_covered(
                                    mine@,
                                    *roughness,
                                    originals@[j].roughness,
                                    stop_dims.roughness@,
                                    lookup,
                                    b,
                                    j,
                                )
                            },
                    decreases n_ent - e,
                {
                    let ghost mine_pre = mine@;
                    if is_entity_applicable_for_materials(&entities[e], materials) {
                        match push_entity_keys(
                            &mut mine,
                            normal,
                            displacement,
                            albedo,
                            metallicity,
                            roughness,
                            originals[e],
                            stop_dims,
                            lookup,
                            b,
                            e,
                        ) {
                            Ok(()) => {},
                            Err(err) => {
                                return Err(err);
                            },
                        }
                    }
                    proof {
                        assert forall|x: crate::runner::surfel_table_cache::CacheKey|
                            mine_pre.contains(x) implies mine@.contains(x) by {
                            let i = choose|i: int|
                                0 <= i < mine_pre.len() && mine_pre[i] == x;
                            assert(mine@[i] == x);
                        }
                        assert forall|j: int|
                            0 <= j < e + 1 && spec_entity_applicable(
                                #[trigger] entities@[j],
                                materials@,
                            ) implies {
                            &&& channel_key_covered(
                                mine@,
                                *normal,
                                originals@[j].normal,
                                stop_dims.normal@,
                                lookup,
                                b,
                                j,
                            )
                            &&& channel_key_covered(
                                mine@,
                                *displacement,
                                originals@[j].displacement,
                                stop_dims.displacement@,
                                lookup,
                                b,
                                j,
                            )
                            &&& channel_key_covered(
                                mine@,
                                *albedo,
                                originals@[j].albedo,
                                stop_dims.albedo@,
                                lookup,
                                b,
                                j,
                            )
                            &&& channel_key_covered(
                                mine@,
                                *metallicity,
                                originals@[j].metallicity,
                                stop_dims.metallicity@,
                                lookup,
                                b,
                                j,
                            )
                            &&& channel_key_covered(
                                mine@,
                                *roughness,
                                originals@[j].roughness,
                                stop_dims.roughness@,
                                lookup,
                                b,
                                j,
                            )
                        } by {
                            if j < e {
                                lemma_channel_covered_mono(
                                    mine_pre,
                                    mine@,
                                    *normal,
                                    originals@[j].normal,
                                    stop_dims.normal@,
                                    lookup,
                                    b,
                                    j,
                                );
                                lemma_channel_covered_mono(
                                    mine_pre,
                                    mine@,
                                    *displacement,
                                    originals@[j].displacement,
                                    stop_dims.displacement@,
                                    lookup,
                                    b,
                                    j,
                                );
                                lemma_channel_covered_mono(
                                    mine_pre,
                                    mine@,
                                    *albedo,
                                    originals@[j].albedo,
                                    stop_dims.albedo@,
                                    lookup,
                                    b,
                                    j,
                                );
                                lemma_channel_covered_mono(
                                    mine_pre,
                                    mine@,
                                    *metallicity,
                                    originals@[j].metallicity,
                                    stop_dims.metallicity@,
                                    lookup,
                                    b,
                                    j,
                                );
                                lemma_channel_covered_mono(
                                    mine_pre,
                                    mine@,
                                    *roughness,
                                    originals@[j].roughness,
                                    stop_dims.roughness@,
                                    lookup,
                                    b,
                                    j,
                                );
                            }
                        }
                    }
                    e += 1;
                }
                proof {
                    assert(effect_keys_covered(
                        mine@,
                        effects@[f as int],
                        dims@[f as int],
                        entities@,
                    ));
                }
            },
            EffectSpec::Export { .. } => {
                proof {
                    assert(effect_keys_covered(
                        mine@,
                        effects@[f as int],
                        dims@[f as int],
                        entities@,
                    ));
                }
            },
            EffectSpec::DumpSurfels { .. } => {
                proof {
                    assert(effect_keys_covered(
                        mine@,
                        effects@[f as int],
                        dims@[f as int],
                        entities@,
                    ));
                }
            },
        }
        let ghost mine_final = mine@;
        out.append(&mut mine);
        proof {
            assert forall|x: crate::runner::surfel_table_cache::CacheKey|
                pre.contains(x) implies out@.contains(x) by {
                let i = choose|i: int| 0 <= i < pre.len() && pre[i] == x;
                assert(out@[i] == x);
            }
            assert forall|x: crate::runner::surfel_table_cache::CacheKey|
                mine_final.contains(x) implies out@.contains(x) by {
                let i = choose|i: int| 0 <= i < mine_final.len() && mine_final[i] == x;
                assert(out@[pre.len() + i] == x);
            }
            assert forall|g: int|
                0 <= g < f + 1 implies effect_keys_covered(
                out@,
                #[trigger] effects@[g],
                dims@[g],
                entities@,
            ) by {
                if g < f {
                    lemma_effect_covered_mono(pre, out@, effects@[g], dims@[g], entities@);
                } else {
                    lemma_effect_covered_mono(
                        mine_final,
                        out@,
                        effects@[g],
                        dims@[g],
                        entities@,
                    );
                }
            }
        }
        f += 1;
    }
    Ok(out)
}

/// Derives and appends the cache keys of every configured channel of
/// one applicable entity.
fn push_entity_keys(
    keys: &mut Vec<crate::runner::surfel_table_cache::CacheKey>,
    normal: &Option<Blend>,
    displacement: &Option<Blend>,
    albedo: &Option<Blend>,
    metallicity: &Option<Blend>,
    roughness: &Option<Blend>,
    originals: ChannelDims,
    stop_dims: &ChannelStopDims,
    surfel_lookup: SurfelLookup,
    island_bleed: usize,
    entity_idx: usize,
) -> (r: Result<(), Error>)
    ensures
        match r {
            Ok(()) => {
                &&& old(keys)@.len() <= final (keys)@.len()
                &&& forall|i: int| 0 <= i < old(keys)@.len() ==> final (keys)@[i] == old(keys)@[i]
                &&& channel_key_covered(
                    final (keys)@,
                    *normal,
                    originals.normal,
                    stop_dims.normal@,
                    surfel_lookup,
                    island_bleed,
                    entity_idx as int,
                )
                &&& channel_key_covered(
                    final (keys)@,
                    *displacement,
                    originals.displacement,
                    stop_dims.displacement@,
                    surfel_lookup,
                    island_bleed,
                    entity_idx as int,
                )
                &&& channel_key_covered(
                    final (keys)@,
                    *albedo,
                    originals.albedo,
                    stop_dims.albedo@,
                    surfel_lookup,
                    island_bleed,
                    entity_idx as int,
                )
                &&& channel_key_covered(
                    final (keys)@,
                    *metallicity,
                    originals.metallicity,
                    stop_dims.metallicity@,
                    surfel_lookup,
                    island_bleed,
                    entity_idx as int,
                )
                &&& channel_key_covered(
                    final (keys)@,
                    *roughness,
                    originals.roughness,
                    stop_dims.roughness@,
                    surfel_lookup,
                    island_bleed,
                    entity_idx as int,
                )
            },
            Err(e) => (e == Error::UnsupportedLookup && entity_within_cause(
                *normal,
                *displacement,
                *albedo,
                *metallicity,
                *roughness,
                originals,
                *stop_dims,
                surfel_lookup,
            )) || (e == Error::UndeterminedOutputSize && entity_size_cause(
                *normal,
                *displacement,
                *albedo,
                *metallicity,
                *roughness,
                originals,
                *stop_dims,
            )),
        },
{
    match push_channel_key(
        keys,
        normal,
        originals.normal,
        &stop_dims.normal,
        surfel_lookup,
        island_bleed,
        entity_idx,
    ) {
        Ok(()) => {},
        Err(e) => {
            return Err(e);
        },
    }
    let ghost s1 = keys@;
    match push_channel_key(
        keys,
        displacement,
        originals.displacement,
        &stop_dims.displacement,
        surfel_lookup,
        island_bleed,
        entity_idx,
    ) {
        Ok(()) => {},
        Err(e) => {
            return Err(e);
        },
    }
    let ghost s2 = keys@;
    match push_channel_key(
        keys,
        albedo,
        originals.albedo,
        &stop_dims.albedo,
        surfel_lookup,
        island_bleed,
        entity_idx,
    ) {
        Ok(()) => {},
        Err(e) => {
            return Err(e);
        },
    }
    let ghost s3 = keys@;
    match push_channel_key(
        keys,
        metallicity,
        originals.metallicity,
        &stop_dims.metallicity,
        surfel_lookup,
        island_bleed,
        entity_idx,
    ) {
        Ok(()) => {},
        Err(e) => {
            return Err(e);
        },
    }
    let ghost s4 = keys@;
    match push_channel_key(
        keys,
        roughness,
        originals.roughness,
        &stop_dims.roughness,
        surfel_lookup,
        island_bleed,
        entity_idx,
    ) {
        Ok(()) => {},
        Err(e) => {
            return Err(e);
        },
    }
    proof {
        // Every earlier channel's key survives the later appends.
        assert forall|x: crate::runner::surfel_table_cache::CacheKey| s1.contains(x)
            implies keys@.contains(x) by {
            let i = choose|i: int| 0 <= i < s1.len() && s1[i] == x;
            assert(keys@[i] == x);
        }
        assert forall|x: crate::runner::surfel_table_cache::CacheKey| s2.contains(x)
            implies keys@.contains(x) by {
            let i = choose|i: int| 0 <= i < s2.len() && s2[i] == x;
            assert(keys@[i] == x);
        }
        assert forall|x: crate::runner::surfel_table_cache::CacheKey| s3.contains(x)
            implies keys@.contains(x) by {
            let i = choose|i: int| 0 <= i < s3.len() && s3[i] == x;
            assert(keys@[i] == x);
        }
        assert forall|x: crate::runner::surfel_table_cache::CacheKey| s4.contains(x)
            implies keys@.contains(x) by {
            let i = choose|i: int| 0 <= i < s4.len() && s4[i] == x;
            assert(keys@[i] == x);
        }
        lemma_channel_covered_mono(
            s1,
            keys@,
            *normal,
            originals.normal,
            stop_dims.normal@,
            surfel_lookup,
            island_bleed,
            entity_idx as int,
        );
        lemma_channel_covered_mono(
            s2,
            keys@,
            *displacement,
            originals.displacement,
            stop_dims.displacement@,
            surfel_lookup,
            island_bleed,
            entity_idx as int,
        );
        lemma_channel_covered_mono(
            s3,
            keys@,
            *albedo,
            originals.albedo,
            stop_dims.albedo@,
            surfel_lookup,
            island_bleed,
            entity_idx as int,
        );
        lemma_channel_covered_mono(
            s4,
            keys@,
            *metallicity,
            originals.metallicity,
            stop_dims.metallicity@,
            surfel_lookup,
            island_bleed,
            entity_idx as int,
        );
    }
    Ok(())
}

/// Derives the cache key of one configured channel for one entity and
/// appends it, or reports why none can be derived.
fn push_channel_key(
    keys: &mut Vec<crate::runner::surfel_table_cache::CacheKey>,
    blend_opt: &Option<Blend>,
    original_dims: Option<(u32, u32)>,
    stop_dims: &Vec<(u32, u32)>,
    surfel_lookup: SurfelLookup,
    island_bleed: usize,
    entity_idx: usize,
) -> (r: Result<(), Error>)
    ensures
        match r {
            Ok(()) => channel_key_covered(
                final (keys)@,
                *blend_opt,
                original_dims,
                stop_dims@,
                surfel_lookup,
                island_bleed,
                entity_idx as int,
            ) && old(keys)@.len() <= final (keys)@.len() && forall|i: int|
                0 <= i < old(keys)@.len() ==> final (keys)@[i] == old(keys)@[i],
            Err(e) => (e == Error::UndeterminedOutputSize && channel_size_undetermined(
                *blend_opt,
                original_dims,
                stop_dims@,
            )) || (e == Error::UnsupportedLookup && channel_sized(
                *blend_opt,
                original_dims,
                stop_dims@,
            ) && surfel_lookup matches SurfelLookup::Within { .. }),
        },
{
    let blend = match blend_opt {
        Some(b) => b,
        None => {
            return Ok(());
        },
    };
    let (w, h) = match blend_output_size(blend, original_dims, stop_dims) {
        Ok(wh) => wh,
        Err(e) => {
            return Err(e);
        },
    };
    let count = match surfel_lookup {
        SurfelLookup::Nearest { count } => count,
        SurfelLookup::Within { .. } => {
            return Err(Error::UnsupportedLookup);
        },
    };
    let key = crate::runner::surfel_table_cache::CacheKey {
        entity_idx,
        width: w as usize,
        height: h as usize,
        count,
        island_bleed,
    };
    let ghost pre = keys@;
    keys.push(key);
    proof {
        assert(keys@[pre.len() as int] == key);
        assert(keys@.contains(key));
    }
    Ok(())
}

} // verus!
