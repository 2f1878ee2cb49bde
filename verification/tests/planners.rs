use aitios_cli::builder::err::Error;
use aitios_cli::entity::{EntityDesc, MaterialDesc};
use aitios_cli::runner::effects::{
    effect_table_keys, plan_effect, plan_layer, ChannelDims, ChannelStopDims, EffectAction,
    EffectDims,
};
use aitios_cli::specs::{Blend, EffectSpec, Stop, SurfelLookup};

fn material(name: &str) -> MaterialDesc {
    MaterialDesc {
        name: String::from(name),
        diffuse_color_map: None,
        normal_map: None,
        displacement_map: None,
        metallic_map: None,
        roughness_map: None,
    }
}

fn entity(name: &str, material_name: &str) -> EntityDesc {
    EntityDesc {
        name: String::from(name),
        material: material(material_name),
    }
}

fn blend(pattern: &str, stops: Vec<Stop>) -> Blend {
    Blend {
        width: Some(32),
        height: Some(32),
        stops,
        influence: 1.0f32.to_bits(),
        tex_pattern: String::from(pattern),
    }
}

fn rusty_stop() -> Stop {
    Stop {
        sample: Some(String::from("rusty.png")),
        cenith: 1.0f32.to_bits(),
    }
}

fn no_dims() -> ChannelDims {
    ChannelDims {
        normal: None,
        displacement: None,
        albedo: None,
        metallicity: None,
        roughness: None,
    }
}

fn no_stop_dims() -> ChannelStopDims {
    ChannelStopDims {
        normal: vec![],
        displacement: vec![],
        albedo: vec![],
        metallicity: vec![],
        roughness: vec![],
    }
}

#[test]
fn layer_rewrites_applicable_entities_and_spares_the_rest() {
    let entities = vec![entity("statue", "bronze"), entity("bench", "wood")];
    let names = vec![String::from("humidity"), String::from("rust")];
    let normal = Some(blend("n-{entity}-{iteration}.png", vec![rusty_stop()]));
    let roughness = Some(blend("r-{entity}-{iteration}.png", vec![rusty_stop()]));

    let lp = plan_layer(
        &entities,
        &vec![String::from("bronze")],
        "rust",
        &names,
        &normal,
        &None,
        &None,
        &None,
        &roughness,
        SurfelLookup::Nearest { count: 6 },
        2,
        &vec![no_dims(), no_dims()],
        &no_stop_dims(),
        3,
        "D",
    )
    .expect("a well-formed layer effect plans");

    assert_eq!(lp.substance_idx, 1);
    assert_eq!(lp.entities.len(), 2);
    assert_eq!(lp.plans.len(), 2);

    // The bronze statue gets both channels accumulated on one material.
    let statue = &lp.entities[0];
    assert_eq!(statue.name, "statue");
    assert_eq!(statue.material.normal_map.as_deref(), Some("n-statue-3.png"));
    assert_eq!(
        statue.material.roughness_map.as_deref(),
        Some("r-statue-3.png")
    );
    assert_eq!(statue.material.diffuse_color_map, None);
    let statue_plan = lp.plans[0].as_ref().expect("bronze is applicable");
    let normal_job = statue_plan.normal.as_ref().expect("normal configured");
    assert_eq!((normal_job.width, normal_job.height), (32, 32));
    assert_eq!(normal_job.count, 6);
    assert_eq!(normal_job.tex_filename, "n-statue-3.png");
    assert!(statue_plan.albedo.is_none());

    // The wooden bench is not in the allow-list: untouched, no plan.
    assert_eq!(lp.entities[1].material.normal_map, None);
    assert!(lp.plans[1].is_none());
}

#[test]
fn layer_with_unknown_substance_is_fatal() {
    let entities = vec![entity("statue", "bronze")];
    let names = vec![String::from("humidity")];
    match plan_layer(
        &entities,
        &vec![],
        "plutonium",
        &names,
        &Some(blend("n.png", vec![rusty_stop()])),
        &None,
        &None,
        &None,
        &None,
        SurfelLookup::Nearest { count: 6 },
        2,
        &vec![no_dims()],
        &no_stop_dims(),
        0,
        "D",
    ) {
        Err(Error::UnknownSubstanceName(n)) => assert_eq!(n, "plutonium"),
        _ => panic!("a layer substance absent from the table must be fatal"),
    }
}

#[test]
fn layer_channel_failures_surface() {
    let entities = vec![entity("statue", "bronze")];
    let names = vec![String::from("rust")];
    // No stops and no original texture on the channel: nothing to blend.
    let empty = Some(blend("n.png", vec![]));
    let r = plan_layer(
        &entities,
        &vec![],
        "rust",
        &names,
        &empty,
        &None,
        &None,
        &None,
        &None,
        SurfelLookup::Nearest { count: 6 },
        2,
        &vec![no_dims()],
        &no_stop_dims(),
        0,
        "D",
    );
    assert!(matches!(r, Err(Error::NoBlendStops)));
}

#[test]
fn effect_dispatch_plans_density_with_per_substance_exports() {
    let effect = EffectSpec::Density {
        width: 64,
        height: 64,
        surfel_lookup: SurfelLookup::Nearest { count: 6 },
        island_bleed: 2,
        tex_pattern: String::from("{substance}-{id}.png"),
        obj_pattern: Some(String::from("{substance}.obj")),
        mtl_pattern: Some(String::from("{substance}.mtl")),
    };
    let entities = vec![entity("statue", "bronze")];
    let names = vec![String::from("humidity"), String::from("rust")];
    match plan_effect(&effect, &entities, &names, &EffectDims::Plain, 1, "D").unwrap() {
        EffectAction::Density { jobs, exports } => {
            assert_eq!(jobs.len(), 2);
            assert_eq!(jobs[0].tex_filename, "humidity-0.png");
            assert_eq!((jobs[0].width, jobs[0].height), (64, 64));
            let exports = exports.expect("both patterns configured");
            assert_eq!(
                exports,
                vec![
                    (String::from("humidity.obj"), String::from("humidity.mtl")),
                    (String::from("rust.obj"), String::from("rust.mtl")),
                ]
            );
        }
        _ => panic!("a density effect plans a density action"),
    }
}

#[test]
fn effect_dispatch_rejects_half_configured_density_export() {
    let effect = EffectSpec::Density {
        width: 64,
        height: 64,
        surfel_lookup: SurfelLookup::Nearest { count: 6 },
        island_bleed: 2,
        tex_pattern: String::from("{substance}.png"),
        obj_pattern: Some(String::from("{substance}.obj")),
        mtl_pattern: None,
    };
    let r = plan_effect(
        &effect,
        &vec![],
        &vec![String::from("rust")],
        &EffectDims::Plain,
        0,
        "D",
    );
    assert!(matches!(r, Err(Error::ExportPatternIncomplete)));
}

#[test]
fn effect_dispatch_plans_exports_and_surfel_dumps() {
    let export = EffectSpec::Export {
        obj_pattern: Some(String::from("iter-{iteration}-{substance}.obj")),
        mtl_pattern: Some(String::from("iter-{iteration}-{substance}.mtl")),
    };
    match plan_effect(&export, &vec![], &vec![], &EffectDims::Plain, 4, "D").unwrap() {
        EffectAction::Export { filenames } => {
            let (obj, mtl) = filenames.expect("patterns configured");
            // The export effect writes the scene once, for all substances.
            assert_eq!(obj, "iter-4-all.obj");
            assert_eq!(mtl, "iter-4-all.mtl");
        }
        _ => panic!("an export effect plans an export action"),
    }

    let dump = EffectSpec::DumpSurfels {
        obj_pattern: String::from("surfels-{iteration}-{datetime}.obj"),
    };
    match plan_effect(&dump, &vec![], &vec![], &EffectDims::Plain, 2, "NOW").unwrap() {
        EffectAction::DumpSurfels { filename } => assert_eq!(filename, "surfels-2-NOW.obj"),
        _ => panic!("a dump effect plans a dump action"),
    }
}

#[test]
fn table_keys_cover_density_and_layer_lookups() {
    let density = EffectSpec::Density {
        width: 64,
        height: 64,
        surfel_lookup: SurfelLookup::Nearest { count: 6 },
        island_bleed: 2,
        tex_pattern: String::from("{substance}.png"),
        obj_pattern: None,
        mtl_pattern: None,
    };
    let layer = EffectSpec::Layer {
        materials: vec![String::from("bronze")],
        substance: String::from("rust"),
        surfel_lookup: SurfelLookup::Nearest { count: 9 },
        island_bleed: 1,
        normal: Some(blend("n.png", vec![rusty_stop()])),
        displacement: None,
        albedo: None,
        metallicity: None,
        roughness: None,
    };
    let entities = vec![entity("statue", "bronze"), entity("bench", "wood")];
    let dims = vec![
        EffectDims::Plain,
        EffectDims::Layer {
            originals: vec![no_dims(), no_dims()],
            stop_dims: no_stop_dims(),
        },
    ];
    let keys = effect_table_keys(&vec![density, layer], &entities, &dims).unwrap();

    // Two density keys (one per entity) and one layer key (only the
    // bronze statue is applicable, one channel configured).
    assert_eq!(keys.len(), 3);
    assert!(keys
        .iter()
        .any(|k| k.entity_idx == 0 && k.width == 64 && k.count == 6 && k.island_bleed == 2));
    assert!(keys
        .iter()
        .any(|k| k.entity_idx == 1 && k.width == 64 && k.count == 6 && k.island_bleed == 2));
    // The layer blend fixes 32 by 32 explicitly.
    assert!(keys
        .iter()
        .any(|k| k.entity_idx == 0 && k.width == 32 && k.count == 9 && k.island_bleed == 1));
    assert!(!keys.iter().any(|k| k.entity_idx == 1 && k.count == 9));
}

#[test]
fn table_keys_succeed_where_no_key_is_derived() {
    // A within-radius layer effect whose allow-list matches no entity
    // derives no key, so collecting the keys is owed to succeed; the
    // same holds for a within-radius density effect over no entities.
    let layer = EffectSpec::Layer {
        materials: vec![String::from("marble")],
        substance: String::from("rust"),
        surfel_lookup: SurfelLookup::Within {
            within: 0.5f32.to_bits(),
        },
        island_bleed: 2,
        normal: Some(blend("n.png", vec![rusty_stop()])),
        displacement: None,
        albedo: None,
        metallicity: None,
        roughness: None,
    };
    let density = EffectSpec::Density {
        width: 64,
        height: 64,
        surfel_lookup: SurfelLookup::Within {
            within: 0.5f32.to_bits(),
        },
        island_bleed: 2,
        tex_pattern: String::from("{substance}.png"),
        obj_pattern: None,
        mtl_pattern: None,
    };
    let entities = vec![entity("statue", "bronze")];
    let keys = effect_table_keys(
        &vec![layer],
        &entities,
        &vec![EffectDims::Layer {
            originals: vec![no_dims()],
            stop_dims: no_stop_dims(),
        }],
    )
    .expect("no applicable entity, so no key is derived");
    assert!(keys.is_empty());

    let keys = effect_table_keys(&vec![density], &vec![], &vec![EffectDims::Plain])
        .expect("no entity, so no key is derived");
    assert!(keys.is_empty());
}

#[test]
fn table_keys_report_unachievable_lookups() {
    let within = EffectSpec::Density {
        width: 64,
        height: 64,
        surfel_lookup: SurfelLookup::Within {
            within: 0.5f32.to_bits(),
        },
        island_bleed: 2,
        tex_pattern: String::from("{substance}.png"),
        obj_pattern: None,
        mtl_pattern: None,
    };
    let r = effect_table_keys(
        &vec![within],
        &vec![entity("statue", "bronze")],
        &vec![EffectDims::Plain],
    );
    assert!(matches!(r, Err(Error::UnsupportedLookup)));

    // A layer channel without any size source cannot derive its key.
    let mut sizeless = blend("n.png", vec![rusty_stop()]);
    sizeless.width = None;
    sizeless.height = None;
    let layer = EffectSpec::Layer {
        materials: vec![],
        substance: String::from("rust"),
        surfel_lookup: SurfelLookup::Nearest { count: 6 },
        island_bleed: 2,
        normal: Some(sizeless),
        displacement: None,
        albedo: None,
        metallicity: None,
        roughness: None,
    };
    let r = effect_table_keys(
        &vec![layer],
        &vec![entity("statue", "bronze")],
        &vec![EffectDims::Layer {
            originals: vec![no_dims()],
            stop_dims: no_stop_dims(),
        }],
    );
    assert!(matches!(r, Err(Error::UndeterminedOutputSize)));
}
