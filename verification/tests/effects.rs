use aitios_cli::builder::err::Error;
use aitios_cli::entity::{EntityDesc, MaterialDesc};
use aitios_cli::runner::effects::{
    blend_output_size, channel_blend_type, density_jobs, export_filenames,
    is_entity_applicable_for_materials, layer_channels, material_channel_map, material_with_map,
    plan_blend, stop_plan, substitute_pattern, substitute_surfel_obj_pattern, BlendType,
    ChannelKind,
};
use aitios_cli::runner::runner::schedule;
use aitios_cli::specs::{Blend, Stop, SurfelLookup};

fn material(name: &str) -> MaterialDesc {
    MaterialDesc {
        name: String::from(name),
        diffuse_color_map: None,
        normal_map: None,
        displacement_map: None,
        metallic_map: None,
        roughness_map: None,
    }
}

fn entity(name: &str, material_name: &str) -> EntityDesc {
    EntityDesc {
        name: String::from(name),
        material: material(material_name),
    }
}

fn blend(stops: Vec<Stop>) -> Blend {
    Blend {
        width: None,
        height: None,
        stops,
        influence: 1.0f32.to_bits(),
        tex_pattern: String::from("out/{entity}-{substance}-{iteration}.png"),
    }
}

#[test]
fn tokens_are_substituted_textually() {
    let name = substitute_pattern(
        "test-output/test-{datetime}/iteration-{iteration}/{id}-{entity}-{substance}.png",
        3,
        7,
        "statue",
        "rust",
        "2018-07-17T18_06_53",
    );
    assert_eq!(
        name,
        "test-output/test-2018-07-17T18_06_53/iteration-3/7-statue-rust.png"
    );
}

#[test]
fn surfel_dump_path_substitutes_iteration_and_datetime() {
    let name = substitute_surfel_obj_pattern("surfels-{iteration}-{datetime}.obj", 2, "NOW");
    assert_eq!(name, "surfels-2-NOW.obj");
}

// One Density effect of 64 by 64, substances {humidity, rust}, one
// entity, one iteration: the pipeline runs at iteration 0 and at the
// forced last iteration 1, and each run renders one texture per
// substance and entity: four textures of 64 by 64 in all.
#[test]
fn density_scenario_renders_four_textures() {
    let entities = vec![entity("statue", "bronze")];
    let names = vec![String::from("humidity"), String::from("rust")];
    let pattern = "out/{datetime}/iteration-{iteration}/{id}-{entity}-{substance}.png";
    let (width, height) = (64usize, 64usize);

    let steps = schedule(1, &None);
    let mut textures: Vec<(String, usize, usize)> = Vec::new();
    for step in steps.iter().filter(|s| s.synthesize) {
        for job in density_jobs(&entities, &names, width, height, 2, step.iteration, "D", pattern) {
            textures.push((job.tex_filename, job.width, job.height));
        }
    }

    assert_eq!(textures.len(), 4);
    assert!(textures.iter().all(|(_, w, h)| *w == 64 && *h == 64));
    let filenames: Vec<&str> = textures.iter().map(|(f, _, _)| f.as_str()).collect();
    assert_eq!(
        filenames,
        vec![
            "out/D/iteration-0/0-statue-humidity.png",
            "out/D/iteration-0/0-statue-rust.png",
            "out/D/iteration-1/0-statue-humidity.png",
            "out/D/iteration-1/0-statue-rust.png",
        ]
    );
}

#[test]
fn density_jobs_name_replacement_materials() {
    let jobs = density_jobs(
        &vec![entity("statue", "bronze")],
        &vec![String::from("rust")],
        32,
        32,
        2,
        0,
        "D",
        "{substance}.png",
    );
    assert_eq!(jobs.len(), 1);
    assert_eq!(jobs[0].material_name, "rust-density-0-statue");
}

#[test]
fn export_needs_both_patterns_or_none() {
    let obj = Some(String::from("iter-{iteration}/{substance}.obj"));
    let mtl = Some(String::from("iter-{iteration}/{substance}.mtl"));
    let both = export_filenames(&obj, &mtl, 2, "all", "D").unwrap().unwrap();
    assert_eq!(both.0, "iter-2/all.obj");
    assert_eq!(both.1, "iter-2/all.mtl");

    assert!(export_filenames(&None, &None, 2, "all", "D")
        .unwrap()
        .is_none());
    assert!(matches!(
        export_filenames(&obj, &None, 2, "all", "D"),
        Err(Error::ExportPatternIncomplete)
    ));
}

#[test]
fn material_allow_list_admits_empty_underscore_and_exact() {
    let e = entity("statue", "bronze");
    assert!(is_entity_applicable_for_materials(&e, &vec![]));
    assert!(is_entity_applicable_for_materials(
        &e,
        &vec![String::from("_")]
    ));
    assert!(is_entity_applicable_for_materials(
        &e,
        &vec![String::from("stone"), String::from("bronze")]
    ));
    assert!(!is_entity_applicable_for_materials(
        &e,
        &vec![String::from("stone")]
    ));
}

#[test]
fn output_size_prefers_explicit_then_original_then_largest_stop() {
    let mut b = blend(vec![]);
    b.width = Some(256);
    assert_eq!(blend_output_size(&b, None, &vec![]).unwrap(), (256, 256));
    b.height = Some(128);
    assert_eq!(blend_output_size(&b, None, &vec![]).unwrap(), (256, 128));

    let b = blend(vec![]);
    assert_eq!(
        blend_output_size(&b, Some((512, 512)), &vec![(64, 64)]).unwrap(),
        (512, 512)
    );
    assert_eq!(
        blend_output_size(&b, None, &vec![(64, 64), (128, 32), (128, 64)]).unwrap(),
        (128, 64)
    );
    assert!(matches!(
        blend_output_size(&b, None, &vec![]),
        Err(Error::UndeterminedOutputSize)
    ));
}

#[test]
fn original_texture_becomes_the_implicit_zero_stop() {
    let b = blend(vec![Stop {
        sample: Some(String::from("rusty.png")),
        cenith: 1.0f32.to_bits(),
    }]);
    let planned = stop_plan(&b, &Some(String::from("base.png"))).unwrap();
    assert_eq!(planned.len(), 2);
    assert_eq!(planned[0].cenith, 0.0f32.to_bits());
    assert_eq!(planned[0].texture, "base.png");
    assert_eq!(planned[1].texture, "rusty.png");

    // An explicit stop at zero suppresses the implicit one.
    let b = blend(vec![Stop {
        sample: Some(String::from("dry.png")),
        cenith: 0.0f32.to_bits(),
    }]);
    let planned = stop_plan(&b, &Some(String::from("base.png"))).unwrap();
    assert_eq!(planned.len(), 1);
    assert_eq!(planned[0].texture, "dry.png");
}

#[test]
fn stops_fall_back_to_the_original_texture() {
    let b = blend(vec![Stop {
        sample: None,
        cenith: 1.0f32.to_bits(),
    }]);
    let planned = stop_plan(&b, &Some(String::from("base.png"))).unwrap();
    // Implicit stop at zero plus the sample-less stop reusing the base.
    assert_eq!(planned.len(), 2);
    assert_eq!(planned[1].texture, "base.png");
}

#[test]
fn blends_without_stops_or_textures_are_fatal() {
    let b = blend(vec![]);
    assert!(matches!(stop_plan(&b, &None), Err(Error::NoBlendStops)));

    let b = blend(vec![
        Stop {
            sample: Some(String::from("a.png")),
            cenith: 0.0f32.to_bits(),
        },
        Stop {
            sample: None,
            cenith: 1.0f32.to_bits(),
        },
    ]);
    assert!(matches!(
        stop_plan(&b, &None),
        Err(Error::MissingStopTexture { stop_index: 1 })
    ));
}

#[test]
fn layer_channels_come_in_application_order() {
    let n = blend(vec![]);
    let r = blend(vec![]);
    let channels = layer_channels(&Some(n), &None, &None, &None, &Some(r));
    assert_eq!(channels.len(), 2);
    assert_eq!(channels[0].0, ChannelKind::Normal);
    assert_eq!(channels[1].0, ChannelKind::Roughness);
    assert_eq!(channel_blend_type(ChannelKind::Normal), BlendType::Normal);
    assert_eq!(channel_blend_type(ChannelKind::Albedo), BlendType::Linear);
}

#[test]
fn channel_updates_accumulate_on_the_material() {
    let m = material("bronze");
    let m = material_with_map(&m, ChannelKind::Normal, String::from("n.png"));
    let m = material_with_map(&m, ChannelKind::Roughness, String::from("r.png"));
    assert_eq!(m.name, "bronze");
    assert_eq!(
        material_channel_map(&m, ChannelKind::Normal).as_deref(),
        Some("n.png")
    );
    assert_eq!(
        material_channel_map(&m, ChannelKind::Roughness).as_deref(),
        Some("r.png")
    );
    assert_eq!(material_channel_map(&m, ChannelKind::Albedo), None);
}

#[test]
fn plan_blend_carries_size_stops_and_filename() {
    let b = blend(vec![Stop {
        sample: Some(String::from("rusty.png")),
        cenith: 1.0f32.to_bits(),
    }]);
    let job = plan_blend(
        &b,
        ChannelKind::Albedo,
        &Some(String::from("base.png")),
        Some((128, 64)),
        &vec![(32, 32)],
        SurfelLookup::Nearest { count: 6 },
        2,
        5,
        3,
        "statue",
        "rust",
        "D",
    )
    .unwrap();
    assert_eq!((job.width, job.height), (128, 64));
    assert_eq!(job.count, 6);
    assert_eq!(job.island_bleed, 2);
    assert_eq!(job.entity_idx, 3);
    assert_eq!(job.blend_type, BlendType::Linear);
    assert_eq!(job.stops.len(), 2);
    assert_eq!(job.tex_filename, "out/statue-rust-5.png");

    assert!(matches!(
        plan_blend(
            &b,
            ChannelKind::Albedo,
            &None,
            None,
            &vec![(32, 32)],
            SurfelLookup::Within {
                within: 0.1f32.to_bits()
            },
            2,
            5,
            3,
            "statue",
            "rust",
            "D",
        ),
        Err(Error::UnsupportedLookup)
    ));
}
