use aitios_cli::builder::err::Error;
use aitios_cli::builder::instantiate::{
    build_sources, extract_keys, filter_entities, instantiate, rule_by_spec, transport_mode,
    unique_substance_names, SurfelRule,
};
use aitios_cli::entity::{EntityDesc, MaterialDesc};
use aitios_cli::specs::{
    EffectSpec, SimulationSpec, SurfelRuleSpec, SurfelSpec, TonReflectance, TonSourceSpec,
    Transport, Vector3,
};

fn material(name: &str) -> MaterialDesc {
    MaterialDesc {
        name: String::from(name),
        diffuse_color_map: None,
        normal_map: None,
        displacement_map: None,
        metallic_map: None,
        roughness_map: None,
    }
}

fn entity(name: &str, material_name: &str) -> EntityDesc {
    EntityDesc {
        name: String::from(name),
        material: material(material_name),
    }
}

fn surfel_spec(initial: Vec<(&str, f32)>, deposit: Vec<(&str, f32)>) -> SurfelSpec {
    SurfelSpec {
        name: String::from("Iron"),
        description: String::new(),
        reflectance: TonReflectance {
            delta_straight: 0.0f32.to_bits(),
            delta_parabolic: 0.8f32.to_bits(),
            delta_flow: 0.2f32.to_bits(),
        },
        initial: initial
            .into_iter()
            .map(|(k, v)| (String::from(k), v.to_bits()))
            .collect(),
        deposit: deposit
            .into_iter()
            .map(|(k, v)| (String::from(k), v.to_bits()))
            .collect(),
        rules: Vec::new(),
    }
}

fn source_spec(initial: Vec<(&str, f32)>, absorb: Vec<(&str, f32)>) -> TonSourceSpec {
    TonSourceSpec {
        name: String::from("Rain"),
        description: String::from("Rain dropping from the sky"),
        mesh: String::from("sky.obj"),
        emission_count: 100_000,
        diffuse: false,
        p_straight: 0.0f32.to_bits(),
        p_parabolic: 0.3f32.to_bits(),
        p_flow: 0.7f32.to_bits(),
        initial: initial
            .into_iter()
            .map(|(k, v)| (String::from(k), v.to_bits()))
            .collect(),
        absorb: absorb
            .into_iter()
            .map(|(k, v)| (String::from(k), v.to_bits()))
            .collect(),
        interaction_radius: 0.1f32.to_bits(),
        parabola_height: 0.07f32.to_bits(),
        flow_distance: 0.17f32.to_bits(),
        flow_direction: Some(Vector3 {
            x: 0.0f32.to_bits(),
            y: (-1.0f32).to_bits(),
            z: 0.0f32.to_bits(),
        }),
    }
}

fn density_effect() -> EffectSpec {
    EffectSpec::Density {
        width: 64,
        height: 64,
        surfel_lookup: aitios_cli::specs::SurfelLookup::Nearest { count: 6 },
        island_bleed: 2,
        tex_pattern: String::from("out/{substance}-{id}.png"),
        obj_pattern: None,
        mtl_pattern: None,
    }
}

#[test]
fn substance_table_has_no_duplicates_and_first_occurrence_order() {
    let surfels = vec![(
        String::from("bronze"),
        surfel_spec(
            vec![("humidity", 0.0), ("rust", 0.0)],
            vec![("rust", 0.5), ("humidity", 1.0)],
        ),
    )];
    let sources = vec![source_spec(vec![("salt", 1.0)], vec![("humidity", 1.0)])];
    let names = unique_substance_names(&surfels, &sources);
    assert_eq!(names, vec!["humidity", "rust", "salt"]);
}

#[test]
fn substance_table_is_stable_across_repeated_instantiation() {
    let surfels = vec![(
        String::from("bronze"),
        surfel_spec(vec![("humidity", 0.0), ("rust", 0.0)], vec![]),
    )];
    let sources = vec![source_spec(vec![("humidity", 1.0)], vec![("rust", 0.2)])];
    let once = unique_substance_names(&surfels, &sources);
    let twice = unique_substance_names(&surfels, &sources);
    assert_eq!(once, twice);
}

#[test]
fn extract_keys_aligns_values_and_defaults() {
    let map: Vec<(String, u32)> = vec![
        (String::from("rust"), 0.5f32.to_bits()),
        (String::from("humidity"), 1.0f32.to_bits()),
    ];
    let keys = vec![
        String::from("humidity"),
        String::from("salt"),
        String::from("rust"),
    ];
    let aligned = extract_keys(&map, &keys, 0.0f32.to_bits());
    assert_eq!(
        aligned,
        vec![1.0f32.to_bits(), 0.0f32.to_bits(), 0.5f32.to_bits()]
    );
}

#[test]
fn rules_resolve_names_to_indices() {
    let names = vec![String::from("humidity"), String::from("rust")];
    let transfer = SurfelRuleSpec::Transfer {
        from: String::from("humidity"),
        to: String::from("rust"),
        factor: 0.5f32.to_bits(),
    };
    assert_eq!(
        rule_by_spec(&transfer, &names).unwrap(),
        SurfelRule::Transfer {
            source_substance_idx: 0,
            target_substance_idx: 1,
            factor: 0.5f32.to_bits(),
        }
    );
    let deposit = SurfelRuleSpec::Deposit {
        to: String::from("rust"),
        amount: 0.1f32.to_bits(),
    };
    assert_eq!(
        rule_by_spec(&deposit, &names).unwrap(),
        SurfelRule::Deposit {
            substance_idx: 1,
            amount: 0.1f32.to_bits(),
        }
    );
}

#[test]
fn unknown_substance_name_is_a_named_error() {
    let names = vec![String::from("humidity")];
    let rule = SurfelRuleSpec::Deteriorate {
        from: String::from("plutonium"),
        factor: 0.5f32.to_bits(),
    };
    match rule_by_spec(&rule, &names) {
        Err(Error::UnknownSubstanceName(n)) => assert_eq!(n, "plutonium"),
        _ => panic!("an unknown substance name must be a fatal, named error"),
    }
}

#[test]
fn entities_without_mapped_material_are_dropped_unless_fallback() {
    let specs = vec![(String::from("bronze"), surfel_spec(vec![("rust", 0.0)], vec![]))];
    let entities = vec![entity("statue", "bronze"), entity("bench", "wood")];
    let kept = filter_entities(entities, &specs);
    assert_eq!(kept.len(), 1);
    assert_eq!(kept[0].name, "statue");

    let fallback = vec![
        (String::from("bronze"), surfel_spec(vec![("rust", 0.0)], vec![])),
        (String::from("_"), surfel_spec(vec![("dust", 0.0)], vec![])),
    ];
    let entities = vec![entity("statue", "bronze"), entity("bench", "wood")];
    let kept = filter_entities(entities, &fallback);
    assert_eq!(kept.len(), 2);
}

#[test]
fn source_vectors_align_to_table() {
    let names = vec![String::from("humidity"), String::from("rust")];
    let sources = build_sources(&vec![source_spec(
        vec![("humidity", 1.0)],
        vec![("humidity", 1.0), ("rust", 0.2)],
    )], &names);
    assert_eq!(sources.len(), 1);
    assert_eq!(sources[0].emission_count, 100_000);
    assert_eq!(
        sources[0].substances,
        vec![1.0f32.to_bits(), 0.0f32.to_bits()]
    );
    assert_eq!(
        sources[0].pickup_rates,
        vec![1.0f32.to_bits(), 0.2f32.to_bits()]
    );
    assert_eq!(sources[0].mesh, "sky.obj");
}

fn valid_spec() -> SimulationSpec {
    let mut spec = SimulationSpec::default();
    spec.effects = vec![density_effect()];
    spec.surfel_distance = Some(0.05f32.to_bits());
    spec
}

#[test]
fn instantiate_fails_without_surfel_specs() {
    let r = instantiate(valid_spec(), vec![], vec![entity("e", "m")], vec![]);
    assert!(matches!(r, Err(Error::SurfelSpecsMissing)));
}

#[test]
fn instantiate_fails_without_sources() {
    // A run without particle sources could emit nothing: fatal, per the
    // configuration-incompleteness contract.
    let specs = vec![(String::from("bronze"), surfel_spec(vec![("rust", 0.0)], vec![]))];
    let r = instantiate(valid_spec(), specs, vec![entity("e", "bronze")], vec![]);
    assert!(matches!(r, Err(Error::SourcesMissing)));
}

#[test]
fn instantiate_fails_without_substances() {
    let specs = vec![(String::from("bronze"), surfel_spec(vec![], vec![]))];
    let sources = vec![source_spec(vec![], vec![])];
    let r = instantiate(valid_spec(), specs, vec![entity("e", "bronze")], sources);
    assert!(matches!(r, Err(Error::SubstancesMissing)));
}

#[test]
fn instantiate_fails_without_effects() {
    let mut spec = valid_spec();
    spec.effects = Vec::new();
    let specs = vec![(String::from("bronze"), surfel_spec(vec![("rust", 0.0)], vec![]))];
    let sources = vec![source_spec(vec![], vec![])];
    let r = instantiate(spec, specs, vec![entity("e", "bronze")], sources);
    assert!(matches!(r, Err(Error::EffectsMissing)));
}

#[test]
fn instantiate_rejects_absent_or_non_positive_surfel_distance() {
    let specs = || vec![(String::from("bronze"), surfel_spec(vec![("rust", 0.0)], vec![]))];
    let ents = || vec![entity("e", "bronze")];
    let sources = || vec![source_spec(vec![], vec![])];

    let mut spec = valid_spec();
    spec.surfel_distance = None;
    assert!(matches!(
        instantiate(spec, specs(), ents(), sources()),
        Err(Error::InvalidSurfelDistance(None))
    ));

    let mut spec = valid_spec();
    spec.surfel_distance = Some(0.0f32.to_bits());
    assert!(matches!(
        instantiate(spec, specs(), ents(), sources()),
        Err(Error::InvalidSurfelDistance(_))
    ));

    let mut spec = valid_spec();
    spec.surfel_distance = Some((-0.5f32).to_bits());
    assert!(matches!(
        instantiate(spec, specs(), ents(), sources()),
        Err(Error::InvalidSurfelDistance(_))
    ));
}

#[test]
fn instantiate_builds_a_full_plan() {
    let specs = vec![(
        String::from("bronze"),
        surfel_spec(
            vec![("humidity", 0.0), ("rust", 0.0)],
            vec![("humidity", 1.0), ("rust", 0.5)],
        ),
    )];
    let entities = vec![entity("statue", "bronze"), entity("bench", "wood")];
    let sources = vec![source_spec(vec![("humidity", 1.0)], vec![("rust", 0.2)])];
    let mut spec = valid_spec();
    spec.rules = vec![SurfelRuleSpec::Transfer {
        from: String::from("humidity"),
        to: String::from("rust"),
        factor: 0.5f32.to_bits(),
    }];

    let plan = instantiate(spec, specs, entities, sources).expect("a valid spec instantiates");
    assert_eq!(plan.unique_substance_names, vec!["humidity", "rust"]);
    // The wooden bench has no mapped surfel spec and no fallback exists.
    assert_eq!(plan.entities.len(), 1);
    assert_eq!(plan.protos.len(), 1);
    let proto = plan.protos[0].as_ref().expect("bronze is mapped");
    assert_eq!(proto.entity_idx, 0);
    assert_eq!(proto.substances, vec![0.0f32.to_bits(), 0.0f32.to_bits()]);
    assert_eq!(
        proto.deposition_rates,
        vec![1.0f32.to_bits(), 0.5f32.to_bits()]
    );
    assert_eq!(plan.sources.len(), 1);
    assert_eq!(plan.surfel_distance, 0.05f32.to_bits());
    assert_eq!(
        plan.rules,
        vec![SurfelRule::Transfer {
            source_substance_idx: 0,
            target_substance_idx: 1,
            factor: 0.5f32.to_bits(),
        }]
    );
    // Default transport mode with none configured.
    assert_eq!(plan.transport, Transport::Differential);
}

#[test]
fn repeated_instantiation_assigns_the_same_indices() {
    let make_specs = || {
        vec![(
            String::from("bronze"),
            surfel_spec(
                vec![("humidity", 0.0), ("rust", 0.0)],
                vec![("rust", 0.5)],
            ),
        )]
    };
    let make_sources = || vec![source_spec(vec![("salt", 1.0)], vec![("humidity", 1.0)])];
    let once = instantiate(valid_spec(), make_specs(), vec![], make_sources()).unwrap();
    let twice = instantiate(valid_spec(), make_specs(), vec![], make_sources()).unwrap();
    assert_eq!(once.unique_substance_names, twice.unique_substance_names);
}

#[test]
fn transport_defaults_to_differential() {
    assert_eq!(transport_mode(&None), Transport::Differential);
    assert_eq!(
        transport_mode(&Some(Transport::Consistent)),
        Transport::Consistent
    );
}
