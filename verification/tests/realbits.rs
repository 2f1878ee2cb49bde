use aitios_cli::builder::append::merge_warnings;
use aitios_cli::builder::err::Error;
use aitios_cli::builder::instantiate::instantiate;
use aitios_cli::realval::{REAL_NEG_ZERO, REAL_POS_ZERO};
use aitios_cli::runner::effects::{density_table_keys, stop_plan};
use aitios_cli::specs::{
    EffectSpec, SimulationSpec, Stop, SurfelLookup, SurfelSpec, TonReflectance, TonSourceSpec,
};

// The real-valued configuration fields are held as bit patterns; the
// comparisons the pipeline makes must still follow the encoded numbers,
// not the raw bits.

fn spec_with_distance(bits: u32) -> SimulationSpec {
    let mut spec = SimulationSpec::default();
    spec.surfel_distance = Some(bits);
    spec.effects = vec![EffectSpec::Density {
        width: 64,
        height: 64,
        surfel_lookup: SurfelLookup::Nearest { count: 6 },
        island_bleed: 2,
        tex_pattern: String::from("{substance}.png"),
        obj_pattern: None,
        mtl_pattern: None,
    }];
    spec
}

fn surfel_specs() -> Vec<(String, SurfelSpec)> {
    vec![(
        String::from("bronze"),
        SurfelSpec {
            name: String::from("Iron"),
            description: String::new(),
            reflectance: TonReflectance {
                delta_straight: 0,
                delta_parabolic: 0,
                delta_flow: 0,
            },
            initial: vec![(String::from("rust"), 0)],
            deposit: Vec::new(),
            rules: Vec::new(),
        },
    )]
}

fn sources() -> Vec<TonSourceSpec> {
    vec![TonSourceSpec {
        name: String::from("Rain"),
        description: String::new(),
        mesh: String::from("sky.obj"),
        emission_count: 100,
        diffuse: false,
        p_straight: 0,
        p_parabolic: 0,
        p_flow: 0,
        initial: Vec::new(),
        absorb: Vec::new(),
        interaction_radius: 0,
        parabola_height: 0,
        flow_distance: 0,
        flow_direction: None,
    }]
}

#[test]
fn zero_distances_compare_equal_across_signs() {
    // 0.0 and -0.0 differ in bits but compare equal as numbers, so no
    // conflict warning is emitted.
    let mut first = SimulationSpec::default();
    first.surfel_distance = Some(REAL_POS_ZERO);
    let mut second = SimulationSpec::default();
    second.surfel_distance = Some(REAL_NEG_ZERO);
    assert!(merge_warnings(&first, &second).is_empty());
}

#[test]
fn nan_distances_always_conflict() {
    let nan = f32::NAN.to_bits();
    let mut first = SimulationSpec::default();
    first.surfel_distance = Some(nan);
    let mut second = SimulationSpec::default();
    second.surfel_distance = Some(nan);
    // NaN compares unequal to itself, so the conflict check fires.
    assert_eq!(merge_warnings(&first, &second).len(), 1);
}

#[test]
fn negative_zero_distance_is_rejected() {
    let r = instantiate(spec_with_distance(REAL_NEG_ZERO), surfel_specs(), vec![], sources());
    assert!(matches!(r, Err(Error::InvalidSurfelDistance(_))));
}

#[test]
fn negative_distance_is_rejected_but_nan_passes_the_sign_test() {
    let r = instantiate(
        spec_with_distance((-1.5f32).to_bits()),
        surfel_specs(),
        vec![],
        sources(),
    );
    assert!(matches!(r, Err(Error::InvalidSurfelDistance(_))));

    // NaN is not less than or equal to zero, so the sign test lets it
    // through; the plan carries the bits unchanged.
    let nan = f32::NAN.to_bits();
    let plan = instantiate(spec_with_distance(nan), surfel_specs(), vec![], sources())
        .expect("NaN is not caught by the non-positive test");
    assert_eq!(plan.surfel_distance, nan);
}

#[test]
fn implicit_stop_suppressed_by_negative_zero_cenith() {
    let blend = aitios_cli::specs::Blend {
        width: None,
        height: None,
        stops: vec![Stop {
            sample: Some(String::from("dry.png")),
            cenith: REAL_NEG_ZERO,
        }],
        influence: 0,
        tex_pattern: String::from("t.png"),
    };
    // A stop at -0.0 counts as a stop at concentration zero.
    let planned = stop_plan(&blend, &Some(String::from("base.png"))).unwrap();
    assert_eq!(planned.len(), 1);
    assert_eq!(planned[0].texture, "dry.png");
}

#[test]
fn density_effects_prepare_one_key_per_entity() {
    let keys = density_table_keys(64, 64, SurfelLookup::Nearest { count: 6 }, 2, 3).unwrap();
    assert_eq!(keys.len(), 3);
    assert_eq!(keys[0].entity_idx, 0);
    assert_eq!(keys[2].entity_idx, 2);
    assert!(keys.iter().all(|k| k.width == 64 && k.height == 64 && k.count == 6));

    assert!(density_table_keys(
        64,
        64,
        SurfelLookup::Within {
            within: 0.5f32.to_bits()
        },
        2,
        3
    )
    .is_err());
}
