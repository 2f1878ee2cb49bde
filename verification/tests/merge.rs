use aitios_cli::builder::append::{append, merge_warnings, MergeWarning};
use aitios_cli::specs::{BenchSpec, EffectSpec, MaterialMap, SimulationSpec, SurfelRuleSpec, Transport};

fn fragment() -> SimulationSpec {
    SimulationSpec::default()
}

fn density_effect(tex_pattern: &str) -> EffectSpec {
    EffectSpec::Density {
        width: 64,
        height: 64,
        surfel_lookup: aitios_cli::specs::SurfelLookup::Nearest { count: 6 },
        island_bleed: 2,
        tex_pattern: String::from(tex_pattern),
        obj_pattern: None,
        mtl_pattern: None,
    }
}

#[test]
fn list_fields_concatenate_in_order() {
    let mut first = fragment();
    first.scenes = vec![String::from("a.obj"), String::from("b.obj")];
    first.sources = vec![String::from("rain.yml")];
    first.effects = vec![density_effect("first-{iteration}.png")];
    first.rules = vec![SurfelRuleSpec::Deteriorate {
        from: String::from("humidity"),
        factor: 0.5f32.to_bits(),
    }];
    let mut second = fragment();
    second.scenes = vec![String::from("a.obj")];
    second.sources = vec![String::from("snow.yml"), String::from("wind.yml")];
    second.effects = vec![density_effect("second-{iteration}.png")];

    let merged = append(first, second);
    // Duplicates are allowed and preserved, earlier entries never dropped.
    assert_eq!(merged.scenes, vec!["a.obj", "b.obj", "a.obj"]);
    assert_eq!(merged.sources, vec!["rain.yml", "snow.yml", "wind.yml"]);
    assert_eq!(merged.effects.len(), 2);
    assert_eq!(merged.rules.len(), 1);
    match &merged.effects[0] {
        EffectSpec::Density { tex_pattern, .. } => {
            assert_eq!(tex_pattern, "first-{iteration}.png")
        }
        _ => panic!("expected the first fragment's effect first"),
    }
}

#[test]
fn override_fields_prefer_second_when_present() {
    let mut first = fragment();
    first.iterations = Some(10);
    first.effect_interval = Some(2);
    first.transport = Some(Transport::Classic);
    first.consistent_transport = Some(false);
    first.log = Some(String::from("first.log"));
    let mut second = fragment();
    second.iterations = Some(30);
    second.transport = Some(Transport::Conserving);

    let merged = append(first, second);
    assert_eq!(merged.iterations, Some(30));
    // Absent in the second fragment: the first fragment's value stands.
    assert_eq!(merged.effect_interval, Some(2));
    assert_eq!(merged.transport, Some(Transport::Conserving));
    assert_eq!(merged.consistent_transport, Some(false));
    assert_eq!(merged.log.as_deref(), Some("first.log"));
}

#[test]
fn textual_fields_trim_and_join() {
    let mut first = fragment();
    first.name = String::from("  Park Scene ");
    first.description = String::from("");
    let mut second = fragment();
    second.name = String::from("Rainy Day");
    second.description = String::from(" wet\n");

    let merged = append(first, second);
    assert_eq!(merged.name, "Park Scene-Rainy Day");
    assert_eq!(merged.description, "wet");
}

#[test]
fn empty_textual_side_wins_nothing() {
    let mut first = fragment();
    first.name = String::from("Solo");
    let second = fragment();
    let merged = append(first, second);
    assert_eq!(merged.name, "Solo");
}

#[test]
fn material_mapping_unions_with_silent_override() {
    let mut first_map = MaterialMap::new();
    first_map.insert(String::from("bronze"), String::from("iron.yml"));
    first_map.insert(String::from("stone"), String::from("concrete.yml"));
    let mut second_map = MaterialMap::new();
    second_map.insert(String::from("bronze"), String::from("bronze.yml"));
    second_map.insert(String::from("wood"), String::from("oak.yml"));

    let mut first = fragment();
    first.surfels_by_material = first_map;
    let mut second = fragment();
    second.surfels_by_material = second_map;

    let merged = append(first, second);
    let map = &merged.surfels_by_material;
    assert_eq!(map.get("bronze").as_deref(), Some("bronze.yml"));
    assert_eq!(map.get("stone").as_deref(), Some("concrete.yml"));
    assert_eq!(map.get("wood").as_deref(), Some("oak.yml"));
    assert_eq!(map.len(), 3);
    // No warning for the mapping override: it is intentional.
    assert!(merge_warnings(&fragment(), &fragment()).is_empty());
}

#[test]
fn benchmark_targets_resolve_fieldwise() {
    let mut first = fragment();
    first.benchmark = Some(BenchSpec {
        iterations: Some(String::from("first-iter.csv")),
        tracing: Some(String::from("first-trace.csv")),
        synthesis: None,
        setup: None,
    });
    let mut second = fragment();
    second.benchmark = Some(BenchSpec {
        iterations: Some(String::from("second-iter.csv")),
        tracing: None,
        synthesis: Some(String::from("second-synth.csv")),
        setup: None,
    });
    let merged = append(first, second);
    let bench = merged.benchmark.expect("both sides configured benchmarks");
    assert_eq!(bench.iterations.as_deref(), Some("second-iter.csv"));
    assert_eq!(bench.tracing.as_deref(), Some("first-trace.csv"));
    assert_eq!(bench.synthesis.as_deref(), Some("second-synth.csv"));
    assert_eq!(bench.setup, None);
}

#[test]
fn conflicting_surfel_distances_warn_and_second_wins() {
    let mut first = fragment();
    first.surfel_distance = Some(0.02f32.to_bits());
    let mut second = fragment();
    second.surfel_distance = Some(0.05f32.to_bits());

    let warnings = merge_warnings(&first, &second);
    assert_eq!(warnings.len(), 1);
    assert!(matches!(
        warnings[0],
        MergeWarning::ConflictingSurfelDistances { .. }
    ));

    let merged = append(first, second);
    assert_eq!(merged.surfel_distance, Some(0.05f32.to_bits()));
}

#[test]
fn equal_surfel_distances_do_not_warn() {
    let mut first = fragment();
    first.surfel_distance = Some(0.02f32.to_bits());
    let mut second = fragment();
    second.surfel_distance = Some(0.02f32.to_bits());
    assert!(merge_warnings(&first, &second).is_empty());
}

#[test]
fn conflicting_iterations_and_logs_warn_in_order() {
    let mut first = fragment();
    first.iterations = Some(10);
    first.log = Some(String::from("a.log"));
    first.surfel_distance = Some(0.1f32.to_bits());
    let mut second = fragment();
    second.iterations = Some(20);
    second.log = Some(String::from("b.log"));
    second.surfel_distance = Some(0.2f32.to_bits());

    let warnings = merge_warnings(&first, &second);
    assert_eq!(warnings.len(), 3);
    assert!(matches!(
        warnings[0],
        MergeWarning::ConflictingIterations {
            first: 10,
            second: 20
        }
    ));
    assert!(matches!(
        warnings[1],
        MergeWarning::ConflictingLogTargets { .. }
    ));
    assert!(matches!(
        warnings[2],
        MergeWarning::ConflictingSurfelDistances { .. }
    ));
}

#[test]
fn merge_never_fails_on_empty_fragments() {
    let merged = append(fragment(), fragment());
    assert_eq!(merged.name, "");
    assert_eq!(merged.iterations, None);
    assert!(merged.scenes.is_empty());
    assert!(merged.effects.is_empty());
}
