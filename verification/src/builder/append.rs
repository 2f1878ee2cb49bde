use vstd::prelude::*;

use crate::realval::{real_eq, RealBits};
use crate::specs::bench::BenchSpec;
use crate::specs::sim::SimulationSpec;
use crate::strings::{clone_opt_string, str_trim, trim_seq};

verus! {

/// What merging two free-text fields produces: the trimmed sides, joined
/// by the delimiter when both are non-empty, else the non-empty one.
pub open spec fn spec_append_textual(
    first: Seq<char>,
    second: Seq<char>,
    delimiter: Seq<char>,
) -> Seq<char> {
    let a = trim_seq(first);
    let b = trim_seq(second);
    if a.len() == 0 && b.len() == 0 {
        Seq::empty()
    } else if b.len() == 0 {
        a
    } else if a.len() == 0 {
        b
    } else {
        a + delimiter + b
    }
}

/// Merges two free-text fields.
pub fn append_textual(first: &str, second: &str, delimiter: &str) -> (r: String)
    ensures
        r@ == spec_append_textual(first@, second@, delimiter@),
{
    let a = str_trim(first);
    let b = str_trim(second);
    let a_len = a.unicode_len();
    let b_len = b.unicode_len();
    if a_len == 0 && b_len == 0 {
        let r = String::new();
        proof {
            assert(r@ =~= spec_append_textual(first@, second@, delimiter@));
        }
        r
    } else if b_len == 0 {
        a.to_owned()
    } else if a_len == 0 {
        b.to_owned()
    } else {
        let mut out = a.to_owned();
        out.append(delimiter);
        out.append(b);
        out
    }
}

/// Concatenates two ordered lists, `first`'s entries before `second`'s.
pub fn append_list<T>(first: Vec<T>, second: Vec<T>) -> (r: Vec<T>)
    ensures
        r@ == first@ + second@,
{
    let mut first = first;
    let mut second = second;
    first.append(&mut second);
    first
}

/// Merges two optional log targets: `second` wins if present.
pub fn append_log(first: Option<String>, second: Option<String>) -> (r: Option<String>)
    ensures
        r == if second is Some {
            second
        } else {
            first
        },
{
    match second {
        Some(s) => Some(s),
        None => first,
    }
}

/// Merges two optional sampling distances: `second` wins if present.
pub fn append_surfel_distance(first: Option<RealBits>, second: Option<RealBits>) -> (r: Option<
    RealBits,
>)
    ensures
        r == if second is Some {
            second
        } else {
            first
        },
{
    match second {
        Some(s) => Some(s),
        None => first,
    }
}

/// `second` if present, else `first`.
pub open spec fn spec_second_or_first(a: Option<String>, b: Option<String>) -> Option<String> {
    if b is Some {
        b
    } else {
        a
    }
}

/// What merging two optional benchmark target sets produces: with both
/// present, each of the four target paths is resolved independently with
/// second-or-first precedence.
pub open spec fn spec_append_benchmark(
    first: Option<BenchSpec>,
    second: Option<BenchSpec>,
) -> Option<BenchSpec> {
    match (first, second) {
        (Some(f), Some(s)) => Some(
            BenchSpec {
                iterations: spec_second_or_first(f.iterations, s.iterations),
                tracing: spec_second_or_first(f.tracing, s.tracing),
                synthesis: spec_second_or_first(f.synthesis, s.synthesis),
                setup: spec_second_or_first(f.setup, s.setup),
            },
        ),
        (Some(f), None) => Some(f),
        (None, Some(s)) => Some(s),
        (None, None) => None,
    }
}

fn second_or_first(first: &Option<String>, second: &Option<String>) -> (r: Option<String>)
    ensures
        r == spec_second_or_first(*first, *second),
{
    match second {
        Some(s) => Some(s.clone()),
        None => clone_opt_string(first),
    }
}

/// Merges two optional benchmark target sets.
pub fn append_benchmark(first: &Option<BenchSpec>, second: &Option<BenchSpec>) -> (r: Option<
    BenchSpec,
>)
    ensures
        r == spec_append_benchmark(*first, *second),
{
    match (first, second) {
        (Some(f), Some(s)) => Some(
            BenchSpec {
                iterations: second_or_first(&f.iterations, &s.iterations),
                tracing: second_or_first(&f.tracing, &s.tracing),
                synthesis: second_or_first(&f.synthesis, &s.synthesis),
                setup: second_or_first(&f.setup, &s.setup),
            },
        ),
        (Some(f), None) => Some(f.clone()),
        (None, Some(s)) => Some(s.clone()),
        (None, None) => None,
    }
}

/// A value conflict between two merged fragments. Conflicts are not
/// errors: the merge resolves them in `second`'s favor, but they must be
/// observable, so the merge reports them.
pub enum MergeWarning {
    /// Both fragments give an iteration count and they differ.
    ConflictingIterations { first: u32, second: u32 },
    /// Both fragments give a log target and they differ.
    ConflictingLogTargets { first: String, second: String },
    /// Both fragments give a sampling distance and they differ.
    ConflictingSurfelDistances { first: RealBits, second: RealBits },
}

/// Whether both fragments give an iteration count and they differ.
pub open spec fn iterations_conflict(first: Option<u32>, second: Option<u32>) -> bool {
    first is Some && second is Some && first.unwrap() != second.unwrap()
}

/// Whether both fragments give a log target and they differ.
pub open spec fn log_conflict(first: Option<String>, second: Option<String>) -> bool {
    first is Some && second is Some && first.unwrap()@ != second.unwrap()@
}

/// Whether both fragments give a sampling distance and the encoded
/// numbers do not compare equal.
pub open spec fn surfel_distance_conflict(first: Option<RealBits>, second: Option<
    RealBits,
>) -> bool {
    first is Some && second is Some && !real_eq(first.unwrap(), second.unwrap())
}

/// The warnings that merging the two fragments emits, in the order the
/// merge checks for them.
pub fn merge_warnings(first: &SimulationSpec, second: &SimulationSpec) -> (r: Vec<MergeWarning>)
    ensures
        r@ == (if iterations_conflict(first.iterations, second.iterations) {
            seq![
                MergeWarning::ConflictingIterations {
                    first: first.iterations.unwrap(),
                    second: second.iterations.unwrap(),
                },
            ]
        } else {
            Seq::empty()
        }) + (if log_conflict(first.log, second.log) {
            seq![
                MergeWarning::ConflictingLogTargets {
                    first: first.log.unwrap(),
                    second: second.log.unwrap(),
                },
            ]
        } else {
            Seq::empty()
        }) + (if surfel_distance_conflict(first.surfel_distance, second.surfel_distance) {
            seq![
                MergeWarning::ConflictingSurfelDistances {
                    first: first.surfel_distance.unwrap(),
                    second: second.surfel_distance.unwrap(),
                },
            ]
        } else {
            Seq::empty()
        }),
{
    let mut out: Vec<MergeWarning> = Vec::new();
    match (&first.iterations, &second.iterations) {
        (Some(f), Some(s)) => {
            if *f != *s {
                out.push(MergeWarning::ConflictingIterations { first: *f, second: *s });
            }
        },
        _ => {},
    }
    match (&first.log, &second.log) {
        (Some(f), Some(s)) => {
            if !crate::strings::str_eq(f.as_str(), s.as_str()) {
                out.push(
                    MergeWarning::ConflictingLogTargets { first: f.clone(), second: s.clone() },
                );
            }
        },
        _ => {},
    }
    match (&first.surfel_distance, &second.surfel_distance) {
        (Some(f), Some(s)) => {
            if !crate::realval::is_real_eq(*f, *s) {
                out.push(
                    MergeWarning::ConflictingSurfelDistances { first: *f, second: *s },
                );
            }
        },
        _ => {},
    }
    proof {
        assert(out@ =~= (if iterations_conflict(first.iterations, second.iterations) {
            seq![
                MergeWarning::ConflictingIterations {
                    first: first.iterations.unwrap(),
                    second: second.iterations.unwrap(),
                },
            ]
        } else {
            Seq::empty()
        }) + (if log_conflict(first.log, second.log) {
            seq![
                MergeWarning::ConflictingLogTargets {
                    first: first.log.unwrap(),
                    second: second.log.unwrap(),
                },
            ]
        } else {
            Seq::empty()
        }) + (if surfel_distance_conflict(first.surfel_distance, second.surfel_distance) {
            seq![
                MergeWarning::ConflictingSurfelDistances {
                    first: first.surfel_distance.unwrap(),
                    second: second.surfel_distance.unwrap(),
                },
            ]
        } else {
            Seq::empty()
        }));
    }
    out
}

/// Merges two specification fragments, `second` having override
/// authority.
///
/// For every pair of fragments the merge is field-deterministic:
/// - free text is trimmed and joined (`-` for the name, a blank line for
///   the description);
/// - ordered lists (scenes, sources, effects, rules) are `first`'s
///   entries followed by `second`'s, nothing dropped;
/// - override scalars are `second`'s value when present, else `first`'s;
/// - the material mapping is the set union, `second` winning under a
///   shared key.
///
/// The merge never fails; conflicting scalar values resolve in `second`'s
/// favor and are reported by `merge_warnings`.
pub fn append(first: SimulationSpec, second: SimulationSpec) -> (r: SimulationSpec)
    requires
        first.surfels_by_material.wf(),
        second.surfels_by_material.wf(),
    ensures
        r.name@ == spec_append_textual(first.name@, second.name@, "-"@),
        r.description@ == spec_append_textual(first.description@, second.description@, "\n\n"@),
        r.scenes@ == first.scenes@ + second.scenes@,
        r.iterations == if second.iterations is Some {
            second.iterations
        } else {
            first.iterations
        },
        r.effect_interval == if second.effect_interval is Some {
            second.effect_interval
        } else {
            first.effect_interval
        },
        r.log == if second.log is Some {
            second.log
        } else {
            first.log
        },
        r.surfel_distance == if second.surfel_distance is Some {
            second.surfel_distance
        } else {
            first.surfel_distance
        },
        r.sources@ == first.sources@ + second.sources@,
        r.surfels_by_material.wf(),
        forall|k: Seq<char>|
            r.surfels_by_material.spec_contains(k) == (first.surfels_by_material.spec_contains(k)
                || second.surfels_by_material.spec_contains(k)),
        forall|k: Seq<char>|
            second.surfels_by_material.spec_contains(k) ==> r.surfels_by_material.spec_get(k)
                == second.surfels_by_material.spec_get(k),
        forall|k: Seq<char>|
            !second.surfels_by_material.spec_contains(k) ==> r.surfels_by_material.spec_get(k)
                == first.surfels_by_material.spec_get(k),
        r.effects@ == first.effects@ + second.effects@,
        r.benchmark == spec_append_benchmark(first.benchmark, second.benchmark),
        r.transport == if second.transport is Some {
            second.transport
        } else {
            first.transport
        },
        r.consistent_transport == if second.consistent_transport is Some {
            second.consistent_transport
        } else {
            first.consistent_transport
        },
        r.rules@ == first.rules@ + second.rules@,
{
    let benchmark = append_benchmark(&first.benchmark, &second.benchmark);
    let SimulationSpec {
        name: first_name,
        description: first_description,
        scenes: first_scenes,
        iterations: first_iterations,
        effect_interval: first_effect_interval,
        log: first_log,
        surfel_distance: first_surfel_distance,
        sources: first_sources,
        surfels_by_material: first_map,
        effects: first_effects,
        benchmark: _,
        transport: first_transport,
        consistent_transport: first_consistent,
        rules: first_rules,
    } = first;
    let SimulationSpec {
        name: second_name,
        description: second_description,
        scenes: second_scenes,
        iterations: second_iterations,
        effect_interval: second_effect_interval,
        log: second_log,
        surfel_distance: second_surfel_distance,
        sources: second_sources,
        surfels_by_material: second_map,
        effects: second_effects,
        benchmark: _,
        transport: second_transport,
        consistent_transport: second_consistent,
        rules: second_rules,
    } = second;
    SimulationSpec {
        name: append_textual(first_name.as_str(), second_name.as_str(), "-"),
        description: append_textual(first_description.as_str(), second_description.as_str(), "\n\n"),
        scenes: append_list(first_scenes, second_scenes),
        iterations: if second_iterations.is_some() {
            second_iterations
        } else {
            first_iterations
        },
        effect_interval: if second_effect_interval.is_some() {
            second_effect_interval
        } else {
            first_effect_interval
        },
        log: append_log(first_log, second_log),
        surfel_distance: append_surfel_distance(first_surfel_distance, second_surfel_distance),
        sources: append_list(first_sources, second_sources),
        surfels_by_material: first_map.extend(&second_map),
        effects: append_list(first_effects, second_effects),
        benchmark,
        transport: if second_transport.is_some() {
            second_transport
        } else {
            first_transport
        },
        consistent_transport: if second_consistent.is_some() {
            second_consistent
        } else {
            first_consistent
        },
        rules: append_list(first_rules, second_rules),
    }
}

} // verus!
