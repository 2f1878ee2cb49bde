use vstd::prelude::*;

use crate::entity::EntityDesc;
use crate::specs::sim::SimulationSpec;

verus! {

/// One step of the iteration loop: whether a particle-tracing pass runs
/// and whether the effect pipeline runs afterwards.
#[derive(Debug, Clone, Copy, PartialEq, Eq, Structural)]
pub struct IterationStep {
    pub iteration: u32,
    pub trace: bool,
    pub synthesize: bool,
}

/// Whether the effect pipeline runs after tracing pass `iteration` (one
/// based): when the iteration index is divisible by the effect interval,
/// and unconditionally on the last configured iteration. With no
/// interval, only the last iteration synthesizes.
pub open spec fn spec_effects_scheduled(
    iteration: u32,
    effect_interval: Option<u32>,
    total_iterations: u32,
) -> bool {
    match effect_interval {
        Some(interval) => if iteration as int % interval as int == 0 {
            true
        } else {
            iteration == total_iterations
        },
        None => iteration == total_iterations,
    }
}

/// Decides whether the effect pipeline runs after tracing pass
/// `iteration`.
pub fn effects_scheduled(
    iteration: u32,
    effect_interval: &Option<u32>,
    total_iterations: u32,
) -> (r: bool)
    requires
        *effect_interval matches Some(n) ==> n != 0,
    ensures
        r == spec_effects_scheduled(iteration, *effect_interval, total_iterations),
{
    match effect_interval {
        Some(interval) => iteration % *interval == 0 || iteration == total_iterations,
        None => iteration == total_iterations,
    }
}

/// The whole iteration loop, decided up front: iteration zero applies
/// the effect pipeline once against the as-sampled baseline without
/// tracing; every following iteration traces and then synthesizes
/// exactly when scheduled.
pub fn schedule(total_iterations: u32, effect_interval: &Option<u32>) -> (r: Vec<IterationStep>)
    requires
        *effect_interval matches Some(n) ==> n != 0,
        // The whole plan stands in one vector, one step per iteration
        // plus the baseline pass.
        total_iterations + 1 <= usize::MAX,
    ensures
        r@.len() == total_iterations + 1,
        r@[0] == (IterationStep { iteration: 0, trace: false, synthesize: true }),
        forall|i: int|
            1 <= i <= total_iterations ==> r@[i] == (IterationStep {
                iteration: i as u32,
                trace: true,
                synthesize: spec_effects_scheduled(i as u32, *effect_interval, total_iterations),
            }),
{
    let mut out: Vec<IterationStep> = Vec::new();
    out.push(IterationStep { iteration: 0, trace: false, synthesize: true });
    let mut i: u64 = 1;
    while i <= total_iterations as u64
        invariant
            1 <= i <= total_iterations + 1,
            total_iterations + 1 <= usize::MAX,
            *effect_interval matches Some(n) ==> n != 0,
            out@.len() == i,
            out@[0] == (IterationStep { iteration: 0, trace: false, synthesize: true }),
            forall|j: int|
                1 <= j < i ==> out@[j] == (IterationStep {
                    iteration: j as u32,
                    trace: true,
                    synthesize: spec_effects_scheduled(
                        j as u32,
                        *effect_interval,
                        total_iterations,
                    ),
                }),
        decreases total_iterations + 1 - i,
    {
        let synthesize = effects_scheduled(i as u32, effect_interval, total_iterations);
        out.push(IterationStep { iteration: i as u32, trace: true, synthesize });
        i += 1;
    }
    out
}

/// Owns the resolved specification, the substance-name table and the
/// entity baseline, and decides the iteration loop. The baseline and the
/// table are read-only for the runner's lifetime; the surface state that
/// the tracing engine mutates stays with the engine.
pub struct SimulationRunner {
    pub spec: SimulationSpec,
    pub unique_substance_names: Vec<String>,
    pub entities: Vec<EntityDesc>,
    pub datetime: String,
}

impl SimulationRunner {
    pub fn new(
        spec: SimulationSpec,
        unique_substance_names: Vec<String>,
        entities: Vec<EntityDesc>,
        datetime: &str,
    ) -> (r: Self)
        ensures
            r.spec == spec,
            r.unique_substance_names == unique_substance_names,
            r.entities == entities,
            r.datetime@ == datetime@,
    {
        SimulationRunner {
            spec,
            unique_substance_names,
            entities,
            datetime: datetime.to_owned(),
        }
    }

    /// The resolved specification the runner was built from.
    pub fn simulation_spec(&self) -> (r: &SimulationSpec)
        ensures
            *r == self.spec,
    {
        &self.spec
    }

    /// How many tracing iterations run; one where the specification
    /// gives none.
    pub fn iterations(&self) -> (r: u32)
        ensures
            r == match self.spec.iterations {
                Some(n) => n,
                None => 1u32,
            },
    {
        match &self.spec.iterations {
            Some(n) => *n,
            None => 1,
        }
    }

    /// The iteration plan of a whole run.
    pub fn run_schedule(&self) -> (r: Vec<IterationStep>)
        requires
            self.spec.effect_interval matches Some(n) ==> n != 0,
            (match self.spec.iterations {
                Some(n) => n,
                None => 1u32,
            }) + 1 <= usize::MAX,
        ensures
            ({
                let total = match self.spec.iterations {
                    Some(n) => n,
                    None => 1u32,
                };
                &&& r@.len() == total + 1
                &&& r@[0] == (IterationStep { iteration: 0, trace: false, synthesize: true })
                &&& forall|i: int|
                    1 <= i <= total ==> r@[i] == (IterationStep {
                        iteration: i as u32,
                        trace: true,
                        synthesize: spec_effects_scheduled(
                            i as u32,
                            self.spec.effect_interval,
                            total,
                        ),
                    })
            }),
    {
        let total = self.iterations();
        schedule(total, &self.spec.effect_interval)
    }

    /// The substance-name table, aligned with every per-substance vector
    /// of the simulation.
    pub fn substance_names(&self) -> (r: &Vec<String>)
        ensures
            *r == self.unique_substance_names,
    {
        &self.unique_substance_names
    }
}

} // verus!
