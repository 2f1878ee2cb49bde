use aitios_cli::runner::runner::{effects_scheduled, schedule, SimulationRunner};
use aitios_cli::specs::SimulationSpec;

#[test]
fn interval_three_of_seven_synthesizes_at_0_3_6_and_7() {
    let steps = schedule(7, &Some(3));
    assert_eq!(steps.len(), 8);
    let synth: Vec<u32> = steps
        .iter()
        .filter(|s| s.synthesize)
        .map(|s| s.iteration)
        .collect();
    // Iteration zero always runs the pipeline, then every third
    // iteration, and the last iteration is forced.
    assert_eq!(synth, vec![0, 3, 6, 7]);
    // No tracing at iteration zero, tracing everywhere else.
    assert!(!steps[0].trace);
    assert!(steps.iter().skip(1).all(|s| s.trace));
}

#[test]
fn without_interval_only_first_and_last_synthesize() {
    let steps = schedule(5, &None);
    let synth: Vec<u32> = steps
        .iter()
        .filter(|s| s.synthesize)
        .map(|s| s.iteration)
        .collect();
    assert_eq!(synth, vec![0, 5]);
}

#[test]
fn last_iteration_is_forced_even_off_interval() {
    assert!(effects_scheduled(7, &Some(3), 7));
    assert!(!effects_scheduled(5, &Some(3), 7));
    assert!(effects_scheduled(6, &Some(3), 7));
}

#[test]
fn runner_defaults_to_one_iteration() {
    let runner = SimulationRunner::new(
        SimulationSpec::default(),
        vec![String::from("humidity")],
        vec![],
        "2018-01-26T18_30_09.453+00_00",
    );
    assert_eq!(runner.iterations(), 1);
    let steps = runner.run_schedule();
    assert_eq!(steps.len(), 2);
    assert!(steps[0].synthesize && !steps[0].trace);
    assert!(steps[1].synthesize && steps[1].trace);
}
