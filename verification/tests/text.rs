use aitios_cli::args::{
    parse_usize_dec, substitute_log_pattern, synthesize_datetime_log_filename,
    validate_simulation_spec, validate_thread_count,
};
use aitios_cli::bencher::benchmark_line;
use aitios_cli::builder::err::ResolveErrorKind;
use aitios_cli::files::timestamp::fs_timestamp;

#[test]
fn timestamps_become_filename_safe() {
    assert_eq!(
        fs_timestamp("2018-01-26T18:30:09.453+00:00"),
        "2018-01-26T18_30_09.453+00_00"
    );
    assert_eq!(fs_timestamp("no-colons"), "no-colons");
}

#[test]
fn default_log_filename_embeds_the_timestamp() {
    assert_eq!(
        synthesize_datetime_log_filename("2018-07-17T18_06_53"),
        "aitios-log-2018-07-17T18_06_53.log"
    );
}

#[test]
fn log_patterns_substitute_datetime() {
    assert_eq!(
        substitute_log_pattern("logovic-{datetime}.log", "2018-07-17T18_06_53"),
        "logovic-2018-07-17T18_06_53.log"
    );
}

#[test]
fn thread_counts_parse_as_unsigned_decimals() {
    assert!(validate_thread_count(&String::from("8")).is_ok());
    assert!(validate_thread_count(&String::from("+12")).is_ok());
    assert!(validate_thread_count(&String::from("0")).is_ok());
    assert!(validate_thread_count(&String::from("")).is_err());
    assert!(validate_thread_count(&String::from("-3")).is_err());
    assert!(validate_thread_count(&String::from("8 threads")).is_err());
    // Far beyond what the machine can hold.
    assert!(validate_thread_count(&String::from("99999999999999999999999999")).is_err());
    match validate_thread_count(&String::from("x")) {
        Err(msg) => assert_eq!(msg, "Invalid thread count specified: x"),
        Ok(()) => panic!("x is not a thread count"),
    }
}

#[test]
fn parse_usize_matches_expected_values() {
    assert_eq!(parse_usize_dec("0"), Some(0));
    assert_eq!(parse_usize_dec("40096"), Some(40096));
    assert_eq!(parse_usize_dec("+7"), Some(7));
    assert_eq!(parse_usize_dec("+"), None);
    assert_eq!(parse_usize_dec("7.5"), None);
    assert_eq!(parse_usize_dec(&usize::MAX.to_string()), Some(usize::MAX));
}

#[test]
fn spec_file_paths_must_not_be_empty() {
    assert!(validate_simulation_spec(&String::from("sim.yml")).is_ok());
    match validate_simulation_spec(&String::from("")) {
        Err(msg) => assert_eq!(msg, "Specified simulation spec file path is empty"),
        Ok(()) => panic!("an empty path is not a spec file"),
    }
}

#[test]
fn benchmark_lines_pad_nanoseconds_to_nine_digits() {
    assert_eq!(benchmark_line(0, 100_000_000), "0.100000000");
    assert_eq!(benchmark_line(1, 15_000_000), "1.015000000");
    assert_eq!(benchmark_line(12, 0), "12.000000000");
    assert_eq!(benchmark_line(0, 999_999_999), "0.999999999");
}

#[test]
fn resolve_error_kinds_describe_themselves() {
    assert_eq!(ResolveErrorKind::BasePath.describe(), "Custom base path");
    assert_eq!(
        ResolveErrorKind::TonSourceMesh.describe(),
        "Gammaton source emission mesh"
    );
    assert_eq!(ResolveErrorKind::Benchmark.describe(), "Benchmarking CSV");
}
