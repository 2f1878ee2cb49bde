use aitios_cli::files::resolv::{ResolveError, Resolver};

// A lookup probes the candidate paths that `candidates` lists; the
// filesystem's answer for each probe (its canonical form, or nothing
// where the path does not exist) is handed to `resolve`. These tests
// model a filesystem where nothing exists.

#[test]
fn no_bases_relative_nonexistent() {
    let resolver = Resolver::new();
    let nonexistent_file_name = String::from("holodriodl.txt");

    // With no bases, a relative path has no candidates at all.
    let candidates = resolver
        .candidates(&nonexistent_file_name)
        .expect("non-empty search path must yield a candidate list");
    assert!(candidates.is_empty());

    let resolved = resolver.resolve(&nonexistent_file_name, &vec![]);
    assert!(
        resolved.is_err(),
        "Did not add any paths so this lookup should fail"
    );
    assert!(matches!(resolved, Err(ResolveError::NotFound { .. })));
}

#[test]
fn no_bases_pseudo_absolute_nonexistent() {
    let resolver = Resolver::new();
    let nonexistent_file_name = String::from("/holodriodl.txt");

    // An absolute path is probed as itself; it does not exist here.
    let candidates = resolver
        .candidates(&nonexistent_file_name)
        .expect("non-empty search path must yield a candidate list");
    assert_eq!(candidates, vec![String::from("/holodriodl.txt")]);

    let resolved = resolver.resolve(&nonexistent_file_name, &vec![None]);
    assert!(
        resolved.is_err(),
        "Did not add any paths so this lookup should fail"
    );
}

#[test]
fn resolve_empty() {
    let mut resolver = Resolver::new();
    assert!(
        resolver.resolve("", &vec![]).is_err(),
        "Resolving an empty path should fail"
    );

    resolver.add_base(String::from("/work")).unwrap();
    resolver.add_base(String::from("/")).unwrap();
    assert!(
        resolver.resolve("", &vec![]).is_err(),
        "Resolving an empty path should still fail when adding base directories"
    );
}

#[test]
fn add_base_deduplicates_and_rejects_empty() {
    let mut resolver = Resolver::new();
    assert!(matches!(
        resolver.add_base(String::new()),
        Err(ResolveError::EmptyBasePath)
    ));
    resolver.add_base(String::from("/assets")).unwrap();
    resolver.add_base(String::from("/assets")).unwrap();
    resolver.add_base(String::from("/scenes")).unwrap();
    let candidates = resolver.candidates("rain.yml").unwrap();
    assert_eq!(
        candidates,
        vec![
            String::from("/assets/rain.yml"),
            String::from("/scenes/rain.yml")
        ]
    );
}

#[test]
fn absolute_path_probed_first_then_bases_as_pseudo_roots() {
    let mut resolver = Resolver::new();
    resolver.add_base(String::from("/dev")).unwrap();
    let candidates = resolver.candidates("/rand").unwrap();
    assert_eq!(
        candidates,
        vec![String::from("/rand"), String::from("/dev/rand")]
    );

    // The absolute path itself does not exist, but the pseudo-root probe
    // does: the first existing candidate wins, canonicalized.
    let outcome = resolver.resolve("/rand", &vec![None, Some(String::from("/dev/rand"))]);
    assert_eq!(outcome.unwrap(), "/dev/rand");
}

#[test]
fn first_existing_base_wins() {
    let mut resolver = Resolver::new();
    resolver.add_base(String::from("/inner")).unwrap();
    resolver.add_base(String::from("/outer")).unwrap();
    let outcome = resolver.resolve(
        "file.txt",
        &vec![
            Some(String::from("/inner/file.txt")),
            Some(String::from("/outer/file.txt")),
        ],
    );
    assert_eq!(outcome.unwrap(), "/inner/file.txt");
}

#[test]
fn not_found_reports_search_path_and_bases() {
    let mut resolver = Resolver::new();
    resolver.add_base(String::from("/a")).unwrap();
    match resolver.resolve("missing.yml", &vec![None]) {
        Err(ResolveError::NotFound { search_path, bases }) => {
            assert_eq!(search_path, "missing.yml");
            assert_eq!(bases, vec![String::from("/a")]);
        }
        other => panic!("expected a not-found report, got {:?}", other.is_ok()),
    }
}
