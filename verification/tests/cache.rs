use aitios_cli::runner::surfel_table_cache::{CacheError, SurfelTableCache};
use aitios_cli::specs::SurfelLookup;

// The tables here stand in for the per-texel nearest-surfel tables the
// texture engine builds; the cache is generic over them.

#[test]
fn prepare_then_lookup_returns_the_stored_table() {
    let mut cache: SurfelTableCache<Vec<u64>> = SurfelTableCache::new();
    let lookup = SurfelLookup::Nearest { count: 6 };
    cache
        .prepare(0, 64, 64, lookup, 2, vec![1, 2, 3])
        .expect("nearest-count lookups are cacheable");

    let first = cache.lookup(0, 64, 64, lookup, 2).expect("prepared").clone();
    let second = cache.lookup(0, 64, 64, lookup, 2).expect("prepared").clone();
    assert_eq!(first, vec![1, 2, 3]);
    // Memoized: repeated lookups answer the same table.
    assert_eq!(first, second);
}

#[test]
fn prepare_is_idempotent_and_keeps_the_first_table() {
    let mut cache: SurfelTableCache<Vec<u64>> = SurfelTableCache::new();
    let lookup = SurfelLookup::Nearest { count: 6 };
    cache.prepare(0, 64, 64, lookup, 2, vec![1]).unwrap();
    cache.prepare(0, 64, 64, lookup, 2, vec![9]).unwrap();
    let table = cache.lookup(0, 64, 64, lookup, 2).expect("prepared");
    assert_eq!(*table, vec![1]);
}

#[test]
fn lookup_without_prepare_is_a_contract_violation() {
    let mut cache: SurfelTableCache<Vec<u64>> = SurfelTableCache::new();
    let lookup = SurfelLookup::Nearest { count: 6 };
    cache.prepare(0, 64, 64, lookup, 2, vec![1]).unwrap();

    // A different key in any component misses; it is reported, never
    // answered with an empty table.
    match cache.lookup(0, 128, 128, lookup, 2) {
        Err(CacheError::NotPrepared { key }) => {
            assert_eq!(key.width, 128);
            assert_eq!(key.height, 128);
        }
        _ => panic!("a lookup without prepare must be reported"),
    }
}

#[test]
fn within_radius_policy_is_unsupported() {
    let mut cache: SurfelTableCache<Vec<u64>> = SurfelTableCache::new();
    let within = SurfelLookup::Within {
        within: 0.1f32.to_bits(),
    };
    assert!(matches!(
        cache.prepare(0, 64, 64, within, 2, vec![1]),
        Err(CacheError::UnsupportedLookup)
    ));
    assert!(matches!(
        cache.lookup(0, 64, 64, within, 2),
        Err(CacheError::UnsupportedLookup)
    ));
    assert!(matches!(
        cache.is_prepared(0, 64, 64, within, 2),
        Err(CacheError::UnsupportedLookup)
    ));
}

#[test]
fn distinct_keys_store_distinct_tables() {
    let mut cache: SurfelTableCache<u64> = SurfelTableCache::new();
    let near6 = SurfelLookup::Nearest { count: 6 };
    let near9 = SurfelLookup::Nearest { count: 9 };
    cache.prepare(0, 64, 64, near6, 2, 100).unwrap();
    cache.prepare(1, 64, 64, near6, 2, 200).unwrap();
    cache.prepare(0, 64, 64, near9, 2, 300).unwrap();
    cache.prepare(0, 64, 64, near6, 0, 400).unwrap();
    assert_eq!(*cache.lookup(0, 64, 64, near6, 2).unwrap(), 100);
    assert_eq!(*cache.lookup(1, 64, 64, near6, 2).unwrap(), 200);
    assert_eq!(*cache.lookup(0, 64, 64, near9, 2).unwrap(), 300);
    assert_eq!(*cache.lookup(0, 64, 64, near6, 0).unwrap(), 400);
    assert_eq!(cache.is_prepared(0, 64, 64, near6, 2), Ok(true));
    assert_eq!(cache.is_prepared(2, 64, 64, near6, 2), Ok(false));
}
