use contract_cache::errors::{CacheError, VMError};
use contract_cache::hash::CryptoHash;
use contract_cache::port::{CompiledContractCache, MockCompiledContractCache};
use contract_cache::recency::RecencyCache;
use contract_cache::types::{CompiledModule, VMKind};

#[test]
fn mock_cache_stores_and_returns_values() {
    let mut cache = MockCompiledContractCache::new();
    assert_eq!(cache.len(), 0);
    assert!(matches!(cache.get(b"k"), Ok(None)));
    cache.put(b"k", b"v").unwrap();
    assert_eq!(cache.len(), 1);
    assert_eq!(cache.get(b"k").unwrap().unwrap(), b"v".to_vec());
    cache.put(b"k", b"w").unwrap();
    assert_eq!(cache.len(), 1);
    assert_eq!(cache.get(b"k").unwrap().unwrap(), b"w".to_vec());
    cache.put(b"k2", b"x").unwrap();
    assert_eq!(cache.len(), 2);
    assert!(matches!(cache.get(b"absent"), Ok(None)));
}

#[test]
fn mock_cache_default_is_an_empty_working_store() {
    let mut cache = MockCompiledContractCache::default();
    assert_eq!(cache.len(), 0);
    cache.put(b"k", b"v").unwrap();
    assert_eq!(cache.get(b"k").unwrap().unwrap(), b"v".to_vec());
}

#[test]
fn mock_cache_failure_switches() {
    let mut failing_puts = MockCompiledContractCache::with_failing_puts();
    assert!(failing_puts.put(b"k", b"v").is_err());
    assert_eq!(failing_puts.len(), 0);
    assert!(matches!(failing_puts.get(b"k"), Ok(None)));

    let failing_gets = MockCompiledContractCache::with_failing_gets();
    assert!(failing_gets.get(b"k").is_err());
}

fn module(tag: u8) -> Result<CompiledModule, VMError> {
    Ok(CompiledModule { vm_kind: VMKind::Wasmer2, artifact: vec![tag] })
}

fn artifact_of(outcome: Option<Result<CompiledModule, VMError>>) -> Vec<u8> {
    match outcome {
        Some(Ok(m)) => m.artifact,
        _ => panic!("expected a cached module"),
    }
}

#[test]
fn recency_cache_returns_what_was_inserted() {
    let mut mem = RecencyCache::new();
    let k1 = CryptoHash::digest(b"one");
    assert!(mem.lookup(&k1).is_none());
    mem.insert(&k1, module(1));
    assert_eq!(artifact_of(mem.lookup(&k1)), vec![1]);
    mem.insert(&k1, module(9));
    assert_eq!(artifact_of(mem.lookup(&k1)), vec![9]);
    assert_eq!(mem.len(), 1);

    mem.insert(&k1, Err(VMError::CacheError(CacheError::ReadError)));
    assert!(matches!(
        mem.lookup(&k1),
        Some(Err(VMError::CacheError(CacheError::ReadError)))
    ));
}

#[test]
fn recency_cache_evicts_the_least_recently_used_entry() {
    let mut mem = RecencyCache::with_capacity(2);
    let k1 = CryptoHash::digest(b"one");
    let k2 = CryptoHash::digest(b"two");
    let k3 = CryptoHash::digest(b"three");

    mem.insert(&k1, module(1));
    mem.insert(&k2, module(2));
    assert_eq!(mem.len(), 2);

    // Touch k1 so that k2 becomes the least recently used entry.
    assert_eq!(artifact_of(mem.lookup(&k1)), vec![1]);

    mem.insert(&k3, module(3));
    assert_eq!(mem.len(), 2);
    assert!(mem.lookup(&k2).is_none());
    assert_eq!(artifact_of(mem.lookup(&k1)), vec![1]);
    assert_eq!(artifact_of(mem.lookup(&k3)), vec![3]);
}

#[test]
fn recency_cache_eviction_without_touching_follows_insertion_order() {
    let mut mem = RecencyCache::with_capacity(2);
    let k1 = CryptoHash::digest(b"one");
    let k2 = CryptoHash::digest(b"two");
    let k3 = CryptoHash::digest(b"three");

    mem.insert(&k1, module(1));
    mem.insert(&k2, module(2));
    mem.insert(&k3, module(3));
    assert!(mem.lookup(&k1).is_none());
    assert_eq!(artifact_of(mem.lookup(&k2)), vec![2]);
    assert_eq!(artifact_of(mem.lookup(&k3)), vec![3]);
}
