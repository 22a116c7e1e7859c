use contract_cache::errors::{CacheError, FunctionCallError, VMError};
use contract_cache::hash::CryptoHash;
use contract_cache::key::get_contract_cache_key;
use contract_cache::orchestrator::{
    lookup_cached, store_compile_outcome, LookupOutcome, StoreOutcome,
};
use contract_cache::port::{CompiledContractCache, MockCompiledContractCache};
use contract_cache::recency::RecencyCache;
use contract_cache::record::CacheRecord;
use contract_cache::types::{CompiledModule, ContractCode, GasCounterMode, VMConfig, VMKind};

/// A test double for the backend adapter: a fixed outcome, and a counter of
/// how often compilation was actually invoked.
struct CountingCompiler {
    calls: usize,
    outcome: Result<Vec<u8>, Vec<u8>>,
}

impl CountingCompiler {
    fn compiling_to(artifact: &[u8]) -> CountingCompiler {
        CountingCompiler { calls: 0, outcome: Ok(artifact.to_vec()) }
    }

    fn failing_with(message: &[u8]) -> CountingCompiler {
        CountingCompiler { calls: 0, outcome: Err(message.to_vec()) }
    }

    fn compile(&mut self) -> Result<Vec<u8>, FunctionCallError> {
        self.calls += 1;
        match &self.outcome {
            Ok(artifact) => Ok(artifact.clone()),
            Err(message) => Err(FunctionCallError::CompilationError(message.clone())),
        }
    }
}

fn test_key() -> CryptoHash {
    let code = ContractCode::new(vec![1, 2, 3]);
    let config = VMConfig { non_crypto_hash: 11 };
    get_contract_cache_key(&code, VMKind::Wasmer2, &config, GasCounterMode::HostFunction)
}

/// One resolution, composed as the host composes it: the recency cache,
/// then the persistent store, then the backend adapter on a miss.
fn resolve(
    mem: &mut RecencyCache,
    key: &CryptoHash,
    compiler: &mut CountingCompiler,
    cache: &mut MockCompiledContractCache,
) -> Result<(CompiledModule, StoreOutcome), VMError> {
    if let Some(outcome) = mem.lookup(key) {
        return outcome.map(|m| (m, StoreOutcome::NotAttempted));
    }
    let resolved = match lookup_cached(key, cache, VMKind::Wasmer2) {
        LookupOutcome::ReadError => Err(VMError::CacheError(CacheError::ReadError)),
        LookupOutcome::Resolved(Ok(m)) => Ok((m, StoreOutcome::NotAttempted)),
        LookupOutcome::Resolved(Err(e)) => Err(e),
        LookupOutcome::Miss => {
            let outcome = compiler.compile();
            store_compile_outcome(key, VMKind::Wasmer2, outcome, cache)
        }
    };
    let remembered = match &resolved {
        Ok(p) => Ok(p.0.duplicate()),
        Err(e) => Err(e.duplicate()),
    };
    mem.insert(key, remembered);
    resolved
}

#[test]
fn a_miss_compiles_stores_one_record_and_replays_it() {
    let mut cache = MockCompiledContractCache::new();
    let mut compiler = CountingCompiler::compiling_to(&[7, 7, 7]);
    let key = test_key();

    let mut mem = RecencyCache::new();
    let (module, store) = resolve(&mut mem, &key, &mut compiler, &mut cache)
        .expect("a fresh compile resolves");
    assert_eq!(store, StoreOutcome::Stored);
    assert_eq!(module.artifact, vec![7, 7, 7]);
    assert_eq!(compiler.calls, 1);
    assert_eq!(cache.len(), 1);

    // A second resolution, with a cold recency cache so the persistent
    // store answers, does not compile again.
    let mut cold_mem = RecencyCache::new();
    let (second, store2) = resolve(&mut cold_mem, &key, &mut compiler, &mut cache)
        .expect("the stored artifact resolves");
    assert_eq!(store2, StoreOutcome::NotAttempted);
    assert_eq!(second.artifact, vec![7, 7, 7]);
    assert_eq!(compiler.calls, 1);
    assert_eq!(cache.len(), 1);
}

#[test]
fn the_stored_record_is_the_encoded_artifact() {
    let mut cache = MockCompiledContractCache::new();
    let key = test_key();
    let (_, store) =
        store_compile_outcome(&key, VMKind::Wasmer2, Ok(vec![4, 5]), &mut cache).unwrap();
    assert_eq!(store, StoreOutcome::Stored);
    let stored = cache.get(key.as_bytes()).unwrap().expect("one record under the fingerprint");
    assert_eq!(stored, CacheRecord::Code(vec![4, 5]).encode());
}

#[test]
fn a_failure_record_is_replayed_without_invoking_the_compiler() {
    let mut cache = MockCompiledContractCache::new();
    // The double would compile successfully: if the resolution consulted
    // it, the result would be a module, not the remembered failure.
    let mut compiler = CountingCompiler::compiling_to(&[7, 7, 7]);
    let key = test_key();
    let record = CacheRecord::Error(VMError::FunctionCallError(
        FunctionCallError::CompilationError(b"remembered failure".to_vec()),
    ));
    cache.put(key.as_bytes(), record.encode().as_slice()).unwrap();

    let mut mem = RecencyCache::new();
    let err = resolve(&mut mem, &key, &mut compiler, &mut cache)
        .expect_err("the failure record replays");
    match err {
        VMError::FunctionCallError(FunctionCallError::CompilationError(msg)) => {
            assert_eq!(msg, b"remembered failure".to_vec());
        }
        _ => panic!("expected the remembered compile failure"),
    }
    assert_eq!(compiler.calls, 0);
    assert_eq!(cache.len(), 1);
}

#[test]
fn a_compile_failure_is_recorded_and_replayed() {
    let mut cache = MockCompiledContractCache::new();
    let mut compiler = CountingCompiler::failing_with(b"unsupported opcode");
    let key = test_key();

    let mut mem = RecencyCache::new();
    let first = resolve(&mut mem, &key, &mut compiler, &mut cache)
        .expect_err("the bytecode does not compile");
    assert!(matches!(
        &first,
        VMError::FunctionCallError(FunctionCallError::CompilationError(m)) if m == b"unsupported opcode"
    ));
    assert_eq!(compiler.calls, 1);
    assert_eq!(cache.len(), 1);
    let stored = cache.get(key.as_bytes()).unwrap().unwrap();
    assert_eq!(
        stored,
        CacheRecord::Error(VMError::FunctionCallError(FunctionCallError::CompilationError(
            b"unsupported opcode".to_vec(),
        )))
        .encode()
    );

    let mut cold_mem = RecencyCache::new();
    let second = resolve(&mut cold_mem, &key, &mut compiler, &mut cache)
        .expect_err("the failure replays");
    assert!(matches!(
        &second,
        VMError::FunctionCallError(FunctionCallError::CompilationError(m)) if m == b"unsupported opcode"
    ));
    assert_eq!(compiler.calls, 1);
}

#[test]
fn a_write_failure_does_not_blank_a_good_compile() {
    let mut cache = MockCompiledContractCache::with_failing_puts();
    let mut compiler = CountingCompiler::compiling_to(&[7, 7, 7]);
    let key = test_key();

    let mut mem = RecencyCache::new();
    let (module, store) = resolve(&mut mem, &key, &mut compiler, &mut cache)
        .expect("the module is returned despite the failed write");
    assert_eq!(store, StoreOutcome::WriteFailed);
    assert_eq!(module.artifact, vec![7, 7, 7]);
    assert_eq!(cache.len(), 0);
}

#[test]
fn a_write_failure_takes_precedence_over_a_compile_failure() {
    let mut cache = MockCompiledContractCache::with_failing_puts();
    let key = test_key();
    let err = store_compile_outcome(
        &key,
        VMKind::Wasmer2,
        Err(FunctionCallError::CompilationError(b"bad".to_vec())),
        &mut cache,
    )
    .expect_err("both the compile and the write failed");
    assert!(matches!(err, VMError::CacheError(CacheError::WriteError)));
    assert_eq!(cache.len(), 0);
}

#[test]
fn a_read_error_is_surfaced_not_treated_as_a_miss() {
    let mut cache = MockCompiledContractCache::with_failing_gets();
    let mut compiler = CountingCompiler::compiling_to(&[7, 7, 7]);
    let key = test_key();

    let mut mem = RecencyCache::new();
    let err = resolve(&mut mem, &key, &mut compiler, &mut cache)
        .expect_err("the read error surfaces");
    assert!(matches!(err, VMError::CacheError(CacheError::ReadError)));
    assert_eq!(compiler.calls, 0);
}

#[test]
fn a_malformed_record_is_a_deserialization_error() {
    let mut cache = MockCompiledContractCache::new();
    let mut compiler = CountingCompiler::compiling_to(&[7, 7, 7]);
    let key = test_key();
    cache.put(key.as_bytes(), b"garbage").unwrap();

    let mut mem = RecencyCache::new();
    let err = resolve(&mut mem, &key, &mut compiler, &mut cache)
        .expect_err("a malformed record surfaces, never silently recompiled");
    assert!(matches!(err, VMError::CacheError(CacheError::DeserializationError)));
    assert_eq!(compiler.calls, 0);
}

#[test]
fn a_recency_hit_skips_the_persistent_store() {
    let mut cache = MockCompiledContractCache::new();
    let mut compiler = CountingCompiler::compiling_to(&[7, 7, 7]);
    let key = test_key();

    let mut mem = RecencyCache::new();
    resolve(&mut mem, &key, &mut compiler, &mut cache).expect("a fresh compile resolves");
    assert_eq!(mem.len(), 1);

    // Corrupt the persistent record; a recency hit must not notice.
    let sentinel = CacheRecord::Code(vec![5, 5]).encode();
    cache.put(key.as_bytes(), sentinel.as_slice()).unwrap();

    let (second, store2) = resolve(&mut mem, &key, &mut compiler, &mut cache)
        .expect("the recency cache replays the outcome");
    assert_eq!(store2, StoreOutcome::NotAttempted);
    assert_eq!(second.artifact, vec![7, 7, 7]);
    assert_eq!(compiler.calls, 1);

    // A cold recency cache falls through to the store and sees the
    // sentinel.
    let mut cold_mem = RecencyCache::new();
    let (third, _) = resolve(&mut cold_mem, &key, &mut compiler, &mut cache)
        .expect("the stored record resolves");
    assert_eq!(third.artifact, vec![5, 5]);
    assert_eq!(compiler.calls, 1);
}

/// Precompilation's store discipline: compile-and-store on a fresh
/// fingerprint, and no overwrite, failure records included, once any record
/// exists.
fn precompile_step(
    key: &CryptoHash,
    compiler: &mut CountingCompiler,
    cache: &mut MockCompiledContractCache,
) -> Result<&'static str, VMError> {
    match cache.get(key.as_bytes()) {
        Ok(Some(_)) => return Ok("already cached"),
        Ok(None) | Err(_) => {}
    }
    let outcome = compiler.compile();
    match store_compile_outcome(key, VMKind::Wasmer2, outcome, cache) {
        Ok((_, StoreOutcome::Stored)) => Ok("compiled"),
        Ok(_) => Err(VMError::CacheError(CacheError::WriteError)),
        Err(e) => Err(e),
    }
}

#[test]
fn precompilation_is_idempotent_and_never_overwrites() {
    let mut cache = MockCompiledContractCache::new();
    let mut compiler = CountingCompiler::compiling_to(&[7, 7, 7]);
    let key = test_key();

    assert_eq!(precompile_step(&key, &mut compiler, &mut cache).unwrap(), "compiled");
    assert_eq!(cache.len(), 1);
    let stored_before = cache.get(key.as_bytes()).unwrap().unwrap();

    assert_eq!(precompile_step(&key, &mut compiler, &mut cache).unwrap(), "already cached");
    assert_eq!(compiler.calls, 1);
    assert_eq!(cache.len(), 1);
    let stored_after = cache.get(key.as_bytes()).unwrap().unwrap();
    assert_eq!(stored_before, stored_after);
}

#[test]
fn precompilation_honours_an_existing_failure_record() {
    let mut cache = MockCompiledContractCache::new();
    let mut compiler = CountingCompiler::compiling_to(&[7, 7, 7]);
    let key = test_key();
    let failure = CacheRecord::Error(VMError::FunctionCallError(
        FunctionCallError::CompilationError(b"kept".to_vec()),
    ))
    .encode();
    cache.put(key.as_bytes(), failure.as_slice()).unwrap();

    assert_eq!(precompile_step(&key, &mut compiler, &mut cache).unwrap(), "already cached");
    assert_eq!(compiler.calls, 0);
    assert_eq!(cache.get(key.as_bytes()).unwrap().unwrap(), failure);
}
