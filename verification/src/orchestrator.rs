//! The compile orchestrator: looks a fingerprint up through the bounded
//! recency cache and the persistent cache port, compiles on a miss through
//! the matching backend adapter, writes the outcome back through the same
//! layers, and surfaces every failure as an explicit result.
//!
//! Concurrent resolutions of one fingerprint are deliberately not
//! de-duplicated: both compile the same deterministic input and the second
//! `put` overwrites the first with an equivalent record.

use vstd::prelude::*;
use crate::backend::{co_view, co_wf, compile_and_serialize_backend};
use crate::codec::copy_bytes;
use crate::errors::{
    CacheError, CacheErrorView, ContractPrecompilatonError, ContractPrecompilatonResult,
    FunctionCallError, VMError, VMErrorView,
};
use crate::hash::CryptoHash;
use crate::key::{get_contract_cache_key, spec_contract_cache_key};
use crate::port::CompiledContractCache;
use crate::recency::{
    outcome_view, spec_has_key, spec_key_index, spec_lru_insert, RecencyCache,
};
use crate::record::{dec_record, enc_record, CacheRecord, CacheRecordView};
use crate::types::{
    spec_kind_for_protocol_version, CompiledModule, CompiledModuleView, ContractCode,
    GasCounterMode, VMConfig, VMKind,
};

verus! {

/// Whether the persistent store took the record of a resolution.
#[derive(Clone, Copy, PartialEq, Eq, Structural, Debug)]
pub enum StoreOutcome {
    /// The outcome was written to the persistent store.
    Stored,
    /// The write failed; the result of the resolution stands regardless.
    WriteFailed,
    /// Nothing needed writing: the outcome was already cached, or no
    /// persistent store was supplied.
    NotAttempted,
}

/// What a fingerprint lookup through the port yielded.
pub enum LookupOutcome {
    /// The store failed on `get`; surfaced, never treated as a miss.
    ReadError,
    /// A record was found: the outcome it denotes, a remembered failure
    /// replayed without recompiling, the stored artifact, or the
    /// deserialization error of a malformed record.
    Resolved(Result<CompiledModule, VMError>),
    /// No record under this fingerprint.
    Miss,
}

/// The outcome a stored record denotes: a failure record replays its error, a
/// code record carries the artifact, and an undecodable record is a
/// deserialization error, surfaced, never silently treated as a miss.
pub open spec fn resolved_of_record(rec: Option<CacheRecordView>, vm_kind: VMKind) -> Result<
    CompiledModuleView,
    VMErrorView,
> {
    match rec {
        None => Err(VMErrorView::CacheError(CacheErrorView::DeserializationError)),
        Some(CacheRecordView::Error(e)) => Err(e),
        Some(CacheRecordView::Code(b)) => Ok(CompiledModuleView { vm_kind, artifact: b }),
    }
}

/// Looks `key` up in the persistent store and interprets the record.
pub fn lookup_cached<C: CompiledContractCache>(key: &CryptoHash, cache: &C, vm_kind: VMKind) -> (r:
    LookupOutcome)
    ensures
        match r {
            LookupOutcome::ReadError => true,
            LookupOutcome::Miss => !cache.contents().contains_key(key@),
            LookupOutcome::Resolved(o) => cache.contents().contains_key(key@) && outcome_view(o)
                == resolved_of_record(dec_record(cache.contents()[key@]), vm_kind),
        },
{
    match cache.get(key.as_bytes()) {
        Err(_) => LookupOutcome::ReadError,
        Ok(None) => LookupOutcome::Miss,
        Ok(Some(serialized)) => {
            match CacheRecord::decode(serialized.as_slice()) {
                Err(_) => LookupOutcome::Resolved(
                    Err(VMError::CacheError(CacheError::DeserializationError)),
                ),
                Ok(CacheRecord::Error(e)) => LookupOutcome::Resolved(Err(e)),
                Ok(CacheRecord::Code(b)) => LookupOutcome::Resolved(
                    Ok(CompiledModule { vm_kind, artifact: b }),
                ),
            }
        }
    }
}

/// Records a compile outcome under `key` and reports how the write went.
///
/// A successful compile is returned to the caller even if persisting it
/// failed; the failed write is surfaced in the `StoreOutcome`. A failed
/// compile is returned as its error once recorded, but if recording it also
/// failed, the write error takes precedence, since a silently lost failure
/// record would otherwise be invisible.
pub fn store_compile_outcome<C: CompiledContractCache>(
    key: &CryptoHash,
    vm_kind: VMKind,
    outcome: Result<Vec<u8>, FunctionCallError>,
    cache: &mut C,
) -> (r: Result<(CompiledModule, StoreOutcome), VMError>)
    requires
        co_wf(co_view(outcome)),
    ensures
        outcome matches Ok(b) ==> (r matches Ok(p)
            && p.0@ == (CompiledModuleView { vm_kind, artifact: b@ })
            && p.1 != StoreOutcome::NotAttempted
            && (p.1 == StoreOutcome::Stored
                ==> final(cache).contents()
                    == old(cache).contents().insert(key@, enc_record(CacheRecordView::Code(b@))))
            && (p.1 == StoreOutcome::WriteFailed
                ==> final(cache).contents() == old(cache).contents())),
        outcome matches Err(e) ==> (r matches Err(ve)
            && ((ve@ == VMErrorView::FunctionCallError(e@)
                && final(cache).contents() == old(cache).contents().insert(
                    key@,
                    enc_record(CacheRecordView::Error(VMErrorView::FunctionCallError(e@))),
                ))
            || (ve@ == VMErrorView::CacheError(CacheErrorView::WriteError)
                && final(cache).contents() == old(cache).contents()))),
{
    match outcome {
        Ok(artifact) => {
            let module = CompiledModule { vm_kind, artifact: copy_bytes(artifact.as_slice()) };
            let record = CacheRecord::Code(artifact);
            let encoded = record.encode();
            match cache.put(key.as_bytes(), encoded.as_slice()) {
                Ok(_) => Ok((module, StoreOutcome::Stored)),
                Err(_) => Ok((module, StoreOutcome::WriteFailed)),
            }
        }
        Err(e) => {
            let record = CacheRecord::Error(VMError::FunctionCallError(e.duplicate()));
            let encoded = record.encode();
            match cache.put(key.as_bytes(), encoded.as_slice()) {
                Ok(_) => Err(VMError::FunctionCallError(e)),
                Err(_) => Err(VMError::CacheError(CacheError::WriteError)),
            }
        }
    }
}

/// The mathematical value of a resolution result.
pub open spec fn res_view(r: Result<(CompiledModule, StoreOutcome), VMError>) -> Result<
    (CompiledModuleView, StoreOutcome),
    VMErrorView,
> {
    match r {
        Ok(p) => Ok((p.0@, p.1)),
        Err(e) => Err(e@),
    }
}

/// What a resolution without a persistent store returns: the direct compile
/// outcome, nothing attempted against any cache.
pub open spec fn no_cache_post(
    vm_kind: VMKind,
    k: Seq<u8>,
    r: Result<(CompiledModuleView, StoreOutcome), VMErrorView>,
) -> bool {
    match r {
        Ok(p) => p.0.vm_kind == vm_kind && p.1 == StoreOutcome::NotAttempted,
        Err(e) => e matches VMErrorView::FunctionCallError(_) || e == VMErrorView::CacheError(
            CacheErrorView::SerializationError(k),
        ),
    }
}

/// How one resolution relates the persistent store's contents before (`pre`)
/// and after (`post`) to its result.
///
/// A read error leaves the store as it was. A fingerprint hit is decided by
/// the stored record alone: the record's outcome is returned and nothing is
/// written, a failure record short-circuiting recompilation. A miss compiles:
/// on success the caller receives the module even if the write failed; on a
/// compile failure the failure is recorded and replayed to the caller, a
/// failed write taking precedence; a module that could not be serialized is
/// surfaced without touching the store.
pub open spec fn resolve_post(
    pre: Map<Seq<u8>, Seq<u8>>,
    post: Map<Seq<u8>, Seq<u8>>,
    k: Seq<u8>,
    vm_kind: VMKind,
    r: Result<(CompiledModuleView, StoreOutcome), VMErrorView>,
) -> bool {
    if r == Result::<(CompiledModuleView, StoreOutcome), VMErrorView>::Err(
        VMErrorView::CacheError(CacheErrorView::ReadError),
    ) {
        post == pre
    } else if pre.contains_key(k) {
        post == pre && match r {
            Ok(p) => p.1 == StoreOutcome::NotAttempted && resolved_of_record(
                dec_record(pre[k]),
                vm_kind,
            ) == Result::<CompiledModuleView, VMErrorView>::Ok(p.0),
            Err(e) => resolved_of_record(dec_record(pre[k]), vm_kind) == Result::<
                CompiledModuleView,
                VMErrorView,
            >::Err(e),
        }
    } else {
        match r {
            Ok(p) => p.0.vm_kind == vm_kind && p.1 != StoreOutcome::NotAttempted && (p.1
                == StoreOutcome::Stored ==> post == pre.insert(
                k,
                enc_record(CacheRecordView::Code(p.0.artifact)),
            )) && (p.1 == StoreOutcome::WriteFailed ==> post == pre),
            Err(e) => match e {
                VMErrorView::FunctionCallError(f) => post == pre.insert(
                    k,
                    enc_record(CacheRecordView::Error(VMErrorView::FunctionCallError(f))),
                ),
                VMErrorView::CacheError(CacheErrorView::WriteError) => post == pre,
                VMErrorView::CacheError(CacheErrorView::SerializationError(h)) => h == k && post
                    == pre,
                _ => false,
            },
        }
    }
}

/// Failure replay: when the persistent record under a fingerprint is a
/// failure record, a resolution that reaches the store (no read error)
/// returns exactly the recorded error, without compiling and without writing
/// anything.
pub proof fn lemma_failure_replay(
    pre: Map<Seq<u8>, Seq<u8>>,
    post: Map<Seq<u8>, Seq<u8>>,
    k: Seq<u8>,
    vm_kind: VMKind,
    r: Result<(CompiledModuleView, StoreOutcome), VMErrorView>,
    e: VMErrorView,
)
    requires
        resolve_post(pre, post, k, vm_kind, r),
        pre.contains_key(k),
        dec_record(pre[k]) == Some(CacheRecordView::Error(e)),
        r != Result::<(CompiledModuleView, StoreOutcome), VMErrorView>::Err(
            VMErrorView::CacheError(CacheErrorView::ReadError),
        ),
    ensures
        r == Result::<(CompiledModuleView, StoreOutcome), VMErrorView>::Err(e),
        post == pre,
{
}

/// The cache miss path: a resolution that missed, compiled and stored leaves
/// exactly one new record, the encoded artifact, under the fingerprint; and
/// a second resolution against that store (no read error) returns the same
/// artifact from the record, without writing again. The second step rests on
/// the codec round trip.
pub proof fn lemma_miss_then_hit(
    pre: Map<Seq<u8>, Seq<u8>>,
    post: Map<Seq<u8>, Seq<u8>>,
    post2: Map<Seq<u8>, Seq<u8>>,
    k: Seq<u8>,
    vm_kind: VMKind,
    m: CompiledModuleView,
    r2: Result<(CompiledModuleView, StoreOutcome), VMErrorView>,
)
    requires
        !pre.contains_key(k),
        resolve_post(pre, post, k, vm_kind, Ok((m, StoreOutcome::Stored))),
        m.artifact.len() <= u32::MAX,
        resolve_post(post, post2, k, vm_kind, r2),
        r2 != Result::<(CompiledModuleView, StoreOutcome), VMErrorView>::Err(
            VMErrorView::CacheError(CacheErrorView::ReadError),
        ),
    ensures
        post == pre.insert(k, enc_record(CacheRecordView::Code(m.artifact))),
        r2 == Result::<(CompiledModuleView, StoreOutcome), VMErrorView>::Ok(
            (CompiledModuleView { vm_kind, artifact: m.artifact }, StoreOutcome::NotAttempted),
        ),
        post2 == post,
{
    crate::record::lemma_record_round_trip(CacheRecordView::Code(m.artifact));
    assert(post.contains_key(k) && post[k] == enc_record(CacheRecordView::Code(m.artifact)));
    assert(resolved_of_record(dec_record(post[k]), vm_kind) == Result::<
        CompiledModuleView,
        VMErrorView,
    >::Ok(CompiledModuleView { vm_kind, artifact: m.artifact }));
}

/// Precompilation leaves a record behind: after a `ContractCompiled` answer
/// the store holds a record under the fingerprint, so a repetition takes the
/// `ContractAlreadyInCache` branch and overwrites nothing.
pub proof fn lemma_precompile_idempotent(
    pre: Map<Seq<u8>, Seq<u8>>,
    post: Map<Seq<u8>, Seq<u8>>,
    post2: Map<Seq<u8>, Seq<u8>>,
    k: Seq<u8>,
)
    requires
        precompile_post(pre, post, k, Ok(ContractPrecompilatonResult::ContractCompiled)),
        precompile_post(
            post,
            post2,
            k,
            Ok(ContractPrecompilatonResult::ContractAlreadyInCache),
        ),
    ensures
        post.contains_key(k),
        post2 == post,
{
    let b = choose|b: Seq<u8>| post == pre.insert(k, enc_record(CacheRecordView::Code(b)));
    assert(post.contains_key(k));
}

/// The no-cache path: compiles directly through the backend adapter; no
/// caching occurs.
pub fn compile_module(prepared_code: &[u8], vm_kind: VMKind, key: &CryptoHash) -> (r: Result<
    CompiledModule,
    VMError,
>)
    requires
        vm_kind != VMKind::Wasmtime,
    ensures
        r matches Ok(m) ==> m@.vm_kind == vm_kind,
        r matches Err(e) ==> (e@ matches VMErrorView::FunctionCallError(_) || e@
            == VMErrorView::CacheError(CacheErrorView::SerializationError(key@))),
{
    match compile_and_serialize_backend(prepared_code, vm_kind, key) {
        Ok(Ok(artifact)) => Ok(CompiledModule { vm_kind, artifact }),
        Ok(Err(e)) => Err(VMError::FunctionCallError(e)),
        Err(e) => Err(e),
    }
}

/// One full resolution against the persistent store: lookup, then
/// deserialize-or-compile, then store.
pub fn compile_module_cached_impl<C: CompiledContractCache>(
    key: &CryptoHash,
    prepared_code: &[u8],
    vm_kind: VMKind,
    cache: Option<&mut C>,
) -> (r: Result<(CompiledModule, StoreOutcome), VMError>)
    requires
        vm_kind != VMKind::Wasmtime,
    ensures
        cache is None ==> no_cache_post(vm_kind, key@, res_view(r)),
        cache matches Some(c) ==> resolve_post(
            (*c).contents(),
            (*final(c)).contents(),
            key@,
            vm_kind,
            res_view(r),
        ),
{
    match cache {
        None => {
            match compile_module(prepared_code, vm_kind, key) {
                Ok(m) => Ok((m, StoreOutcome::NotAttempted)),
                Err(e) => Err(e),
            }
        }
        Some(c) => {
            match lookup_cached(key, c, vm_kind) {
                LookupOutcome::ReadError => Err(VMError::CacheError(CacheError::ReadError)),
                LookupOutcome::Resolved(Ok(m)) => Ok((m, StoreOutcome::NotAttempted)),
                LookupOutcome::Resolved(Err(e)) => Err(e),
                LookupOutcome::Miss => {
                    match compile_and_serialize_backend(prepared_code, vm_kind, key) {
                        Ok(outcome) => store_compile_outcome(key, vm_kind, outcome, c),
                        Err(e) => Err(e),
                    }
                }
            }
        }
    }
}

/// Drops the store status: the recency cache holds the resolved outcome
/// alone.
pub open spec fn strip_store(r: Result<(CompiledModuleView, StoreOutcome), VMErrorView>) -> Result<
    CompiledModuleView,
    VMErrorView,
> {
    match r {
        Ok(p) => Ok(p.0),
        Err(e) => Err(e),
    }
}

/// How a recency-cached resolution relates the recency cache's order and the
/// persistent store's contents to its result: with no persistent store it
/// compiles directly and touches neither cache; on a recency hit it replays
/// the remembered outcome and leaves the store untouched; otherwise it
/// resolves through the store and remembers the outcome as most recent.
pub open spec fn cached_resolve_post(
    mem_pre: Seq<(Seq<u8>, Result<CompiledModuleView, VMErrorView>)>,
    mem_post: Seq<(Seq<u8>, Result<CompiledModuleView, VMErrorView>)>,
    mem_cap: nat,
    has_port: bool,
    pre: Map<Seq<u8>, Seq<u8>>,
    post: Map<Seq<u8>, Seq<u8>>,
    k: Seq<u8>,
    vm_kind: VMKind,
    r: Result<(CompiledModuleView, StoreOutcome), VMErrorView>,
) -> bool {
    if !has_port {
        no_cache_post(vm_kind, k, r) && mem_post == mem_pre
    } else if spec_has_key(mem_pre, k) {
        let i = spec_key_index(mem_pre, k);
        &&& match r {
            Ok(p) => p.1 == StoreOutcome::NotAttempted && mem_pre[i].1 == Result::<
                CompiledModuleView,
                VMErrorView,
            >::Ok(p.0),
            Err(e) => mem_pre[i].1 == Result::<CompiledModuleView, VMErrorView>::Err(e),
        }
        &&& mem_post == mem_pre.remove(i).push((k, mem_pre[i].1))
        &&& post == pre
    } else {
        &&& resolve_post(pre, post, k, vm_kind, r)
        &&& mem_post == spec_lru_insert(mem_pre, k, strip_store(r), mem_cap)
    }
}

/// The recency cache is an accelerator only: when it remembers nothing for
/// the fingerprint, a wrapped resolution makes exactly the promises of an
/// unwrapped one against the persistent store, so its absence can change
/// latency but never results.
pub proof fn lemma_recency_cache_transparent(
    mem_pre: Seq<(Seq<u8>, Result<CompiledModuleView, VMErrorView>)>,
    mem_post: Seq<(Seq<u8>, Result<CompiledModuleView, VMErrorView>)>,
    mem_cap: nat,
    pre: Map<Seq<u8>, Seq<u8>>,
    post: Map<Seq<u8>, Seq<u8>>,
    k: Seq<u8>,
    vm_kind: VMKind,
    r: Result<(CompiledModuleView, StoreOutcome), VMErrorView>,
)
    requires
        cached_resolve_post(mem_pre, mem_post, mem_cap, true, pre, post, k, vm_kind, r),
        !spec_has_key(mem_pre, k),
    ensures
        resolve_post(pre, post, k, vm_kind, r),
{
}

/// One resolution, wrapped by the bounded recency cache: a hit there skips
/// both backend work and the persistent store for that fingerprint until
/// evicted.
pub fn memcache_compile_module_cached<C: CompiledContractCache>(
    mem: &mut RecencyCache,
    key: &CryptoHash,
    prepared_code: &[u8],
    vm_kind: VMKind,
    cache: Option<&mut C>,
) -> (r: Result<(CompiledModule, StoreOutcome), VMError>)
    requires
        old(mem).wf(),
        vm_kind != VMKind::Wasmtime,
    ensures
        final(mem).wf(),
        final(mem).cap() == old(mem).cap(),
        cache is None ==> cached_resolve_post(
            old(mem).order(),
            final(mem).order(),
            old(mem).cap(),
            false,
            Map::empty(),
            Map::empty(),
            key@,
            vm_kind,
            res_view(r),
        ),
        cache matches Some(c) ==> cached_resolve_post(
            old(mem).order(),
            final(mem).order(),
            old(mem).cap(),
            true,
            (*c).contents(),
            (*final(c)).contents(),
            key@,
            vm_kind,
            res_view(r),
        ),
{
    match cache {
        None => {
            match compile_module(prepared_code, vm_kind, key) {
                Ok(m) => Ok((m, StoreOutcome::NotAttempted)),
                Err(e) => Err(e),
            }
        }
        Some(c) => {
            match mem.lookup(key) {
                Some(Ok(m)) => Ok((m, StoreOutcome::NotAttempted)),
                Some(Err(e)) => Err(e),
                None => {
                    let r = compile_module_cached_impl(key, prepared_code, vm_kind, Some(c));
                    let remembered = match &r {
                        Ok(p) => Ok(p.0.duplicate()),
                        Err(e) => Err(e.duplicate()),
                    };
                    mem.insert(key, remembered);
                    r
                }
            }
        }
    }
}

/// Resolves a contract through the `Wasmer0` backend: fingerprint, recency
/// cache, persistent store, then the single-pass compiler.
pub fn compile_module_cached_wasmer0<C: CompiledContractCache>(
    mem: &mut RecencyCache,
    code: &ContractCode,
    prepared_code: &[u8],
    config: &VMConfig,
    cache: Option<&mut C>,
    gas_counter_mode: GasCounterMode,
) -> (r: Result<(CompiledModule, StoreOutcome), VMError>)
    requires
        old(mem).wf(),
        code.wf(),
    ensures
        final(mem).wf(),
        final(mem).cap() == old(mem).cap(),
        cache is None ==> cached_resolve_post(
            old(mem).order(),
            final(mem).order(),
            old(mem).cap(),
            false,
            Map::empty(),
            Map::empty(),
            spec_contract_cache_key(code@.hash, *config, VMKind::Wasmer0, gas_counter_mode),
            VMKind::Wasmer0,
            res_view(r),
        ),
        cache matches Some(c) ==> cached_resolve_post(
            old(mem).order(),
            final(mem).order(),
            old(mem).cap(),
            true,
            (*c).contents(),
            (*final(c)).contents(),
            spec_contract_cache_key(code@.hash, *config, VMKind::Wasmer0, gas_counter_mode),
            VMKind::Wasmer0,
            res_view(r),
        ),
{
    let key = get_contract_cache_key(code, VMKind::Wasmer0, config, gas_counter_mode);
    memcache_compile_module_cached(mem, &key, prepared_code, VMKind::Wasmer0, cache)
}

/// Resolves a contract through the `Wasmer2` backend: fingerprint, recency
/// cache, persistent store, then the cranelift compiler.
pub fn compile_module_cached_wasmer2<C: CompiledContractCache>(
    mem: &mut RecencyCache,
    code: &ContractCode,
    prepared_code: &[u8],
    config: &VMConfig,
    cache: Option<&mut C>,
    gas_counter_mode: GasCounterMode,
) -> (r: Result<(CompiledModule, StoreOutcome), VMError>)
    requires
        old(mem).wf(),
        code.wf(),
    ensures
        final(mem).wf(),
        final(mem).cap() == old(mem).cap(),
        cache is None ==> cached_resolve_post(
            old(mem).order(),
            final(mem).order(),
            old(mem).cap(),
            false,
            Map::empty(),
            Map::empty(),
            spec_contract_cache_key(code@.hash, *config, VMKind::Wasmer2, gas_counter_mode),
            VMKind::Wasmer2,
            res_view(r),
        ),
        cache matches Some(c) ==> cached_resolve_post(
            old(mem).order(),
            final(mem).order(),
            old(mem).cap(),
            true,
            (*c).contents(),
            (*final(c)).contents(),
            spec_contract_cache_key(code@.hash, *config, VMKind::Wasmer2, gas_counter_mode),
            VMKind::Wasmer2,
            res_view(r),
        ),
{
    let key = get_contract_cache_key(code, VMKind::Wasmer2, config, gas_counter_mode);
    memcache_compile_module_cached(mem, &key, prepared_code, VMKind::Wasmer2, cache)
}

/// Resolves a contract through the backend that the selection policy picks
/// for the given protocol version.
pub fn compile_module_for_protocol_version<C: CompiledContractCache>(
    mem: &mut RecencyCache,
    code: &ContractCode,
    prepared_code: &[u8],
    config: &VMConfig,
    cache: Option<&mut C>,
    gas_counter_mode: GasCounterMode,
    current_protocol_version: u32,
) -> (r: Result<(CompiledModule, StoreOutcome), VMError>)
    requires
        old(mem).wf(),
        code.wf(),
    ensures
        final(mem).wf(),
        final(mem).cap() == old(mem).cap(),
        cache is None ==> cached_resolve_post(
            old(mem).order(),
            final(mem).order(),
            old(mem).cap(),
            false,
            Map::empty(),
            Map::empty(),
            spec_contract_cache_key(
                code@.hash,
                *config,
                spec_kind_for_protocol_version(current_protocol_version),
                gas_counter_mode,
            ),
            spec_kind_for_protocol_version(current_protocol_version),
            res_view(r),
        ),
        cache matches Some(c) ==> cached_resolve_post(
            old(mem).order(),
            final(mem).order(),
            old(mem).cap(),
            true,
            (*c).contents(),
            (*final(c)).contents(),
            spec_contract_cache_key(
                code@.hash,
                *config,
                spec_kind_for_protocol_version(current_protocol_version),
                gas_counter_mode,
            ),
            spec_kind_for_protocol_version(current_protocol_version),
            res_view(r),
        ),
{
    let vm_kind = VMKind::for_protocol_version(current_protocol_version);
    let key = get_contract_cache_key(code, vm_kind, config, gas_counter_mode);
    memcache_compile_module_cached(mem, &key, prepared_code, vm_kind, cache)
}

/// The mathematical value of a precompilation result.
pub open spec fn pre_view(r: Result<ContractPrecompilatonResult, ContractPrecompilatonError>) -> Result<
    ContractPrecompilatonResult,
    VMErrorView,
> {
    match r {
        Ok(x) => Ok(x),
        Err(e) => Err(e@),
    }
}

/// How precompilation relates the store's contents to its result: an
/// existing record, failure records included, is never overwritten; a fresh
/// compile is stored and reported `ContractCompiled`; a compile failure is
/// recorded and propagated; a failed write is propagated as the write error
/// and leaves the store unchanged.
pub open spec fn precompile_post(
    pre: Map<Seq<u8>, Seq<u8>>,
    post: Map<Seq<u8>, Seq<u8>>,
    k: Seq<u8>,
    r: Result<ContractPrecompilatonResult, VMErrorView>,
) -> bool {
    match r {
        Ok(ContractPrecompilatonResult::ContractAlreadyInCache) => pre.contains_key(k) && post
            == pre,
        Ok(ContractPrecompilatonResult::ContractCompiled) => exists|b: Seq<u8>|
            post == pre.insert(k, enc_record(CacheRecordView::Code(b))),
        Ok(ContractPrecompilatonResult::CacheNotAvailable) => false,
        Err(e) => match e {
            VMErrorView::FunctionCallError(f) => post == pre.insert(
                k,
                enc_record(CacheRecordView::Error(VMErrorView::FunctionCallError(f))),
            ),
            VMErrorView::CacheError(CacheErrorView::WriteError) => post == pre,
            VMErrorView::CacheError(CacheErrorView::SerializationError(h)) => h == k && post
                == pre,
            _ => false,
        },
    }
}

/// Warms the cache for a contract ahead of execution time, through the given
/// backend. Idempotent: an existing record for the fingerprint, a failure
/// record included, is left untouched.
pub fn precompile_contract_vm<C: CompiledContractCache>(
    vm_kind: VMKind,
    wasm_code: &ContractCode,
    prepared_code: &[u8],
    config: &VMConfig,
    gas_counter_mode: GasCounterMode,
    cache: Option<&mut C>,
) -> (r: Result<ContractPrecompilatonResult, ContractPrecompilatonError>)
    requires
        vm_kind != VMKind::Wasmtime,
        wasm_code.wf(),
    ensures
        cache is None ==> r == Result::<
            ContractPrecompilatonResult,
            ContractPrecompilatonError,
        >::Ok(ContractPrecompilatonResult::CacheNotAvailable),
        cache matches Some(c) ==> precompile_post(
            (*c).contents(),
            (*final(c)).contents(),
            spec_contract_cache_key(wasm_code@.hash, *config, vm_kind, gas_counter_mode),
            pre_view(r),
        ),
{
    let c = match cache {
        None => {
            return Ok(ContractPrecompilatonResult::CacheNotAvailable);
        }
        Some(c) => c,
    };
    let key = get_contract_cache_key(wasm_code, vm_kind, config, gas_counter_mode);
    match c.get(key.as_bytes()) {
        Ok(Some(_)) => {
            return Ok(ContractPrecompilatonResult::ContractAlreadyInCache);
        }
        Ok(None) => {}
        Err(_) => {}
    }
    match compile_and_serialize_backend(prepared_code, vm_kind, &key) {
        Err(e) => Err(ContractPrecompilatonError::new(e)),
        Ok(outcome) => {
            match store_compile_outcome(&key, vm_kind, outcome, c) {
                Ok(p) => {
                    match p.1 {
                        StoreOutcome::Stored => {
                            proof {
                                let k = key@;
                                assert(precompile_post(
                                    (*c).contents(),
                                    (*final(c)).contents(),
                                    k,
                                    Ok(ContractPrecompilatonResult::ContractCompiled),
                                )) by {
                                    assert((*final(c)).contents() == (*c).contents().insert(
                                        k,
                                        enc_record(CacheRecordView::Code(p.0@.artifact)),
                                    ));
                                }
                            }
                            Ok(ContractPrecompilatonResult::ContractCompiled)
                        }
                        _ => Err(
                            ContractPrecompilatonError::new(
                                VMError::CacheError(CacheError::WriteError),
                            ),
                        ),
                    }
                }
                Err(e) => Err(ContractPrecompilatonError::new(e)),
            }
        }
    }
}

/// Warms the cache for the backend that the selection policy picks for the
/// given protocol version.
pub fn precompile_contract<C: CompiledContractCache>(
    wasm_code: &ContractCode,
    prepared_code: &[u8],
    config: &VMConfig,
    gas_counter_mode: GasCounterMode,
    current_protocol_version: u32,
    cache: Option<&mut C>,
) -> (r: Result<ContractPrecompilatonResult, ContractPrecompilatonError>)
    requires
        wasm_code.wf(),
    ensures
        cache is None ==> r == Result::<
            ContractPrecompilatonResult,
            ContractPrecompilatonError,
        >::Ok(ContractPrecompilatonResult::CacheNotAvailable),
        cache matches Some(c) ==> precompile_post(
            (*c).contents(),
            (*final(c)).contents(),
            spec_contract_cache_key(
                wasm_code@.hash,
                *config,
                spec_kind_for_protocol_version(current_protocol_version),
                gas_counter_mode,
            ),
            pre_view(r),
        ),
{
    let vm_kind = VMKind::for_protocol_version(current_protocol_version);
    precompile_contract_vm(vm_kind, wasm_code, prepared_code, config, gas_counter_mode, cache)
}

} // verus!
