//! The backend adapters: compiling prepared bytecode to a backend-native
//! module and serializing it to artifact bytes, through the wasmer compiler
//! crate. Each backend variant uses its own code generator, so their
//! artifacts are mutually incompatible and each carries its own internal
//! version in the fingerprint. Reconstructing executable state from artifact
//! bytes is the execution engine's trust-sensitive step and stays outside
//! this crate.

use vstd::prelude::*;
use crate::codec::copy_bytes;
use crate::errors::{
    CacheError, CacheErrorView, FunctionCallError, FunctionCallErrorView, VMError, VMErrorView,
};
use crate::hash::CryptoHash;
use crate::types::VMKind;

verus! {

#[verifier::external_type_specification]
#[verifier::external_body]
pub struct ExStore(wasmer::Store);

#[verifier::external_type_specification]
#[verifier::external_body]
pub struct ExModule(wasmer::Module);

/// Relies on `wasmer::Store::new` with `wasmer::Singlepass`: a store whose
/// engine compiles with the single-pass code generator (the `Wasmer0`
/// backend).
#[verifier::external_body]
fn singlepass_store() -> wasmer::Store {
    wasmer::Store::new(wasmer::Singlepass::default())
}

/// Relies on `wasmer::Store::new` with `wasmer::Cranelift`: a store whose
/// engine compiles with the cranelift code generator (the `Wasmer2` backend).
#[verifier::external_body]
fn cranelift_store() -> wasmer::Store {
    wasmer::Store::new(wasmer::Cranelift::default())
}

/// Relies on `wasmer::Module::new`: parses, validates and compiles
/// WebAssembly bytes with the store's engine; fails on bytecode the engine
/// rejects. The error is the compiler's message, as bytes.
#[verifier::external_body]
fn wasmer_compile(store: &wasmer::Store, code: &[u8]) -> Result<wasmer::Module, Vec<u8>> {
    wasmer::Module::new(store, code).map_err(|e| format!("{}", e).into_bytes())
}

/// Relies on `wasmer::Module::serialize`: the artifact bytes from which the
/// engine can reconstruct the module.
#[verifier::external_body]
fn wasmer_serialize(module: &wasmer::Module) -> Result<Vec<u8>, ()> {
    module.serialize().map(|b| b.to_vec()).map_err(|_| ())
}

/// The mathematical value of a compile outcome: the artifact bytes, or the
/// compile failure to be recorded.
pub open spec fn co_view(o: Result<Vec<u8>, FunctionCallError>) -> Result<
    Seq<u8>,
    FunctionCallErrorView,
> {
    match o {
        Ok(b) => Ok(b@),
        Err(e) => Err(e@),
    }
}

/// Every byte string of the outcome fits a 32-bit length prefix, so the
/// record built from it is well formed.
pub open spec fn co_wf(o: Result<Seq<u8>, FunctionCallErrorView>) -> bool {
    match o {
        Ok(b) => b.len() <= u32::MAX,
        Err(FunctionCallErrorView::CompilationError(m)) => m.len() <= u32::MAX,
        Err(FunctionCallErrorView::PrepareError(m)) => m.len() <= u32::MAX,
    }
}

/// Compiles prepared bytecode with the selected backend and serializes the
/// module to artifact bytes.
///
/// Whatever the compiler decides: a compile failure comes back as the
/// cacheable outcome `Err(FunctionCallError::CompilationError(..))`; a module
/// that cannot be serialized (or whose artifact would not fit a record) is a
/// `CacheError::SerializationError` carrying the fingerprint, and nothing is
/// cached for it.
pub fn compile_and_serialize_backend(
    prepared_code: &[u8],
    vm_kind: VMKind,
    key: &CryptoHash,
) -> (r: Result<Result<Vec<u8>, FunctionCallError>, VMError>)
    requires
        vm_kind != VMKind::Wasmtime,
    ensures
        r matches Ok(o) ==> co_wf(co_view(o)),
        r matches Err(e) ==> e@ == VMErrorView::CacheError(
            CacheErrorView::SerializationError(key@),
        ),
{
    let store = match vm_kind {
        VMKind::Wasmer0 => singlepass_store(),
        VMKind::Wasmer2 => cranelift_store(),
        VMKind::Wasmtime => unreached(),
    };
    match wasmer_compile(&store, prepared_code) {
        Err(msg) => {
            let mut m = msg;
            if m.len() > u32::MAX as usize {
                m.truncate(u32::MAX as usize);
            }
            Ok(Err(FunctionCallError::CompilationError(m)))
        }
        Ok(module) => {
            match wasmer_serialize(&module) {
                Ok(bytes) => {
                    if bytes.len() <= u32::MAX as usize {
                        Ok(Ok(bytes))
                    } else {
                        Err(
                            VMError::CacheError(
                                CacheError::SerializationError(copy_bytes(key.as_bytes())),
                            ),
                        )
                    }
                }
                Err(_) => {
                    Err(
                        VMError::CacheError(
                            CacheError::SerializationError(copy_bytes(key.as_bytes())),
                        ),
                    )
                }
            }
        }
    }
}

} // verus!
