//! The data model: backend identities, instrumentation modes, the reduced
//! compilation configuration, contract code, and the backend selection policy.

use vstd::prelude::*;
use crate::codec::copy_bytes;
use crate::hash::{sha256_of, CryptoHash};

verus! {

/// The closed set of compilation backends.
///
/// `Wasmtime` is declared but not implemented: selecting it for compilation is
/// a fatal condition, so the compiling entry points require that it is not
/// chosen.
#[derive(Clone, Copy, PartialEq, Eq, Structural, Debug, Hash)]
pub enum VMKind {
    Wasmer0,
    Wasmer2,
    Wasmtime,
}

/// The byte that stands for a backend in the fingerprint encoding.
pub open spec fn vm_kind_tag(k: VMKind) -> u8 {
    match k {
        VMKind::Wasmer0 => 0,
        VMKind::Wasmer2 => 1,
        VMKind::Wasmtime => 2,
    }
}

/// Distinct backends have distinct tags.
pub proof fn lemma_vm_kind_tag_injective(a: VMKind, b: VMKind)
    requires
        vm_kind_tag(a) == vm_kind_tag(b),
    ensures
        a == b,
{
}

/// The protocol version from which the selection policy picks `Wasmer2`.
pub const WASMER2_PROTOCOL_VERSION: u32 = 48;

impl VMKind {
    /// The fingerprint tag byte for this backend.
    pub fn tag(&self) -> (r: u8)
        ensures
            r == vm_kind_tag(*self),
    {
        match self {
            VMKind::Wasmer0 => 0,
            VMKind::Wasmer2 => 1,
            VMKind::Wasmtime => 2,
        }
    }

    /// The backend selection policy: a pure function from protocol version to
    /// backend, identical across all processes that share cached results.
    /// It never selects the unimplemented backend.
    pub fn for_protocol_version(protocol_version: u32) -> (r: VMKind)
        ensures
            r == spec_kind_for_protocol_version(protocol_version),
            r != VMKind::Wasmtime,
    {
        if protocol_version >= WASMER2_PROTOCOL_VERSION {
            VMKind::Wasmer2
        } else {
            VMKind::Wasmer0
        }
    }
}

/// What `VMKind::for_protocol_version` returns.
pub open spec fn spec_kind_for_protocol_version(protocol_version: u32) -> VMKind {
    if protocol_version >= WASMER2_PROTOCOL_VERSION {
        VMKind::Wasmer2
    } else {
        VMKind::Wasmer0
    }
}

/// The closed set of bytecode-instrumentation strategies; the mode affects
/// generated code, so it is part of the fingerprint.
#[derive(Clone, Copy, PartialEq, Eq, Structural, Debug, Hash)]
pub enum GasCounterMode {
    HostFunction,
    Inline,
}

/// The byte that stands for an instrumentation mode in the fingerprint
/// encoding.
pub open spec fn gas_counter_mode_tag(m: GasCounterMode) -> u8 {
    match m {
        GasCounterMode::HostFunction => 0,
        GasCounterMode::Inline => 1,
    }
}

/// Distinct modes have distinct tags.
pub proof fn lemma_gas_counter_mode_tag_injective(a: GasCounterMode, b: GasCounterMode)
    requires
        gas_counter_mode_tag(a) == gas_counter_mode_tag(b),
    ensures
        a == b,
{
}

impl GasCounterMode {
    /// The fingerprint tag byte for this mode.
    pub fn tag(&self) -> (r: u8)
        ensures
            r == gas_counter_mode_tag(*self),
    {
        match self {
            GasCounterMode::HostFunction => 0,
            GasCounterMode::Inline => 1,
        }
    }
}

/// The compilation configuration, reduced to the single non-cryptographic
/// hash value that enters the fingerprint. Equality of this hash is a
/// performance guarantee only; collision resistance comes from combining it
/// with the content hash of the code.
#[derive(Clone, Copy, PartialEq, Eq, Structural, Debug)]
pub struct VMConfig {
    pub non_crypto_hash: u64,
}

/// A contract: immutable bytecode plus its content hash, computed once and
/// reused as the stable identity of the code.
pub struct ContractCode {
    code: Vec<u8>,
    hash: CryptoHash,
}

/// The mathematical value of a `ContractCode`.
pub struct ContractCodeView {
    pub code: Seq<u8>,
    pub hash: Seq<u8>,
}

impl View for ContractCode {
    type V = ContractCodeView;

    closed spec fn view(&self) -> ContractCodeView {
        ContractCodeView { code: self.code@, hash: self.hash@ }
    }
}

impl ContractCode {
    /// The stored hash is the digest of the stored code.
    pub open spec fn wf(&self) -> bool {
        self@.hash == sha256_of(self@.code) && self@.hash.len() == 32
    }

    /// Takes ownership of the bytecode and computes its content hash.
    pub fn new(code: Vec<u8>) -> (r: ContractCode)
        ensures
            r@.code == code@,
            r.wf(),
    {
        let hash = CryptoHash::digest(code.as_slice());
        ContractCode { code, hash }
    }

    /// The raw bytecode.
    pub fn code(&self) -> (r: &[u8])
        ensures
            r@ == self@.code,
    {
        self.code.as_slice()
    }

    /// The content hash.
    pub fn hash(&self) -> (r: &CryptoHash)
        ensures
            r@ == self@.hash,
    {
        &self.hash
    }
}

/// A compiled module as the core handles it: the backend that produced it and
/// the serialized artifact bytes from which an execution engine reconstructs
/// the native module. The artifact is opaque to the core; reconstructing
/// executable state from it is the engine's trust-sensitive step and stays
/// outside this crate.
#[derive(Debug)]
pub struct CompiledModule {
    pub vm_kind: VMKind,
    pub artifact: Vec<u8>,
}

/// The mathematical value of a `CompiledModule`.
pub struct CompiledModuleView {
    pub vm_kind: VMKind,
    pub artifact: Seq<u8>,
}

impl View for CompiledModule {
    type V = CompiledModuleView;

    open spec fn view(&self) -> CompiledModuleView {
        CompiledModuleView { vm_kind: self.vm_kind, artifact: self.artifact@ }
    }
}

impl CompiledModule {
    /// A fresh module with the same value.
    pub fn duplicate(&self) -> (r: CompiledModule)
        ensures
            r@ == self@,
    {
        CompiledModule { vm_kind: self.vm_kind, artifact: copy_bytes(self.artifact.as_slice()) }
    }
}

} // verus!
