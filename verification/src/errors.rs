//! The error taxonomy: compile failures (expected, cacheable), cache-layer
//! failures (surfaced, never swallowed), and the precompilation outcome.

use vstd::prelude::*;
use crate::codec::copy_bytes;

verus! {

/// A failure of the compile pipeline for a contract: expected for malformed
/// or resource-exceeding bytecode, and recorded in the persistent cache so
/// the same bytecode never pays full compilation cost twice.
#[derive(Debug)]
pub enum FunctionCallError {
    /// The backend compiler rejected the bytecode; holds its message bytes.
    CompilationError(Vec<u8>),
    /// The upstream preparation pass rejected the bytecode; treated exactly
    /// like a compile failure for caching purposes.
    PrepareError(Vec<u8>),
}

/// The mathematical value of a `FunctionCallError`.
pub enum FunctionCallErrorView {
    CompilationError(Seq<u8>),
    PrepareError(Seq<u8>),
}

impl View for FunctionCallError {
    type V = FunctionCallErrorView;

    open spec fn view(&self) -> FunctionCallErrorView {
        match self {
            FunctionCallError::CompilationError(m) => FunctionCallErrorView::CompilationError(m@),
            FunctionCallError::PrepareError(m) => FunctionCallErrorView::PrepareError(m@),
        }
    }
}

impl FunctionCallError {
    /// A fresh error with the same value.
    pub fn duplicate(&self) -> (r: FunctionCallError)
        ensures
            r@ == self@,
    {
        match self {
            FunctionCallError::CompilationError(m) => {
                FunctionCallError::CompilationError(copy_bytes(m.as_slice()))
            }
            FunctionCallError::PrepareError(m) => {
                FunctionCallError::PrepareError(copy_bytes(m.as_slice()))
            }
        }
    }
}

/// A failure of the cache layers themselves, distinct from a compile failure.
#[derive(Debug)]
pub enum CacheError {
    /// The persistent store failed on `get`; surfaced, not treated as a miss.
    ReadError,
    /// The persistent store failed on `put`.
    WriteError,
    /// A stored record was truncated, malformed, or carried an unknown tag.
    DeserializationError,
    /// A freshly compiled module could not be serialized; holds the
    /// fingerprint bytes of the entry that could not be written.
    SerializationError(Vec<u8>),
}

/// The mathematical value of a `CacheError`.
pub enum CacheErrorView {
    ReadError,
    WriteError,
    DeserializationError,
    SerializationError(Seq<u8>),
}

impl View for CacheError {
    type V = CacheErrorView;

    open spec fn view(&self) -> CacheErrorView {
        match self {
            CacheError::ReadError => CacheErrorView::ReadError,
            CacheError::WriteError => CacheErrorView::WriteError,
            CacheError::DeserializationError => CacheErrorView::DeserializationError,
            CacheError::SerializationError(h) => CacheErrorView::SerializationError(h@),
        }
    }
}

impl CacheError {
    /// A fresh error with the same value.
    pub fn duplicate(&self) -> (r: CacheError)
        ensures
            r@ == self@,
    {
        match self {
            CacheError::ReadError => CacheError::ReadError,
            CacheError::WriteError => CacheError::WriteError,
            CacheError::DeserializationError => CacheError::DeserializationError,
            CacheError::SerializationError(h) => {
                CacheError::SerializationError(copy_bytes(h.as_slice()))
            }
        }
    }
}

/// Any error a resolution can end in.
#[derive(Debug)]
pub enum VMError {
    FunctionCallError(FunctionCallError),
    CacheError(CacheError),
}

/// The mathematical value of a `VMError`.
pub enum VMErrorView {
    FunctionCallError(FunctionCallErrorView),
    CacheError(CacheErrorView),
}

impl View for VMError {
    type V = VMErrorView;

    open spec fn view(&self) -> VMErrorView {
        match self {
            VMError::FunctionCallError(e) => VMErrorView::FunctionCallError(e@),
            VMError::CacheError(e) => VMErrorView::CacheError(e@),
        }
    }
}

impl VMError {
    /// A fresh error with the same value.
    pub fn duplicate(&self) -> (r: VMError)
        ensures
            r@ == self@,
    {
        match self {
            VMError::FunctionCallError(e) => VMError::FunctionCallError(e.duplicate()),
            VMError::CacheError(e) => VMError::CacheError(e.duplicate()),
        }
    }
}

/// What a precompilation request achieved.
#[derive(Clone, Copy, PartialEq, Eq, Structural, Debug)]
pub enum ContractPrecompilatonResult {
    /// The contract was compiled and its record stored.
    ContractCompiled,
    /// A record for this fingerprint already exists; it was not overwritten.
    ContractAlreadyInCache,
    /// No persistent cache was supplied; nothing was done.
    CacheNotAvailable,
}

/// A precompilation failure, wrapping the underlying error.
#[derive(Debug)]
pub struct ContractPrecompilatonError {
    pub error: VMError,
}

impl View for ContractPrecompilatonError {
    type V = VMErrorView;

    open spec fn view(&self) -> VMErrorView {
        self.error@
    }
}

impl ContractPrecompilatonError {
    pub fn new(error: VMError) -> (r: ContractPrecompilatonError)
        ensures
            r@ == error@,
    {
        ContractPrecompilatonError { error }
    }
}

} // verus!
