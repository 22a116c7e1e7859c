//! The record codec: the tagged union persisted per fingerprint, its
//! deterministic binary encoding, and the proof that decoding inverts
//! encoding for every record this system produces.

use vstd::prelude::*;
use vstd::slice::slice_subrange;
use crate::codec::{
    copy_bytes, enc_len_ok, lemma_u32_le_round, push_bytes, push_u32_le, u32_from_le, u32_le,
    u32_of_le,
};
use crate::errors::{
    CacheError, CacheErrorView, FunctionCallError, FunctionCallErrorView, VMError, VMErrorView,
};

verus! {

/// The unit of persistence: one record per fingerprint, remembering either a
/// compile failure or the serialized compiled artifact.
pub enum CacheRecord {
    Error(VMError),
    Code(Vec<u8>),
}

/// The mathematical value of a `CacheRecord`.
pub enum CacheRecordView {
    Error(VMErrorView),
    Code(Seq<u8>),
}

impl View for CacheRecord {
    type V = CacheRecordView;

    open spec fn view(&self) -> CacheRecordView {
        match self {
            CacheRecord::Error(e) => CacheRecordView::Error(e@),
            CacheRecord::Code(b) => CacheRecordView::Code(b@),
        }
    }
}

/// Decoding failed: the bytes were truncated, malformed, or carried an
/// unrecognized tag.
#[derive(Clone, Copy, PartialEq, Eq, Structural, Debug)]
pub struct DecodeError;

// --- well-formedness: every variable-length field fits its length prefix ---

pub open spec fn wf_function_call_error(e: FunctionCallErrorView) -> bool {
    match e {
        FunctionCallErrorView::CompilationError(m) => enc_len_ok(m),
        FunctionCallErrorView::PrepareError(m) => enc_len_ok(m),
    }
}

pub open spec fn wf_cache_error(e: CacheErrorView) -> bool {
    match e {
        CacheErrorView::SerializationError(h) => enc_len_ok(h),
        _ => true,
    }
}

pub open spec fn wf_vm_error(e: VMErrorView) -> bool {
    match e {
        VMErrorView::FunctionCallError(f) => wf_function_call_error(f),
        VMErrorView::CacheError(c) => wf_cache_error(c),
    }
}

/// Every record this system produces satisfies this: each byte string in it
/// fits a 32-bit length prefix.
pub open spec fn wf_record(r: CacheRecordView) -> bool {
    match r {
        CacheRecordView::Error(e) => wf_vm_error(e),
        CacheRecordView::Code(b) => enc_len_ok(b),
    }
}

// --- the encoding ---

/// A byte string, length-prefixed.
pub open spec fn enc_bytes(b: Seq<u8>) -> Seq<u8> {
    u32_le(b.len() as u32) + b
}

pub open spec fn enc_function_call_error(e: FunctionCallErrorView) -> Seq<u8> {
    match e {
        FunctionCallErrorView::CompilationError(m) => seq![0u8] + enc_bytes(m),
        FunctionCallErrorView::PrepareError(m) => seq![1u8] + enc_bytes(m),
    }
}

pub open spec fn enc_cache_error(e: CacheErrorView) -> Seq<u8> {
    match e {
        CacheErrorView::ReadError => seq![0u8],
        CacheErrorView::WriteError => seq![1u8],
        CacheErrorView::DeserializationError => seq![2u8],
        CacheErrorView::SerializationError(h) => seq![3u8] + enc_bytes(h),
    }
}

pub open spec fn enc_vm_error(e: VMErrorView) -> Seq<u8> {
    match e {
        VMErrorView::FunctionCallError(f) => seq![0u8] + enc_function_call_error(f),
        VMErrorView::CacheError(c) => seq![1u8] + enc_cache_error(c),
    }
}

/// The serialized form of a record.
pub open spec fn enc_record(r: CacheRecordView) -> Seq<u8> {
    match r {
        CacheRecordView::Error(e) => seq![0u8] + enc_vm_error(e),
        CacheRecordView::Code(b) => seq![1u8] + enc_bytes(b),
    }
}

// --- the decoding: prefix parsers returning the value and the remainder ---

pub open spec fn dec_bytes(s: Seq<u8>) -> Option<(Seq<u8>, Seq<u8>)> {
    if s.len() < 4 {
        None
    } else {
        let n = u32_of_le(s[0], s[1], s[2], s[3]) as int;
        if s.len() - 4 < n {
            None
        } else {
            Some((s.subrange(4, 4 + n), s.subrange(4 + n, s.len() as int)))
        }
    }
}

pub open spec fn dec_function_call_error(s: Seq<u8>) -> Option<(FunctionCallErrorView, Seq<u8>)> {
    if s.len() < 1 {
        None
    } else if s[0] == 0 {
        match dec_bytes(s.skip(1)) {
            Some((m, rest)) => Some((FunctionCallErrorView::CompilationError(m), rest)),
            None => None,
        }
    } else if s[0] == 1 {
        match dec_bytes(s.skip(1)) {
            Some((m, rest)) => Some((FunctionCallErrorView::PrepareError(m), rest)),
            None => None,
        }
    } else {
        None
    }
}

pub open spec fn dec_cache_error(s: Seq<u8>) -> Option<(CacheErrorView, Seq<u8>)> {
    if s.len() < 1 {
        None
    } else if s[0] == 0 {
        Some((CacheErrorView::ReadError, s.skip(1)))
    } else if s[0] == 1 {
        Some((CacheErrorView::WriteError, s.skip(1)))
    } else if s[0] == 2 {
        Some((CacheErrorView::DeserializationError, s.skip(1)))
    } else if s[0] == 3 {
        match dec_bytes(s.skip(1)) {
            Some((h, rest)) => Some((CacheErrorView::SerializationError(h), rest)),
            None => None,
        }
    } else {
        None
    }
}

pub open spec fn dec_vm_error(s: Seq<u8>) -> Option<(VMErrorView, Seq<u8>)> {
    if s.len() < 1 {
        None
    } else if s[0] == 0 {
        match dec_function_call_error(s.skip(1)) {
            Some((f, rest)) => Some((VMErrorView::FunctionCallError(f), rest)),
            None => None,
        }
    } else if s[0] == 1 {
        match dec_cache_error(s.skip(1)) {
            Some((c, rest)) => Some((VMErrorView::CacheError(c), rest)),
            None => None,
        }
    } else {
        None
    }
}

/// Decodes a whole input: the record must consume every byte.
pub open spec fn dec_record(s: Seq<u8>) -> Option<CacheRecordView> {
    if s.len() < 1 {
        None
    } else {
        let body = s.skip(1);
        if s[0] == 0 {
            match dec_vm_error(body) {
                Some((e, rest)) => if rest.len() == 0 {
                    Some(CacheRecordView::Error(e))
                } else {
                    None
                },
                None => None,
            }
        } else if s[0] == 1 {
            match dec_bytes(body) {
                Some((b, rest)) => if rest.len() == 0 {
                    Some(CacheRecordView::Code(b))
                } else {
                    None
                },
                None => None,
            }
        } else {
            None
        }
    }
}

// --- round trip: decoding inverts encoding ---

pub proof fn lemma_dec_bytes(b: Seq<u8>, rest: Seq<u8>)
    requires
        enc_len_ok(b),
    ensures
        dec_bytes(enc_bytes(b) + rest) == Some((b, rest)),
{
    let s = enc_bytes(b) + rest;
    let n32 = b.len() as u32;
    assert(s[0] == u32_le(n32)[0] && s[1] == u32_le(n32)[1] && s[2] == u32_le(n32)[2] && s[3]
        == u32_le(n32)[3]);
    lemma_u32_le_round(n32);
    assert(u32_of_le(s[0], s[1], s[2], s[3]) == n32);
    assert(s.subrange(4, 4 + b.len() as int) =~= b);
    assert(s.subrange(4 + b.len() as int, s.len() as int) =~= rest);
}

pub proof fn lemma_dec_function_call_error(e: FunctionCallErrorView, rest: Seq<u8>)
    requires
        wf_function_call_error(e),
    ensures
        dec_function_call_error(enc_function_call_error(e) + rest) == Some((e, rest)),
{
    let s = enc_function_call_error(e) + rest;
    match e {
        FunctionCallErrorView::CompilationError(m) => {
            assert(s.skip(1) =~= enc_bytes(m) + rest);
            lemma_dec_bytes(m, rest);
        }
        FunctionCallErrorView::PrepareError(m) => {
            assert(s.skip(1) =~= enc_bytes(m) + rest);
            lemma_dec_bytes(m, rest);
        }
    }
}

pub proof fn lemma_dec_cache_error(e: CacheErrorView, rest: Seq<u8>)
    requires
        wf_cache_error(e),
    ensures
        dec_cache_error(enc_cache_error(e) + rest) == Some((e, rest)),
{
    let s = enc_cache_error(e) + rest;
    match e {
        CacheErrorView::SerializationError(h) => {
            assert(s.skip(1) =~= enc_bytes(h) + rest);
            lemma_dec_bytes(h, rest);
        }
        _ => {
            assert(s.skip(1) =~= rest);
        }
    }
}

pub proof fn lemma_dec_vm_error(e: VMErrorView, rest: Seq<u8>)
    requires
        wf_vm_error(e),
    ensures
        dec_vm_error(enc_vm_error(e) + rest) == Some((e, rest)),
{
    let s = enc_vm_error(e) + rest;
    match e {
        VMErrorView::FunctionCallError(f) => {
            assert(s.skip(1) =~= enc_function_call_error(f) + rest);
            lemma_dec_function_call_error(f, rest);
        }
        VMErrorView::CacheError(c) => {
            assert(s.skip(1) =~= enc_cache_error(c) + rest);
            lemma_dec_cache_error(c, rest);
        }
    }
}

/// Decode is the exact inverse of encode for every record this system
/// produces.
pub proof fn lemma_record_round_trip(r: CacheRecordView)
    requires
        wf_record(r),
    ensures
        dec_record(enc_record(r)) == Some(r),
{
    let s = enc_record(r);
    let empty = Seq::<u8>::empty();
    match r {
        CacheRecordView::Error(e) => {
            assert(s.skip(1) =~= enc_vm_error(e) + empty);
            lemma_dec_vm_error(e, empty);
        }
        CacheRecordView::Code(b) => {
            assert(s.skip(1) =~= enc_bytes(b) + empty);
            lemma_dec_bytes(b, empty);
        }
    }
}

// --- executable encoding ---

/// Appends a length-prefixed byte string.
fn encode_bytes_into(out: &mut Vec<u8>, b: &[u8])
    requires
        enc_len_ok(b@),
    ensures
        final(out)@ == old(out)@ + enc_bytes(b@),
{
    push_u32_le(out, b.len() as u32);
    push_bytes(out, b);
    proof {
        assert(out@ =~= old(out)@ + enc_bytes(b@));
    }
}

fn encode_vm_error_into(out: &mut Vec<u8>, e: &VMError)
    requires
        wf_vm_error(e@),
    ensures
        final(out)@ == old(out)@ + enc_vm_error(e@),
{
    match e {
        VMError::FunctionCallError(f) => {
            out.push(0u8);
            match f {
                FunctionCallError::CompilationError(m) => {
                    out.push(0u8);
                    encode_bytes_into(out, m.as_slice());
                }
                FunctionCallError::PrepareError(m) => {
                    out.push(1u8);
                    encode_bytes_into(out, m.as_slice());
                }
            }
        }
        VMError::CacheError(c) => {
            out.push(1u8);
            match c {
                CacheError::ReadError => out.push(0u8),
                CacheError::WriteError => out.push(1u8),
                CacheError::DeserializationError => out.push(2u8),
                CacheError::SerializationError(h) => {
                    out.push(3u8);
                    encode_bytes_into(out, h.as_slice());
                }
            }
        }
    }
    proof {
        assert(out@ =~= old(out)@ + enc_vm_error(e@));
    }
}

impl CacheRecord {
    /// Every record the orchestrator builds is well formed.
    pub open spec fn wf(&self) -> bool {
        wf_record(self@)
    }

    /// Serializes the record; total for well-formed records.
    pub fn encode(&self) -> (r: Vec<u8>)
        requires
            self.wf(),
        ensures
            r@ == enc_record(self@),
    {
        let mut out: Vec<u8> = Vec::new();
        match self {
            CacheRecord::Error(e) => {
                out.push(0u8);
                encode_vm_error_into(&mut out, e);
            }
            CacheRecord::Code(b) => {
                out.push(1u8);
                encode_bytes_into(&mut out, b.as_slice());
            }
        }
        proof {
            assert(out@ =~= enc_record(self@));
        }
        out
    }

    /// Parses a record; fails exactly on inputs that no well-formed record
    /// encodes to.
    pub fn decode(s: &[u8]) -> (r: Result<CacheRecord, DecodeError>)
        ensures
            match r {
                Ok(rec) => dec_record(s@) == Some(rec@),
                Err(_) => dec_record(s@) is None,
            },
    {
        if s.len() < 1 {
            return Err(DecodeError);
        }
        let tag = s[0];
        let body = slice_subrange(s, 1, s.len());
        proof {
            assert(body@ =~= s@.skip(1));
        }
        if tag == 0 {
            match take_vm_error(body) {
                Some((e, rest)) => {
                    if rest.len() == 0 {
                        proof {
                            assert(rest@ =~= Seq::<u8>::empty());
                        }
                        Ok(CacheRecord::Error(e))
                    } else {
                        Err(DecodeError)
                    }
                }
                None => Err(DecodeError),
            }
        } else if tag == 1 {
            match take_bytes(body) {
                Some((b, rest)) => {
                    if rest.len() == 0 {
                        proof {
                            assert(rest@ =~= Seq::<u8>::empty());
                        }
                        Ok(CacheRecord::Code(b))
                    } else {
                        Err(DecodeError)
                    }
                }
                None => Err(DecodeError),
            }
        } else {
            Err(DecodeError)
        }
    }
}

// --- executable decoding helpers, each mirroring its prefix parser ---

fn take_bytes(s: &[u8]) -> (r: Option<(Vec<u8>, &[u8])>)
    ensures
        match r {
            Some(p) => dec_bytes(s@) == Some((p.0@, p.1@)),
            None => dec_bytes(s@) is None,
        },
{
    if s.len() < 4 {
        return None;
    }
    let n = u32_from_le(s[0], s[1], s[2], s[3]);
    let n_usize = n as usize;
    if s.len() - 4 < n_usize {
        return None;
    }
    let v = copy_bytes(slice_subrange(s, 4, 4 + n_usize));
    let rest = slice_subrange(s, 4 + n_usize, s.len());
    Some((v, rest))
}

fn take_bytes_after_tag(s: &[u8]) -> (r: Option<(Vec<u8>, &[u8])>)
    requires
        s@.len() >= 1,
    ensures
        match r {
            Some(p) => dec_bytes(s@.skip(1)) == Some((p.0@, p.1@)),
            None => dec_bytes(s@.skip(1)) is None,
        },
{
    let body = slice_subrange(s, 1, s.len());
    proof {
        assert(body@ =~= s@.skip(1));
    }
    take_bytes(body)
}

fn take_function_call_error(s: &[u8]) -> (r: Option<(FunctionCallError, &[u8])>)
    ensures
        match r {
            Some(p) => dec_function_call_error(s@) == Some((p.0@, p.1@)),
            None => dec_function_call_error(s@) is None,
        },
{
    if s.len() < 1 {
        return None;
    }
    let tag = s[0];
    if tag == 0 {
        match take_bytes_after_tag(s) {
            Some((m, rest)) => Some((FunctionCallError::CompilationError(m), rest)),
            None => None,
        }
    } else if tag == 1 {
        match take_bytes_after_tag(s) {
            Some((m, rest)) => Some((FunctionCallError::PrepareError(m), rest)),
            None => None,
        }
    } else {
        None
    }
}

fn take_cache_error(s: &[u8]) -> (r: Option<(CacheError, &[u8])>)
    ensures
        match r {
            Some(p) => dec_cache_error(s@) == Some((p.0@, p.1@)),
            None => dec_cache_error(s@) is None,
        },
{
    if s.len() < 1 {
        return None;
    }
    let tag = s[0];
    let rest = slice_subrange(s, 1, s.len());
    proof {
        assert(rest@ =~= s@.skip(1));
    }
    if tag == 0 {
        Some((CacheError::ReadError, rest))
    } else if tag == 1 {
        Some((CacheError::WriteError, rest))
    } else if tag == 2 {
        Some((CacheError::DeserializationError, rest))
    } else if tag == 3 {
        match take_bytes(rest) {
            Some((h, rest2)) => Some((CacheError::SerializationError(h), rest2)),
            None => None,
        }
    } else {
        None
    }
}

fn take_vm_error(s: &[u8]) -> (r: Option<(VMError, &[u8])>)
    ensures
        match r {
            Some(p) => dec_vm_error(s@) == Some((p.0@, p.1@)),
            None => dec_vm_error(s@) is None,
        },
{
    if s.len() < 1 {
        return None;
    }
    let tag = s[0];
    let body = slice_subrange(s, 1, s.len());
    proof {
        assert(body@ =~= s@.skip(1));
    }
    if tag == 0 {
        match take_function_call_error(body) {
            Some((f, rest)) => Some((VMError::FunctionCallError(f), rest)),
            None => None,
        }
    } else if tag == 1 {
        match take_cache_error(body) {
            Some((c, rest)) => Some((VMError::CacheError(c), rest)),
            None => None,
        }
    } else {
        None
    }
}

} // verus!
