//! The fingerprint builder: a versioned, tagged key record, serialized
//! deterministically and hashed to the fixed-width identifier under which
//! compile outcomes are cached.

use vstd::prelude::*;
use crate::codec::{lemma_u64_le_injective, push_bytes, push_u64_le, u64_le};
use crate::hash::{sha256_of, CryptoHash};
use crate::types::{
    gas_counter_mode_tag, lemma_gas_counter_mode_tag_injective, lemma_vm_kind_tag_injective,
    vm_kind_tag, ContractCode, GasCounterMode, VMConfig, VMKind,
};

verus! {

/// The backend-internal version of the `Wasmer0` adapter: bumped whenever its
/// serialized-artifact format or linked compiler changes incompatibly.
pub const WASMER0_VM_HASH: u64 = 1;

/// The backend-internal version of the `Wasmer2` adapter.
pub const WASMER2_VM_HASH: u64 = 2;

/// The backend-internal version of the `Wasmtime` adapter (declared, not yet
/// implemented).
pub const WASMTIME_VM_HASH: u64 = 3;

/// The backend-internal version that enters the fingerprint for each backend.
pub open spec fn spec_vm_hash(vm_kind: VMKind) -> u64 {
    match vm_kind {
        VMKind::Wasmer0 => WASMER0_VM_HASH,
        VMKind::Wasmer2 => WASMER2_VM_HASH,
        VMKind::Wasmtime => WASMTIME_VM_HASH,
    }
}

/// The version probe: each backend supplies its own output-format version.
pub fn vm_hash(vm_kind: VMKind) -> (r: u64)
    ensures
        r == spec_vm_hash(vm_kind),
{
    match vm_kind {
        VMKind::Wasmer0 => WASMER0_VM_HASH,
        VMKind::Wasmer2 => WASMER2_VM_HASH,
        VMKind::Wasmtime => WASMTIME_VM_HASH,
    }
}

/// The versioned fingerprint record. Each time the set or semantics of the
/// fields changes, a new variant is appended; the old variants are retained,
/// unused, so that every variant's tag byte stays stable. The tag byte leads
/// the serialized bytes that are hashed, so a new variant invalidates all
/// previously cached entries with no migration step.
pub enum ContractCacheKey {
    Version1 { code_hash: Seq<u8>, vm_config_non_crypto_hash: u64, vm_kind: VMKind },
    /// Retained so the later tags keep their positions; never constructed.
    Version2Retired,
    /// Bumped to retire the previous serialization format of cached
    /// artifacts.
    Version3 {
        code_hash: Seq<u8>,
        vm_config_non_crypto_hash: u64,
        vm_kind: VMKind,
        vm_hash: u64,
    },
    /// The current variant: adds the instrumentation mode.
    Version4 {
        code_hash: Seq<u8>,
        vm_config_non_crypto_hash: u64,
        vm_kind: VMKind,
        vm_hash: u64,
        gas_counter_mode: GasCounterMode,
    },
}

/// The deterministic serialization of a fingerprint record: the variant's tag
/// byte, then its fields in order, integers little-endian.
pub open spec fn enc_key(k: ContractCacheKey) -> Seq<u8> {
    match k {
        ContractCacheKey::Version1 { code_hash, vm_config_non_crypto_hash, vm_kind } => {
            seq![0u8] + code_hash + u64_le(vm_config_non_crypto_hash) + seq![vm_kind_tag(vm_kind)]
        }
        ContractCacheKey::Version2Retired => seq![1u8],
        ContractCacheKey::Version3 { code_hash, vm_config_non_crypto_hash, vm_kind, vm_hash } => {
            seq![2u8] + code_hash + u64_le(vm_config_non_crypto_hash) + seq![vm_kind_tag(vm_kind)]
                + u64_le(vm_hash)
        }
        ContractCacheKey::Version4 {
            code_hash,
            vm_config_non_crypto_hash,
            vm_kind,
            vm_hash,
            gas_counter_mode,
        } => {
            seq![3u8] + code_hash + u64_le(vm_config_non_crypto_hash) + seq![vm_kind_tag(vm_kind)]
                + u64_le(vm_hash) + seq![gas_counter_mode_tag(gas_counter_mode)]
        }
    }
}

/// The current fingerprint record for a tuple of inputs.
pub open spec fn current_cache_key(
    code_hash: Seq<u8>,
    config: VMConfig,
    vm_kind: VMKind,
    gas_counter_mode: GasCounterMode,
) -> ContractCacheKey {
    ContractCacheKey::Version4 {
        code_hash,
        vm_config_non_crypto_hash: config.non_crypto_hash,
        vm_kind,
        vm_hash: spec_vm_hash(vm_kind),
        gas_counter_mode,
    }
}

/// The fingerprint: the digest of the serialized current record.
pub open spec fn spec_contract_cache_key(
    code_hash: Seq<u8>,
    config: VMConfig,
    vm_kind: VMKind,
    gas_counter_mode: GasCounterMode,
) -> Seq<u8> {
    sha256_of(enc_key(current_cache_key(code_hash, config, vm_kind, gas_counter_mode)))
}

/// Builds the fingerprint under which this contract's compile outcome is
/// cached. Pure and deterministic: the result depends only on the code's
/// content hash, the configuration hash, the backend, the backend's internal
/// version, and the instrumentation mode.
pub fn get_contract_cache_key(
    code: &ContractCode,
    vm_kind: VMKind,
    config: &VMConfig,
    gas_counter_mode: GasCounterMode,
) -> (r: CryptoHash)
    ensures
        r@ == spec_contract_cache_key(code@.hash, *config, vm_kind, gas_counter_mode),
        r.wf(),
{
    let mut buf: Vec<u8> = Vec::new();
    buf.push(3u8);
    push_bytes(&mut buf, code.hash().as_bytes());
    push_u64_le(&mut buf, config.non_crypto_hash);
    buf.push(vm_kind.tag());
    push_u64_le(&mut buf, vm_hash(vm_kind));
    buf.push(gas_counter_mode.tag());
    proof {
        assert(buf@ =~= enc_key(
            current_cache_key(code@.hash, *config, vm_kind, gas_counter_mode),
        ));
    }
    CryptoHash::digest(buf.as_slice())
}

/// Determinism: the fingerprint is a function of the input tuple alone, so
/// equal tuples give equal fingerprints, on repeated calls and across
/// processes.
pub proof fn lemma_fingerprint_deterministic(
    hash1: Seq<u8>,
    config1: VMConfig,
    kind1: VMKind,
    mode1: GasCounterMode,
    hash2: Seq<u8>,
    config2: VMConfig,
    kind2: VMKind,
    mode2: GasCounterMode,
)
    requires
        hash1 == hash2,
        config1 == config2,
        kind1 == kind2,
        mode1 == mode2,
    ensures
        spec_contract_cache_key(hash1, config1, kind1, mode1) == spec_contract_cache_key(
            hash2,
            config2,
            kind2,
            mode2,
        ),
{
}

/// The serialized current record determines every field: the encoding is
/// injective for 32-byte content hashes.
pub proof fn lemma_key_encoding_injective(
    hash1: Seq<u8>,
    cfg1: u64,
    kind1: VMKind,
    vmh1: u64,
    mode1: GasCounterMode,
    hash2: Seq<u8>,
    cfg2: u64,
    kind2: VMKind,
    vmh2: u64,
    mode2: GasCounterMode,
)
    requires
        hash1.len() == 32,
        hash2.len() == 32,
        enc_key(
            ContractCacheKey::Version4 {
                code_hash: hash1,
                vm_config_non_crypto_hash: cfg1,
                vm_kind: kind1,
                vm_hash: vmh1,
                gas_counter_mode: mode1,
            },
        ) == enc_key(
            ContractCacheKey::Version4 {
                code_hash: hash2,
                vm_config_non_crypto_hash: cfg2,
                vm_kind: kind2,
                vm_hash: vmh2,
                gas_counter_mode: mode2,
            },
        ),
    ensures
        hash1 == hash2,
        cfg1 == cfg2,
        kind1 == kind2,
        vmh1 == vmh2,
        mode1 == mode2,
{
    let e1 = enc_key(
        ContractCacheKey::Version4 {
            code_hash: hash1,
            vm_config_non_crypto_hash: cfg1,
            vm_kind: kind1,
            vm_hash: vmh1,
            gas_counter_mode: mode1,
        },
    );
    let e2 = enc_key(
        ContractCacheKey::Version4 {
            code_hash: hash2,
            vm_config_non_crypto_hash: cfg2,
            vm_kind: kind2,
            vm_hash: vmh2,
            gas_counter_mode: mode2,
        },
    );
    assert forall|i: int| 0 <= i < 32 implies hash1[i] == hash2[i] by {
        assert(e1[1 + i] == hash1[i]);
        assert(e2[1 + i] == hash2[i]);
    }
    assert(hash1 =~= hash2);
    assert forall|j: int| 0 <= j < 8 implies u64_le(cfg1)[j] == u64_le(cfg2)[j] by {
        assert(e1[33 + j] == u64_le(cfg1)[j]);
        assert(e2[33 + j] == u64_le(cfg2)[j]);
    }
    assert(u64_le(cfg1) =~= u64_le(cfg2));
    lemma_u64_le_injective(cfg1, cfg2);
    assert(e1[41] == vm_kind_tag(kind1));
    assert(e2[41] == vm_kind_tag(kind2));
    lemma_vm_kind_tag_injective(kind1, kind2);
    assert forall|j: int| 0 <= j < 8 implies u64_le(vmh1)[j] == u64_le(vmh2)[j] by {
        assert(e1[42 + j] == u64_le(vmh1)[j]);
        assert(e2[42 + j] == u64_le(vmh2)[j]);
    }
    assert(u64_le(vmh1) =~= u64_le(vmh2));
    lemma_u64_le_injective(vmh1, vmh2);
    assert(e1[50] == gas_counter_mode_tag(mode1));
    assert(e2[50] == gas_counter_mode_tag(mode2));
    lemma_gas_counter_mode_tag_injective(mode1, mode2);
}

/// Sensitivity: changing any one of the content hash, the configuration
/// hash, the backend, the backend internal version or the instrumentation
/// mode changes the serialized bytes that are hashed into the fingerprint.
/// (That two distinct digest inputs give distinct digests is SHA-256's
/// collision resistance, assumed of the digest, not proved here.)
pub proof fn lemma_fingerprint_sensitivity(
    hash1: Seq<u8>,
    cfg1: u64,
    kind1: VMKind,
    vmh1: u64,
    mode1: GasCounterMode,
    hash2: Seq<u8>,
    cfg2: u64,
    kind2: VMKind,
    vmh2: u64,
    mode2: GasCounterMode,
)
    requires
        hash1.len() == 32,
        hash2.len() == 32,
        !(hash1 == hash2 && cfg1 == cfg2 && kind1 == kind2 && vmh1 == vmh2 && mode1 == mode2),
    ensures
        enc_key(
            ContractCacheKey::Version4 {
                code_hash: hash1,
                vm_config_non_crypto_hash: cfg1,
                vm_kind: kind1,
                vm_hash: vmh1,
                gas_counter_mode: mode1,
            },
        ) != enc_key(
            ContractCacheKey::Version4 {
                code_hash: hash2,
                vm_config_non_crypto_hash: cfg2,
                vm_kind: kind2,
                vm_hash: vmh2,
                gas_counter_mode: mode2,
            },
        ),
{
    if enc_key(
        ContractCacheKey::Version4 {
            code_hash: hash1,
            vm_config_non_crypto_hash: cfg1,
            vm_kind: kind1,
            vm_hash: vmh1,
            gas_counter_mode: mode1,
        },
    ) == enc_key(
        ContractCacheKey::Version4 {
            code_hash: hash2,
            vm_config_non_crypto_hash: cfg2,
            vm_kind: kind2,
            vm_hash: vmh2,
            gas_counter_mode: mode2,
        },
    ) {
        lemma_key_encoding_injective(
            hash1,
            cfg1,
            kind1,
            vmh1,
            mode1,
            hash2,
            cfg2,
            kind2,
            vmh2,
            mode2,
        );
    }
}

/// Versioning invalidation: a new tag variant with the same field values
/// serializes differently from the old variant, so it is hashed from
/// different bytes and invalidates every previously cached entry.
pub proof fn lemma_version_invalidates(
    code_hash: Seq<u8>,
    cfg: u64,
    kind: VMKind,
    vmh: u64,
    mode: GasCounterMode,
)
    ensures
        enc_key(
            ContractCacheKey::Version3 {
                code_hash,
                vm_config_non_crypto_hash: cfg,
                vm_kind: kind,
                vm_hash: vmh,
            },
        ) != enc_key(
            ContractCacheKey::Version4 {
                code_hash,
                vm_config_non_crypto_hash: cfg,
                vm_kind: kind,
                vm_hash: vmh,
                gas_counter_mode: mode,
            },
        ),
{
    let e3 = enc_key(
        ContractCacheKey::Version3 {
            code_hash,
            vm_config_non_crypto_hash: cfg,
            vm_kind: kind,
            vm_hash: vmh,
        },
    );
    let e4 = enc_key(
        ContractCacheKey::Version4 {
            code_hash,
            vm_config_non_crypto_hash: cfg,
            vm_kind: kind,
            vm_hash: vmh,
            gas_counter_mode: mode,
        },
    );
    assert(e3[0] == 2u8);
    assert(e4[0] == 3u8);
}

} // verus!
