use contract_cache::hash::CryptoHash;
use contract_cache::key::{get_contract_cache_key, vm_hash};
use contract_cache::types::{ContractCode, GasCounterMode, VMConfig, VMKind};
use sha2::Digest;

fn fingerprint(code: &ContractCode, kind: VMKind, cfg: u64, mode: GasCounterMode) -> Vec<u8> {
    let config = VMConfig { non_crypto_hash: cfg };
    get_contract_cache_key(code, kind, &config, mode).as_bytes().to_vec()
}

#[test]
fn fingerprint_is_deterministic() {
    let code = ContractCode::new(vec![1, 2, 3, 4]);
    let a = fingerprint(&code, VMKind::Wasmer0, 7, GasCounterMode::HostFunction);
    let b = fingerprint(&code, VMKind::Wasmer0, 7, GasCounterMode::HostFunction);
    assert_eq!(a, b);
    let code_again = ContractCode::new(vec![1, 2, 3, 4]);
    let c = fingerprint(&code_again, VMKind::Wasmer0, 7, GasCounterMode::HostFunction);
    assert_eq!(a, c);
}

#[test]
fn fingerprint_is_sensitive_to_every_input() {
    let code = ContractCode::new(vec![1, 2, 3, 4]);
    let base = fingerprint(&code, VMKind::Wasmer0, 7, GasCounterMode::HostFunction);

    let other_code = ContractCode::new(vec![1, 2, 3, 5]);
    assert_ne!(base, fingerprint(&other_code, VMKind::Wasmer0, 7, GasCounterMode::HostFunction));
    assert_ne!(base, fingerprint(&code, VMKind::Wasmer2, 7, GasCounterMode::HostFunction));
    assert_ne!(base, fingerprint(&code, VMKind::Wasmer0, 8, GasCounterMode::HostFunction));
    assert_ne!(base, fingerprint(&code, VMKind::Wasmer0, 7, GasCounterMode::Inline));
}

#[test]
fn fingerprint_corpus_has_no_collisions() {
    let mut seen: Vec<Vec<u8>> = Vec::new();
    for code_bytes in [vec![], vec![0], vec![0, 0], vec![1], vec![255, 1, 2]] {
        let code = ContractCode::new(code_bytes);
        for kind in [VMKind::Wasmer0, VMKind::Wasmer2] {
            for cfg in [0u64, 1, u64::MAX] {
                for mode in [GasCounterMode::HostFunction, GasCounterMode::Inline] {
                    let fp = fingerprint(&code, kind, cfg, mode);
                    assert!(!seen.contains(&fp));
                    seen.push(fp);
                }
            }
        }
    }
    assert_eq!(seen.len(), 5 * 2 * 3 * 2);
}

#[test]
fn fingerprint_matches_the_documented_layout() {
    // The fingerprint is the SHA-256 digest of: the current variant's tag
    // byte, the 32-byte content hash, the configuration hash (little
    // endian), the backend tag, the backend internal version (little
    // endian), and the instrumentation tag.
    let code_bytes = vec![10u8, 20, 30];
    let code = ContractCode::new(code_bytes.clone());
    let cfg: u64 = 0x0102030405060708;
    let got = fingerprint(&code, VMKind::Wasmer0, cfg, GasCounterMode::HostFunction);

    let content_hash = sha2::Sha256::digest(&code_bytes);
    let mut buf: Vec<u8> = Vec::new();
    buf.push(3u8);
    buf.extend_from_slice(&content_hash);
    buf.extend_from_slice(&cfg.to_le_bytes());
    buf.push(0u8);
    buf.extend_from_slice(&vm_hash(VMKind::Wasmer0).to_le_bytes());
    buf.push(0u8);
    let expected = sha2::Sha256::digest(&buf);
    assert_eq!(got.as_slice(), expected.as_slice());
}

#[test]
fn a_new_tag_variant_invalidates_old_fingerprints() {
    // The previous variant lacked the instrumentation mode and carried tag
    // byte 2; the same field values under the old layout hash differently.
    let code_bytes = vec![10u8, 20, 30];
    let code = ContractCode::new(code_bytes.clone());
    let cfg: u64 = 99;
    let current = fingerprint(&code, VMKind::Wasmer0, cfg, GasCounterMode::HostFunction);

    let content_hash = sha2::Sha256::digest(&code_bytes);
    let mut old_layout: Vec<u8> = Vec::new();
    old_layout.push(2u8);
    old_layout.extend_from_slice(&content_hash);
    old_layout.extend_from_slice(&cfg.to_le_bytes());
    old_layout.push(0u8);
    old_layout.extend_from_slice(&vm_hash(VMKind::Wasmer0).to_le_bytes());
    let old_fingerprint = sha2::Sha256::digest(&old_layout);
    assert_ne!(current.as_slice(), old_fingerprint.as_slice());
}

#[test]
fn vm_hash_distinguishes_backends() {
    assert_ne!(vm_hash(VMKind::Wasmer0), vm_hash(VMKind::Wasmer2));
    assert_ne!(vm_hash(VMKind::Wasmer0), vm_hash(VMKind::Wasmtime));
    assert_ne!(vm_hash(VMKind::Wasmer2), vm_hash(VMKind::Wasmtime));
}

#[test]
fn backend_selection_is_a_pure_threshold() {
    assert_eq!(VMKind::for_protocol_version(0), VMKind::Wasmer0);
    assert_eq!(VMKind::for_protocol_version(47), VMKind::Wasmer0);
    assert_eq!(VMKind::for_protocol_version(48), VMKind::Wasmer2);
    assert_eq!(VMKind::for_protocol_version(u32::MAX), VMKind::Wasmer2);
}

#[test]
fn content_hash_is_the_digest_of_the_code() {
    let code = ContractCode::new(vec![5, 6, 7]);
    let expected = sha2::Sha256::digest(&[5u8, 6, 7]);
    assert_eq!(code.hash().as_bytes(), expected.as_slice());
    assert_eq!(code.code(), &[5u8, 6, 7]);
}

#[test]
fn crypto_hash_equality_and_copies() {
    let a = CryptoHash::digest(&[1, 2, 3]);
    let b = CryptoHash::digest(&[1, 2, 3]);
    let c = CryptoHash::digest(&[1, 2, 4]);
    assert!(a.equals(&b));
    assert!(!a.equals(&c));
    let d = a.duplicate();
    assert!(d.equals(&a));
    assert_eq!(a.as_bytes().len(), 32);
    let e = CryptoHash::from_bytes(a.as_bytes().to_vec());
    assert!(e.equals(&a));
}
