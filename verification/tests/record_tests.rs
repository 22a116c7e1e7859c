use contract_cache::errors::{CacheError, FunctionCallError, VMError};
use contract_cache::record::CacheRecord;

fn records_equal(a: &CacheRecord, b: &CacheRecord) -> bool {
    match (a, b) {
        (CacheRecord::Code(x), CacheRecord::Code(y)) => x == y,
        (CacheRecord::Error(x), CacheRecord::Error(y)) => errors_equal(x, y),
        _ => false,
    }
}

fn errors_equal(a: &VMError, b: &VMError) -> bool {
    match (a, b) {
        (VMError::FunctionCallError(x), VMError::FunctionCallError(y)) => match (x, y) {
            (
                FunctionCallError::CompilationError(m),
                FunctionCallError::CompilationError(n),
            ) => m == n,
            (FunctionCallError::PrepareError(m), FunctionCallError::PrepareError(n)) => m == n,
            _ => false,
        },
        (VMError::CacheError(x), VMError::CacheError(y)) => match (x, y) {
            (CacheError::ReadError, CacheError::ReadError) => true,
            (CacheError::WriteError, CacheError::WriteError) => true,
            (CacheError::DeserializationError, CacheError::DeserializationError) => true,
            (CacheError::SerializationError(m), CacheError::SerializationError(n)) => m == n,
            _ => false,
        },
        _ => false,
    }
}

fn round_trips(record: CacheRecord) {
    let encoded = record.encode();
    let decoded = CacheRecord::decode(encoded.as_slice()).expect("decoding an encoded record");
    assert!(records_equal(&record, &decoded));
}

#[test]
fn code_record_round_trips() {
    round_trips(CacheRecord::Code(vec![]));
    round_trips(CacheRecord::Code(vec![0]));
    round_trips(CacheRecord::Code(vec![1, 2, 3, 255, 0, 42]));
}

#[test]
fn failure_record_round_trips() {
    round_trips(CacheRecord::Error(VMError::FunctionCallError(
        FunctionCallError::CompilationError(b"unsupported opcode".to_vec()),
    )));
    round_trips(CacheRecord::Error(VMError::FunctionCallError(
        FunctionCallError::CompilationError(vec![]),
    )));
    round_trips(CacheRecord::Error(VMError::FunctionCallError(
        FunctionCallError::PrepareError(b"stack limit".to_vec()),
    )));
}

#[test]
fn cache_error_record_round_trips() {
    round_trips(CacheRecord::Error(VMError::CacheError(CacheError::ReadError)));
    round_trips(CacheRecord::Error(VMError::CacheError(CacheError::WriteError)));
    round_trips(CacheRecord::Error(VMError::CacheError(CacheError::DeserializationError)));
    round_trips(CacheRecord::Error(VMError::CacheError(CacheError::SerializationError(
        vec![7; 32],
    ))));
}

#[test]
fn code_record_encoding_is_the_documented_layout() {
    let encoded = CacheRecord::Code(vec![9, 8, 7]).encode();
    assert_eq!(encoded, vec![1u8, 3, 0, 0, 0, 9, 8, 7]);
}

#[test]
fn failure_record_encoding_is_the_documented_layout() {
    let encoded = CacheRecord::Error(VMError::FunctionCallError(
        FunctionCallError::CompilationError(vec![65, 66]),
    ))
    .encode();
    assert_eq!(encoded, vec![0u8, 0, 0, 2, 0, 0, 0, 65, 66]);
}

#[test]
fn decoding_rejects_malformed_inputs() {
    assert!(CacheRecord::decode(&[]).is_err());
    assert!(CacheRecord::decode(&[9]).is_err());
    assert!(CacheRecord::decode(&[1, 3, 0, 0, 0, 9, 8]).is_err());
    assert!(CacheRecord::decode(&[1, 3, 0, 0]).is_err());
    assert!(CacheRecord::decode(&[0, 7]).is_err());
    assert!(CacheRecord::decode(&[0, 1, 9]).is_err());
}

#[test]
fn decoding_rejects_trailing_bytes() {
    let mut encoded = CacheRecord::Code(vec![9, 8, 7]).encode();
    encoded.push(0);
    assert!(CacheRecord::decode(encoded.as_slice()).is_err());
}
