use era_core::error::LogParseError;
use era_core::events::Log;
use era_core::hash::H160;
use era_core::hash::H256;
use era_core::proposal::ProtocolUpgradeProposal;

fn word_u64(v: u64) -> [u8; 32] {
    let mut w = [0u8; 32];
    w[24..].copy_from_slice(&v.to_be_bytes());
    w
}

fn log_with_data(data: Vec<u8>) -> Log {
    Log {
        address: H160 { bytes: [0u8; 20] },
        topics: vec![H256 { bytes: [0u8; 32] }],
        data,
        block_number: 7,
        transaction_hash: H256 { bytes: [0u8; 32] },
    }
}

fn payload(
    id_word: [u8; 32],
    verifier_word: [u8; 32],
    boot: [u8; 32],
    def: [u8; 32],
    ts_word: [u8; 32],
    len_word: [u8; 32],
    tx: &[u8],
) -> Vec<u8> {
    let mut d = Vec::new();
    d.extend_from_slice(&id_word);
    d.extend_from_slice(&verifier_word);
    d.extend_from_slice(&boot);
    d.extend_from_slice(&def);
    d.extend_from_slice(&ts_word);
    d.extend_from_slice(&len_word);
    d.extend_from_slice(tx);
    d
}

#[test]
fn parses_all_fields() {
    let mut verifier_word = [0u8; 32];
    verifier_word[12..].copy_from_slice(&[0xCC; 20]);
    let data = payload(
        word_u64(42),
        verifier_word,
        [0xAB; 32],
        [0xCD; 32],
        word_u64(1_700_000_000),
        word_u64(3),
        b"abc",
    );
    let p = ProtocolUpgradeProposal::try_from_log(&log_with_data(data)).unwrap();
    assert_eq!(p.id, 42);
    assert_eq!(p.verifier_address, Some(H160 { bytes: [0xCC; 20] }));
    assert_eq!(p.bootloader_code_hash, Some(H256 { bytes: [0xAB; 32] }));
    assert_eq!(p.default_account_code_hash, Some(H256 { bytes: [0xCD; 32] }));
    assert_eq!(p.timestamp, 1_700_000_000);
    assert_eq!(p.tx, Some(b"abc".to_vec()));
}

#[test]
fn zero_words_mean_absent_fields() {
    let data = payload(
        word_u64(1),
        [0u8; 32],
        [0u8; 32],
        [0u8; 32],
        word_u64(5),
        word_u64(0),
        b"",
    );
    let p = ProtocolUpgradeProposal::try_from_log(&log_with_data(data)).unwrap();
    assert_eq!(p.verifier_address, None);
    assert_eq!(p.bootloader_code_hash, None);
    assert_eq!(p.default_account_code_hash, None);
    assert_eq!(p.tx, None);
}

#[test]
fn short_payload_is_rejected() {
    let r = ProtocolUpgradeProposal::try_from_log(&log_with_data(vec![0u8; 191]));
    assert_eq!(r, Err(LogParseError::DataTooShort));
}

#[test]
fn oversized_id_is_rejected() {
    let mut id_word = [0u8; 32];
    id_word[0] = 1;
    let data = payload(id_word, [0u8; 32], [0u8; 32], [0u8; 32], word_u64(5), word_u64(0), b"");
    let r = ProtocolUpgradeProposal::try_from_log(&log_with_data(data));
    assert_eq!(r, Err(LogParseError::IdOverflow));
}

#[test]
fn unpadded_address_is_rejected() {
    let mut verifier_word = [0u8; 32];
    verifier_word[3] = 9;
    let data = payload(
        word_u64(1),
        verifier_word,
        [0u8; 32],
        [0u8; 32],
        word_u64(5),
        word_u64(0),
        b"",
    );
    let r = ProtocolUpgradeProposal::try_from_log(&log_with_data(data));
    assert_eq!(r, Err(LogParseError::AddressPadding));
}

#[test]
fn oversized_timestamp_is_rejected() {
    let mut ts_word = [0u8; 32];
    ts_word[10] = 1;
    let data = payload(word_u64(1), [0u8; 32], [0u8; 32], [0u8; 32], ts_word, word_u64(0), b"");
    let r = ProtocolUpgradeProposal::try_from_log(&log_with_data(data));
    assert_eq!(r, Err(LogParseError::TimestampOverflow));
}

#[test]
fn wrong_declared_length_is_rejected() {
    let data = payload(
        word_u64(1),
        [0u8; 32],
        [0u8; 32],
        [0u8; 32],
        word_u64(5),
        word_u64(4),
        b"abc",
    );
    let r = ProtocolUpgradeProposal::try_from_log(&log_with_data(data));
    assert_eq!(r, Err(LogParseError::PayloadLengthMismatch));
    let mut len_word = [0u8; 32];
    len_word[0] = 1;
    let data = payload(word_u64(1), [0u8; 32], [0u8; 32], [0u8; 32], word_u64(5), len_word, b"");
    let r = ProtocolUpgradeProposal::try_from_log(&log_with_data(data));
    assert_eq!(r, Err(LogParseError::PayloadLengthMismatch));
}

#[test]
fn hash_equality_and_zero_checks() {
    let a = H256 { bytes: [7u8; 32] };
    let b = H256 { bytes: [7u8; 32] };
    let mut c = H256 { bytes: [7u8; 32] };
    c.bytes[31] = 8;
    assert!(a.same(&b));
    assert!(!a.same(&c));
    assert!(!a.is_zero());
    assert!(H256::zero().is_zero());
    assert!(H160::zero().is_zero());
    assert!(!H160 { bytes: [1u8; 20] }.is_zero());
}
