use era_core::client::AuxReader;
use era_core::error::Error;
use era_core::error::LogParseError;
use era_core::events::Log;
use era_core::hash::H160;
use era_core::hash::H256;
use era_core::upgrades::UpgradesEventProcessor;
use era_core::versions::ProtocolVersion;
use era_core::versions::VersionStore;
use tiny_keccak::Hasher;

fn word_u64(v: u64) -> [u8; 32] {
    let mut w = [0u8; 32];
    w[24..].copy_from_slice(&v.to_be_bytes());
    w
}

fn encode_proposal(
    id: u64,
    verifier: Option<[u8; 20]>,
    boot: Option<[u8; 32]>,
    def: Option<[u8; 32]>,
    ts: u64,
    tx: &[u8],
) -> Vec<u8> {
    let mut d = Vec::new();
    d.extend_from_slice(&word_u64(id));
    let mut vw = [0u8; 32];
    if let Some(a) = verifier {
        vw[12..].copy_from_slice(&a);
    }
    d.extend_from_slice(&vw);
    d.extend_from_slice(&boot.unwrap_or([0u8; 32]));
    d.extend_from_slice(&def.unwrap_or([0u8; 32]));
    d.extend_from_slice(&word_u64(ts));
    d.extend_from_slice(&word_u64(tx.len() as u64));
    d.extend_from_slice(tx);
    d
}

fn mk_log(topic: H256, data: Vec<u8>) -> Log {
    Log {
        address: H160 { bytes: [0u8; 20] },
        topics: vec![topic],
        data,
        block_number: 1,
        transaction_hash: H256 { bytes: [0u8; 32] },
    }
}

fn mk_version(id: u64) -> ProtocolVersion {
    ProtocolVersion {
        id,
        timestamp: 0,
        bootloader_code_hash: H256 { bytes: [1u8; 32] },
        default_account_code_hash: H256 { bytes: [2u8; 32] },
        verifier_address: H160 { bytes: [3u8; 20] },
        scheduler_vk_hash: None,
    }
}

fn store_with(n: u64) -> VersionStore {
    let mut s = VersionStore::new(mk_version(1));
    for id in 2..=n {
        s.save_version(mk_version(id)).unwrap();
    }
    s
}

fn simple_batch(topic: H256, ids: &[u64]) -> Vec<Log> {
    ids.iter()
        .map(|&id| mk_log(topic, encode_proposal(id, None, Some([id as u8; 32]), None, 100 + id, &[])))
        .collect()
}

#[test]
fn replay_with_new_suffix_applies_only_new_ids() {
    // Watermark 5, store 1..5, batch [3, 4, 5, 6, 7]: 3..5 skipped,
    // 6 and 7 derived from 5 and 6 and persisted, watermark 7.
    let mut store = store_with(5);
    let mut proc = UpgradesEventProcessor::from_store(H160 { bytes: [9u8; 20] }, &store);
    let topic = proc.relevant_topic();
    let logs = simple_batch(topic, &[3, 4, 5, 6, 7]);
    let aux = AuxReader::empty();
    let r = proc.process_events(&mut store, &aux, &logs);
    assert_eq!(r, Ok(()));
    assert_eq!(proc.last_seen_version_id, 7);
    assert_eq!(store.max_applied_version_id(), 7);
    let v6 = store.load_previous_version(7).unwrap();
    assert_eq!(v6.id, 6);
    // The upgrade carried a bootloader hash; the rest is inherited.
    assert_eq!(v6.bootloader_code_hash.bytes, [6u8; 32]);
    assert_eq!(v6.default_account_code_hash.bytes, [2u8; 32]);
    assert_eq!(v6.timestamp, 106);
    let v7 = store.versions.last().unwrap();
    assert_eq!(v7.id, 7);
    assert_eq!(v7.bootloader_code_hash.bytes, [7u8; 32]);
    // Inheritance cascades along the chain: version 7 is derived from
    // the freshly written version 6.
    assert_eq!(v7.default_account_code_hash.bytes, [2u8; 32]);
    assert_eq!(v7.verifier_address.bytes, [3u8; 20]);
}

#[test]
fn parse_failure_aborts_whole_batch() {
    // Batch [6, 7] where proposal 6 fails to parse: no versions written,
    // watermark unchanged, a parse error surfaced.
    let mut store = store_with(5);
    let mut proc = UpgradesEventProcessor::from_store(H160 { bytes: [9u8; 20] }, &store);
    let topic = proc.relevant_topic();
    let bad = mk_log(topic, vec![0u8; 64]);
    let good = mk_log(topic, encode_proposal(7, None, None, None, 107, &[]));
    let logs = vec![bad, good];
    let aux = AuxReader::empty();
    let r = proc.process_events(&mut store, &aux, &logs);
    assert_eq!(r, Err(Error::LogParse(LogParseError::DataTooShort)));
    assert_eq!(proc.last_seen_version_id, 5);
    assert_eq!(store.max_applied_version_id(), 5);
}

#[test]
fn aux_failure_aborts_whole_batch() {
    // The auxiliary read for proposal 7 fails: no versions written, not
    // even for proposal 6 which needed no read; watermark unchanged.
    let mut store = store_with(5);
    let mut proc = UpgradesEventProcessor::from_store(H160 { bytes: [9u8; 20] }, &store);
    let topic = proc.relevant_topic();
    let logs = vec![
        mk_log(topic, encode_proposal(6, None, None, None, 106, &[])),
        mk_log(topic, encode_proposal(7, Some([7u8; 20]), None, None, 107, &[])),
    ];
    let aux = AuxReader::empty();
    let r = proc.process_events(&mut store, &aux, &logs);
    assert_eq!(r, Err(Error::AuxResolution));
    assert_eq!(proc.last_seen_version_id, 5);
    assert_eq!(store.max_applied_version_id(), 5);
}

#[test]
fn resolved_aux_value_lands_in_version() {
    let mut store = store_with(5);
    let mut proc = UpgradesEventProcessor::from_store(H160 { bytes: [9u8; 20] }, &store);
    let topic = proc.relevant_topic();
    let logs = vec![mk_log(
        topic,
        encode_proposal(6, Some([7u8; 20]), None, None, 106, b"upgrade-tx"),
    )];
    let mut aux = AuxReader::empty();
    aux.record(H160 { bytes: [7u8; 20] }, H256 { bytes: [0xAA; 32] });
    let r = proc.process_events(&mut store, &aux, &logs);
    assert_eq!(r, Ok(()));
    let v6 = store.versions.last().unwrap();
    assert_eq!(v6.id, 6);
    assert_eq!(v6.scheduler_vk_hash, Some(H256 { bytes: [0xAA; 32] }));
    assert_eq!(v6.verifier_address.bytes, [7u8; 20]);
}

#[test]
fn fully_applied_batch_is_a_no_op() {
    // Idempotent replay: all ids at or below the watermark leave the
    // store and the watermark unchanged.
    let mut store = store_with(5);
    let mut proc = UpgradesEventProcessor::from_store(H160 { bytes: [9u8; 20] }, &store);
    let topic = proc.relevant_topic();
    let before = store.versions.clone();
    let logs = simple_batch(topic, &[1, 2, 3, 4, 5]);
    let aux = AuxReader::empty();
    let r = proc.process_events(&mut store, &aux, &logs);
    assert_eq!(r, Ok(()));
    assert_eq!(proc.last_seen_version_id, 5);
    assert_eq!(store.versions, before);
}

#[test]
fn prefix_of_applied_batch_is_a_no_op() {
    let mut store = store_with(5);
    let mut proc = UpgradesEventProcessor::from_store(H160 { bytes: [9u8; 20] }, &store);
    let topic = proc.relevant_topic();
    let before = store.versions.clone();
    let logs = simple_batch(topic, &[1, 2]);
    let aux = AuxReader::empty();
    assert_eq!(proc.process_events(&mut store, &aux, &logs), Ok(()));
    assert_eq!(proc.last_seen_version_id, 5);
    assert_eq!(store.versions, before);
}

#[test]
fn replaying_an_applied_batch_changes_nothing() {
    let mut store = store_with(3);
    let mut proc = UpgradesEventProcessor::from_store(H160 { bytes: [9u8; 20] }, &store);
    let topic = proc.relevant_topic();
    let logs = simple_batch(topic, &[4, 5]);
    let aux = AuxReader::empty();
    assert_eq!(proc.process_events(&mut store, &aux, &logs), Ok(()));
    let after_first = store.versions.clone();
    assert_eq!(proc.last_seen_version_id, 5);
    assert_eq!(proc.process_events(&mut store, &aux, &logs), Ok(()));
    assert_eq!(store.versions, after_first);
    assert_eq!(proc.last_seen_version_id, 5);
}

#[test]
fn restart_reseeds_watermark_from_store() {
    // Restart safety: a fresh processor against a store with 1..5,
    // re-delivered ids 1..7, writes only 6 and 7.
    let mut store = store_with(5);
    let mut proc = UpgradesEventProcessor::from_store(H160 { bytes: [9u8; 20] }, &store);
    assert_eq!(proc.last_seen_version_id, 5);
    let topic = proc.relevant_topic();
    let logs = simple_batch(topic, &[1, 2, 3, 4, 5, 6, 7]);
    let aux = AuxReader::empty();
    let r = proc.process_events(&mut store, &aux, &logs);
    assert_eq!(r, Ok(()));
    assert_eq!(store.versions.len(), 7);
    assert_eq!(proc.last_seen_version_id, 7);
    // The prefix 1..5 is untouched.
    assert_eq!(store.versions[4], mk_version(5));
}

#[test]
fn gap_is_a_fatal_invariant_violation() {
    // A batch whose minimum remaining id is above watermark + 1 fails
    // with the invariant violation and writes nothing.
    let mut store = store_with(5);
    let mut proc = UpgradesEventProcessor::from_store(H160 { bytes: [9u8; 20] }, &store);
    let topic = proc.relevant_topic();
    let logs = simple_batch(topic, &[7, 8]);
    let aux = AuxReader::empty();
    let r = proc.process_events(&mut store, &aux, &logs);
    assert_eq!(r, Err(Error::MissingPredecessor));
    assert_eq!(proc.last_seen_version_id, 5);
    assert_eq!(store.max_applied_version_id(), 5);
}

#[test]
fn store_write_failure_aborts_and_retry_succeeds() {
    let mut store = store_with(5);
    let mut proc = UpgradesEventProcessor::from_store(H160 { bytes: [9u8; 20] }, &store);
    let topic = proc.relevant_topic();
    let logs = simple_batch(topic, &[6, 7]);
    let aux = AuxReader::empty();
    store.set_pending_write_failures(1);
    let r = proc.process_events(&mut store, &aux, &logs);
    assert_eq!(r, Err(Error::StoreWrite));
    assert_eq!(proc.last_seen_version_id, 5);
    assert_eq!(store.max_applied_version_id(), 5);
    // The dispatcher retries the whole batch; now it goes through.
    let r = proc.process_events(&mut store, &aux, &logs);
    assert_eq!(r, Ok(()));
    assert_eq!(proc.last_seen_version_id, 7);
    assert_eq!(store.max_applied_version_id(), 7);
}

#[test]
fn partially_durable_suffix_is_rewritten_safely() {
    // The store already holds version 6 from an earlier cycle that
    // failed before the watermark advanced. Re-delivering [6, 7]
    // re-writes 6 in place and extends with 7.
    let mut store = store_with(6);
    let mut proc = UpgradesEventProcessor::new(H160 { bytes: [9u8; 20] }, 5);
    let topic = proc.relevant_topic();
    let logs = simple_batch(topic, &[6, 7]);
    let aux = AuxReader::empty();
    let r = proc.process_events(&mut store, &aux, &logs);
    assert_eq!(r, Ok(()));
    assert_eq!(proc.last_seen_version_id, 7);
    assert_eq!(store.versions.len(), 7);
    assert_eq!(store.versions[5].id, 6);
    assert_eq!(store.versions[6].id, 7);
}

#[test]
fn irrelevant_logs_are_ignored() {
    // A log with a foreign topic is never parsed, however malformed.
    let mut store = store_with(5);
    let mut proc = UpgradesEventProcessor::from_store(H160 { bytes: [9u8; 20] }, &store);
    let foreign = mk_log(H256 { bytes: [0x55; 32] }, vec![1u8, 2u8, 3u8]);
    let no_topics = Log {
        address: H160 { bytes: [0u8; 20] },
        topics: vec![],
        data: vec![],
        block_number: 1,
        transaction_hash: H256 { bytes: [0u8; 32] },
    };
    let logs = vec![foreign, no_topics];
    let aux = AuxReader::empty();
    let r = proc.process_events(&mut store, &aux, &logs);
    assert_eq!(r, Ok(()));
    assert_eq!(proc.last_seen_version_id, 5);
    assert_eq!(store.max_applied_version_id(), 5);
}

#[test]
fn empty_batch_is_a_no_op() {
    let mut store = store_with(2);
    let mut proc = UpgradesEventProcessor::from_store(H160 { bytes: [9u8; 20] }, &store);
    let aux = AuxReader::empty();
    let r = proc.process_events(&mut store, &aux, &vec![]);
    assert_eq!(r, Ok(()));
    assert_eq!(proc.last_seen_version_id, 2);
}

#[test]
fn relevant_topic_is_the_keccak_of_the_event_signature() {
    let proc = UpgradesEventProcessor::new(H160 { bytes: [0u8; 20] }, 0);
    let mut hasher = tiny_keccak::Keccak::v256();
    hasher.update(
        b"ProposeTransparentUpgrade(((address,uint8,bool,bytes4[])[],address,bytes),uint256,bytes32)",
    );
    let mut expected = [0u8; 32];
    hasher.finalize(&mut expected);
    assert_eq!(proc.relevant_topic().bytes, expected);
}

#[test]
fn execute_upgrade_selector_is_the_keccak_prefix() {
    let proc = UpgradesEventProcessor::new(H160 { bytes: [0u8; 20] }, 0);
    let mut hasher = tiny_keccak::Keccak::v256();
    hasher.update(b"executeUpgrade(((address,uint8,bool,bytes4[])[],address,bytes),bytes32)");
    let mut digest = [0u8; 32];
    hasher.finalize(&mut digest);
    assert_eq!(proc.execute_upgrade_short_signature, [digest[0], digest[1], digest[2], digest[3]]);
}

#[test]
fn aux_reader_returns_recorded_values() {
    let mut aux = AuxReader::empty();
    let a = H160 { bytes: [4u8; 20] };
    assert_eq!(aux.scheduler_vk_hash(&a), Err(Error::AuxResolution));
    aux.record(a, H256 { bytes: [0x11; 32] });
    assert_eq!(aux.scheduler_vk_hash(&a), Ok(H256 { bytes: [0x11; 32] }));
    assert_eq!(
        aux.scheduler_vk_hash(&H160 { bytes: [5u8; 20] }),
        Err(Error::AuxResolution)
    );
}

#[test]
fn store_rejects_writes_while_faulted() {
    let mut store = store_with(1);
    store.set_pending_write_failures(2);
    assert_eq!(store.save_version(mk_version(2)), Err(Error::StoreWrite));
    assert_eq!(store.save_version(mk_version(2)), Err(Error::StoreWrite));
    assert_eq!(store.save_version(mk_version(2)), Ok(()));
    assert_eq!(store.max_applied_version_id(), 2);
}
