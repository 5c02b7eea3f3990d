//! L1 event logs as delivered by the watcher.

use vstd::prelude::*;

use crate::hash::H160;
use crate::hash::H256;

verus! {

/// The mathematical value of one log.
pub struct LogView {
    pub address: Seq<u8>,
    pub topics: Seq<Seq<u8>>,
    pub data: Seq<u8>,
    pub block_number: u64,
    pub transaction_hash: Seq<u8>,
}

/// One event log emitted by an L1 contract.
///
/// `topics[0]` is the keccak hash of the canonical event signature; the
/// data payload is opaque until a processor decodes it. A log is never
/// mutated and may be re-delivered across polls.
pub struct Log {
    pub address: H160,
    pub topics: Vec<H256>,
    pub data: Vec<u8>,
    pub block_number: u64,
    pub transaction_hash: H256,
}

impl View for Log {
    type V = LogView;

    open spec fn view(&self) -> LogView {
        LogView {
            address: self.address@,
            topics: self.topics@.map_values(|t: H256| t@),
            data: self.data@,
            block_number: self.block_number,
            transaction_hash: self.transaction_hash@,
        }
    }
}

/// Whether the dispatcher would route this log to a processor owning
/// `topic`: the log has at least one topic and its first topic equals it.
pub open spec fn is_relevant(log: LogView, topic: Seq<u8>) -> bool {
    log.topics.len() > 0 && log.topics[0] == topic
}

} // verus!
