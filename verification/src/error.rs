//! Error taxonomy of the event-processing pipeline.
//!
//! Every stage returns a typed failure; the processor propagates it
//! unmodified to its caller. No retries happen inside the core.

use vstd::prelude::*;

verus! {

/// Why a log's payload failed to decode under the fixed historical schema.
#[derive(Clone, Copy, Debug, PartialEq, Eq)]
pub enum LogParseError {
    /// The payload is shorter than the fixed six-word prefix.
    DataTooShort,
    /// The upgrade-id word does not fit the id's numeric range.
    IdOverflow,
    /// The address word is not zero-padded in its upper twelve bytes.
    AddressPadding,
    /// The timestamp word does not fit the timestamp's numeric range.
    TimestampOverflow,
    /// The declared transaction-payload length disagrees with the payload.
    PayloadLengthMismatch,
}

/// A failure of one processing cycle.
///
/// - `LogParse`: a log did not match the expected historical schema;
///   non-retryable for that log, aborts the batch.
/// - `AuxResolution`: the L1 auxiliary reader failed; retryable.
/// - `StoreWrite`: persistence failed partway through a batch; retryable.
/// - `MissingPredecessor`: the version preceding a remaining upgrade id is
///   absent from the store; a fatal invariant violation, never retried.
#[derive(Clone, Copy, Debug, PartialEq, Eq)]
pub enum Error {
    LogParse(LogParseError),
    AuxResolution,
    StoreWrite,
    MissingPredecessor,
}

} // verus!
