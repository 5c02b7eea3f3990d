//! Decoding protocol-upgrade proposals from raw log payloads.
//!
//! The payload layout is the fixed historical shape this processor was
//! deployed with; it is never changed in place. The payload is a sequence
//! of six 32-byte big-endian words followed by an optional transaction
//! blob:
//!
//! - word 0: the numeric upgrade id (must fit 64 bits);
//! - word 1: the verifier contract address, right-aligned in the word
//!   (upper twelve bytes must be zero); the zero address means absent;
//! - word 2: the new bootloader code hash; all-zero means absent;
//! - word 3: the new default-account code hash; all-zero means absent;
//! - word 4: the upgrade timestamp (must fit 64 bits);
//! - word 5: the byte length of the L2 upgrade transaction blob, which
//!   must equal exactly the number of bytes that follow the six words.

use vstd::prelude::*;

use crate::error::LogParseError;
use crate::events::Log;
use crate::hash::H160;
use crate::hash::H256;

verus! {

/// The big-endian value of a byte string.
pub open spec fn be_val(s: Seq<u8>) -> nat
    decreases s.len(),
{
    if s.len() == 0 {
        0
    } else {
        (256 * be_val(s.drop_last()) + s.last()) as nat
    }
}

/// 256 to the n-th power.
pub open spec fn pow256(n: nat) -> nat
    decreases n,
{
    if n == 0 {
        1
    } else {
        256 * pow256((n - 1) as nat)
    }
}

/// Every byte of `s` is zero.
pub open spec fn all_zero(s: Seq<u8>) -> bool {
    forall|i: int| 0 <= i < s.len() ==> s[i] == 0
}

pub proof fn lemma_pow256_mono(a: nat, b: nat)
    requires
        a <= b,
    ensures
        pow256(a) <= pow256(b),
    decreases b,
{
    if a < b {
        lemma_pow256_mono(a, (b - 1) as nat);
    }
}

pub proof fn lemma_be_val_bound(s: Seq<u8>)
    ensures
        be_val(s) < pow256(s.len()),
    decreases s.len(),
{
    if s.len() > 0 {
        lemma_be_val_bound(s.drop_last());
    }
}

/// Reads the eight bytes at `start` as a big-endian 64-bit value.
fn read_be_u64(data: &Vec<u8>, start: usize) -> (r: u64)
    requires
        start + 8 <= data@.len(),
    ensures
        r as nat == be_val(data@.subrange(start as int, start + 8)),
{
    proof {
        reveal_with_fuel(pow256, 9);
    }
    let n = data.len();
    let mut v: u64 = 0;
    let mut j: usize = 0;
    while j < 8
        invariant
            j <= 8,
            n == data@.len(),
            start + 8 <= data@.len(),
            v as nat == be_val(data@.subrange(start as int, start + j)),
            (v as nat) < pow256(j as nat),
        decreases 8 - j,
    {
        proof {
            lemma_pow256_mono(j as nat, 7);
            reveal_with_fuel(pow256, 9);
            let w = data@.subrange(start as int, start + j + 1);
            assert(w.drop_last() =~= data@.subrange(start as int, start + j));
            assert(w.last() == data@[start + j]);
        }
        v = v * 256 + (data[start + j] as u64);
        j += 1;
    }
    v
}

/// True when every byte in `data[start..end]` is zero.
fn zero_range(data: &Vec<u8>, start: usize, end: usize) -> (r: bool)
    requires
        start <= end <= data@.len(),
    ensures
        r == all_zero(data@.subrange(start as int, end as int)),
{
    let mut j: usize = start;
    while j < end
        invariant
            start <= j <= end <= data@.len(),
            forall|k: int| start <= k < j ==> data@[k] == 0,
        decreases end - j,
    {
        if data[j] != 0 {
            assert(data@.subrange(start as int, end as int)[j - start] != 0);
            return false;
        }
        j += 1;
    }
    true
}

/// Copies the 32 bytes at `start` out of `data`.
fn copy_word(data: &Vec<u8>, start: usize) -> (r: [u8; 32])
    requires
        start + 32 <= data@.len(),
    ensures
        r@ == data@.subrange(start as int, start + 32),
{
    let n = data.len();
    let mut out = [0u8; 32];
    let mut j: usize = 0;
    while j < 32
        invariant
            j <= 32,
            n == data@.len(),
            start + 32 <= data@.len(),
            forall|k: int| 0 <= k < j ==> out@[k] == data@[start + k],
        decreases 32 - j,
    {
        out[j] = data[start + j];
        j += 1;
    }
    proof {
        assert(out@ =~= data@.subrange(start as int, start + 32));
    }
    out
}

/// Copies the 20 bytes at `start` out of `data`.
fn copy_address(data: &Vec<u8>, start: usize) -> (r: [u8; 20])
    requires
        start + 20 <= data@.len(),
    ensures
        r@ == data@.subrange(start as int, start + 20),
{
    let n = data.len();
    let mut out = [0u8; 20];
    let mut j: usize = 0;
    while j < 20
        invariant
            j <= 20,
            n == data@.len(),
            start + 20 <= data@.len(),
            forall|k: int| 0 <= k < j ==> out@[k] == data@[start + k],
        decreases 20 - j,
    {
        out[j] = data[start + j];
        j += 1;
    }
    proof {
        assert(out@ =~= data@.subrange(start as int, start + 20));
    }
    out
}

/// Copies `data[start..end]` into a fresh vector.
fn copy_range(data: &Vec<u8>, start: usize, end: usize) -> (r: Vec<u8>)
    requires
        start <= end <= data@.len(),
    ensures
        r@ == data@.subrange(start as int, end as int),
{
    let mut out: Vec<u8> = Vec::new();
    let mut j: usize = start;
    while j < end
        invariant
            start <= j <= end <= data@.len(),
            out@ == data@.subrange(start as int, j as int),
        decreases end - j,
    {
        out.push(data[j]);
        proof {
            assert(data@.subrange(start as int, j + 1) =~= data@.subrange(
                start as int,
                j as int,
            ).push(data@[j as int]));
        }
        j += 1;
    }
    out
}

/// The mathematical value of a decoded proposal.
#[verifier::ext_equal]
pub struct ProposalView {
    pub id: u64,
    pub verifier_address: Option<Seq<u8>>,
    pub bootloader_code_hash: Option<Seq<u8>>,
    pub default_account_code_hash: Option<Seq<u8>>,
    pub timestamp: u64,
    pub tx: Option<Seq<u8>>,
}

/// A protocol-upgrade proposal decoded from one log. Ephemeral: it exists
/// only while one batch is processed.
#[derive(Clone, Debug, PartialEq, Eq)]
pub struct ProtocolUpgradeProposal {
    /// The upgrade id, assigned monotonically by the governance contract.
    pub id: u64,
    /// The verifier contract to query for the scheduler vk hash, if any.
    pub verifier_address: Option<H160>,
    /// The new bootloader code hash, if the upgrade changes it.
    pub bootloader_code_hash: Option<H256>,
    /// The new default-account code hash, if the upgrade changes it.
    pub default_account_code_hash: Option<H256>,
    /// The upgrade timestamp.
    pub timestamp: u64,
    /// The L2 transaction to execute as part of the upgrade, if any.
    pub tx: Option<Vec<u8>>,
}

impl View for ProtocolUpgradeProposal {
    type V = ProposalView;

    open spec fn view(&self) -> ProposalView {
        ProposalView {
            id: self.id,
            verifier_address: match self.verifier_address {
                Some(a) => Some(a@),
                None => None,
            },
            bootloader_code_hash: match self.bootloader_code_hash {
                Some(h) => Some(h@),
                None => None,
            },
            default_account_code_hash: match self.default_account_code_hash {
                Some(h) => Some(h@),
                None => None,
            },
            timestamp: self.timestamp,
            tx: match self.tx {
                Some(ref t) => Some(t@),
                None => None,
            },
        }
    }
}

/// What decoding a payload yields: the decoded proposal, or the first
/// schema violation found, checked in a fixed order.
pub open spec fn spec_parse_upgrade(data: Seq<u8>) -> Result<ProposalView, LogParseError> {
    if data.len() < 192 {
        Err(LogParseError::DataTooShort)
    } else if !all_zero(data.subrange(0, 24)) {
        Err(LogParseError::IdOverflow)
    } else if !all_zero(data.subrange(32, 44)) {
        Err(LogParseError::AddressPadding)
    } else if !all_zero(data.subrange(128, 152)) {
        Err(LogParseError::TimestampOverflow)
    } else if !all_zero(data.subrange(160, 184)) {
        Err(LogParseError::PayloadLengthMismatch)
    } else if 192 + be_val(data.subrange(184, 192)) != data.len() {
        Err(LogParseError::PayloadLengthMismatch)
    } else {
        Ok(
            ProposalView {
                id: be_val(data.subrange(24, 32)) as u64,
                verifier_address: if all_zero(data.subrange(44, 64)) {
                    None
                } else {
                    Some(data.subrange(44, 64))
                },
                bootloader_code_hash: if all_zero(data.subrange(64, 96)) {
                    None
                } else {
                    Some(data.subrange(64, 96))
                },
                default_account_code_hash: if all_zero(data.subrange(96, 128)) {
                    None
                } else {
                    Some(data.subrange(96, 128))
                },
                timestamp: be_val(data.subrange(152, 160)) as u64,
                tx: if data.len() == 192 {
                    None
                } else {
                    Some(data.subrange(192, data.len() as int))
                },
            },
        )
    }
}

impl ProtocolUpgradeProposal {
    /// Decodes one log's payload under the fixed historical schema.
    ///
    /// Succeeds exactly on the payloads `spec_parse_upgrade` accepts, and
    /// returns exactly the value it prescribes; otherwise returns the
    /// violation it prescribes.
    pub fn try_from_log(log: &Log) -> (r: Result<ProtocolUpgradeProposal, LogParseError>)
        ensures
            match r {
                Ok(p) => spec_parse_upgrade(log@.data) == Ok::<ProposalView, LogParseError>(p@),
                Err(e) => spec_parse_upgrade(log@.data) == Err::<ProposalView, LogParseError>(e),
            },
    {
        let data = &log.data;
        let n = data.len();
        if n < 192 {
            return Err(LogParseError::DataTooShort);
        }
        if !zero_range(data, 0, 24) {
            return Err(LogParseError::IdOverflow);
        }
        if !zero_range(data, 32, 44) {
            return Err(LogParseError::AddressPadding);
        }
        if !zero_range(data, 128, 152) {
            return Err(LogParseError::TimestampOverflow);
        }
        if !zero_range(data, 160, 184) {
            return Err(LogParseError::PayloadLengthMismatch);
        }
        let tx_len = read_be_u64(data, 184);
        proof {
            lemma_be_val_bound(log@.data.subrange(184, 192));
        }
        if tx_len != (n - 192) as u64 {
            return Err(LogParseError::PayloadLengthMismatch);
        }
        let id = read_be_u64(data, 24);
        let timestamp = read_be_u64(data, 152);
        let verifier_address = if zero_range(data, 44, 64) {
            None
        } else {
            Some(H160::new(copy_address(data, 44)))
        };
        let bootloader_code_hash = if zero_range(data, 64, 96) {
            None
        } else {
            Some(H256::new(copy_word(data, 64)))
        };
        let default_account_code_hash = if zero_range(data, 96, 128) {
            None
        } else {
            Some(H256::new(copy_word(data, 96)))
        };
        let tx = if n == 192 {
            None
        } else {
            Some(copy_range(data, 192, n))
        };
        let p = ProtocolUpgradeProposal {
            id,
            verifier_address,
            bootloader_code_hash,
            default_account_code_hash,
            timestamp,
            tx,
        };
        proof {
            lemma_be_val_bound(log@.data.subrange(24, 32));
            lemma_be_val_bound(log@.data.subrange(152, 160));
            reveal_with_fuel(pow256, 9);
            assert(spec_parse_upgrade(log@.data) == Ok::<ProposalView, LogParseError>(p@));
        }
        Ok(p)
    }
}

} // verus!
