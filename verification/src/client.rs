//! The L1 auxiliary reader a processor consults during one batch.
//!
//! A scheduler verification-key hash is hard-coded in a verifier contract
//! at deployment time and is not part of the event payload, so it must be
//! read from the chain. The pipeline's caller performs those reads (it may
//! fan them out concurrently) and hands the processor the outcomes for the
//! batch as an `AuxReader` value: one entry per verifier address that
//! could be read. An address with no entry is a read that failed — the
//! network was unreachable, timed out, or answered malformed — and makes
//! the batch abort with `Error::AuxResolution`.

use vstd::prelude::*;

use crate::error::Error;
use crate::hash::H160;
use crate::hash::H256;

verus! {

/// The first value paired with `addr` in `table`, if any.
pub open spec fn spec_lookup(table: Seq<(Seq<u8>, Seq<u8>)>, addr: Seq<u8>) -> Option<Seq<u8>>
    decreases table.len(),
{
    if table.len() == 0 {
        None
    } else if table[0].0 == addr {
        Some(table[0].1)
    } else {
        spec_lookup(table.drop_first(), addr)
    }
}

/// The batch's resolved auxiliary reads: which verifier addresses could
/// be read, and what each read returned.
pub struct AuxReader {
    pub entries: Vec<(H160, H256)>,
}

impl AuxReader {
    /// The reader's outcomes as a mathematical table.
    pub open spec fn table(&self) -> Seq<(Seq<u8>, Seq<u8>)> {
        self.entries@.map_values(|e: (H160, H256)| (e.0@, e.1@))
    }

    /// A reader with no successful reads.
    pub fn empty() -> (r: AuxReader)
        ensures
            r.table() == Seq::<(Seq<u8>, Seq<u8>)>::empty(),
    {
        let r = AuxReader { entries: Vec::new() };
        proof {
            assert(r.table() =~= Seq::<(Seq<u8>, Seq<u8>)>::empty());
        }
        r
    }

    /// Records that reading `address` returned `vk_hash`.
    pub fn record(&mut self, address: H160, vk_hash: H256)
        ensures
            final(self).table() == old(self).table().push((address@, vk_hash@)),
    {
        self.entries.push((address, vk_hash));
        proof {
            assert(self.table() =~= old(self).table().push((address@, vk_hash@)));
        }
    }

    /// The scheduler verification-key hash stored in the verifier contract
    /// at `address`, or a client/network error when the read failed.
    pub fn scheduler_vk_hash(&self, address: &H160) -> (r: Result<H256, Error>)
        ensures
            match r {
                Ok(h) => spec_lookup(self.table(), address@) == Some(h@),
                Err(e) => e == Error::AuxResolution && spec_lookup(self.table(), address@) is None,
            },
    {
        let n = self.entries.len();
        let mut i: usize = 0;
        proof {
            assert(self.table().skip(0) =~= self.table());
        }
        while i < n
            invariant
                i <= n,
                n == self.entries@.len(),
                n == self.table().len(),
                spec_lookup(self.table(), address@) == spec_lookup(
                    self.table().skip(i as int),
                    address@,
                ),
            decreases n - i,
        {
            if self.entries[i].0.same(address) {
                proof {
                    assert(self.table().skip(i as int)[0] == self.table()[i as int]);
                }
                return Ok(self.entries[i].1);
            }
            proof {
                assert(self.table().skip(i as int)[0] == self.table()[i as int]);
                assert(self.table().skip(i as int).drop_first() =~= self.table().skip(i + 1));
            }
            i += 1;
        }
        proof {
            assert(self.table().skip(n as int).len() == 0);
        }
        Err(Error::AuxResolution)
    }
}

} // verus!
