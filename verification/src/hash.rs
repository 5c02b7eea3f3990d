//! Fixed-width byte values: 32-byte hashes and 20-byte addresses.

use vstd::prelude::*;

verus! {

/// A 32-byte value: an event topic, a code hash, a verification-key hash.
#[derive(Clone, Copy, Debug, PartialEq, Eq)]
pub struct H256 {
    pub bytes: [u8; 32],
}

impl View for H256 {
    type V = Seq<u8>;

    open spec fn view(&self) -> Seq<u8> {
        self.bytes@
    }
}

impl H256 {
    pub fn new(bytes: [u8; 32]) -> (r: H256)
        ensures
            r@ == bytes@,
    {
        H256 { bytes }
    }

    pub fn zero() -> (r: H256)
        ensures
            r@ == Seq::new(32, |i: int| 0u8),
    {
        let r = H256 { bytes: [0u8; 32] };
        proof {
            assert(r.bytes@ =~= Seq::new(32, |i: int| 0u8));
        }
        r
    }

    /// Builds a hash from a 32-byte vector.
    pub fn from_vec(v: &Vec<u8>) -> (r: H256)
        requires
            v@.len() == 32,
        ensures
            r@ == v@,
    {
        let mut bytes = [0u8; 32];
        let mut i: usize = 0;
        while i < 32
            invariant
                i <= 32,
                v@.len() == 32,
                forall|j: int| 0 <= j < i ==> bytes@[j] == v@[j],
            decreases 32 - i,
        {
            bytes[i] = v[i];
            i += 1;
        }
        proof {
            assert(bytes@ =~= v@);
        }
        H256 { bytes }
    }

    /// Byte-wise equality, usable from verified code.
    pub fn same(&self, other: &H256) -> (r: bool)
        ensures
            r == (self@ == other@),
    {
        let mut i: usize = 0;
        while i < 32
            invariant
                i <= 32,
                forall|j: int| 0 <= j < i ==> self.bytes@[j] == other.bytes@[j],
            decreases 32 - i,
        {
            if self.bytes[i] != other.bytes[i] {
                assert(self@ != other@);
                return false;
            }
            i += 1;
        }
        proof {
            assert(self@ =~= other@);
        }
        true
    }

    /// True when every byte is zero.
    pub fn is_zero(&self) -> (r: bool)
        ensures
            r == (self@ == Seq::new(32, |i: int| 0u8)),
    {
        let z = H256::zero();
        self.same(&z)
    }
}

/// A 20-byte value: an L1 account or contract address.
#[derive(Clone, Copy, Debug, PartialEq, Eq)]
pub struct H160 {
    pub bytes: [u8; 20],
}

impl View for H160 {
    type V = Seq<u8>;

    open spec fn view(&self) -> Seq<u8> {
        self.bytes@
    }
}

impl H160 {
    pub fn new(bytes: [u8; 20]) -> (r: H160)
        ensures
            r@ == bytes@,
    {
        H160 { bytes }
    }

    pub fn zero() -> (r: H160)
        ensures
            r@ == Seq::new(20, |i: int| 0u8),
    {
        let r = H160 { bytes: [0u8; 20] };
        proof {
            assert(r.bytes@ =~= Seq::new(20, |i: int| 0u8));
        }
        r
    }

    /// Builds an address from a 20-byte vector.
    pub fn from_vec(v: &Vec<u8>) -> (r: H160)
        requires
            v@.len() == 20,
        ensures
            r@ == v@,
    {
        let mut bytes = [0u8; 20];
        let mut i: usize = 0;
        while i < 20
            invariant
                i <= 20,
                v@.len() == 20,
                forall|j: int| 0 <= j < i ==> bytes@[j] == v@[j],
            decreases 20 - i,
        {
            bytes[i] = v[i];
            i += 1;
        }
        proof {
            assert(bytes@ =~= v@);
        }
        H160 { bytes }
    }

    pub fn same(&self, other: &H160) -> (r: bool)
        ensures
            r == (self@ == other@),
    {
        let mut i: usize = 0;
        while i < 20
            invariant
                i <= 20,
                forall|j: int| 0 <= j < i ==> self.bytes@[j] == other.bytes@[j],
            decreases 20 - i,
        {
            if self.bytes[i] != other.bytes[i] {
                assert(self@ != other@);
                return false;
            }
            i += 1;
        }
        proof {
            assert(self@ =~= other@);
        }
        true
    }

    pub fn is_zero(&self) -> (r: bool)
        ensures
            r == (self@ == Seq::new(20, |i: int| 0u8)),
    {
        let z = H160::zero();
        self.same(&z)
    }
}

} // verus!
