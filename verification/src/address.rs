//! 32-byte ledger addresses, held as four little-endian machine words.

use vstd::prelude::*;
use vstd::bytes::*;
use vstd::slice::slice_subrange;

verus! {

/// A 32-byte account identifier, stored as four words. Word `w0` holds
/// bytes 0..8 of the address in little-endian order, `w1` bytes 8..16,
/// and so on.
#[derive(Clone, Copy, PartialEq, Eq, Structural, Debug)]
pub struct Address {
    pub w0: u64,
    pub w1: u64,
    pub w2: u64,
    pub w3: u64,
}

/// The address whose words are read little-endian from the 32 bytes of `s`.
pub open spec fn spec_address_from_bytes(s: Seq<u8>) -> Address
    recommends
        s.len() == 32,
{
    Address {
        w0: spec_u64_from_le_bytes(s.subrange(0, 8)),
        w1: spec_u64_from_le_bytes(s.subrange(8, 16)),
        w2: spec_u64_from_le_bytes(s.subrange(16, 24)),
        w3: spec_u64_from_le_bytes(s.subrange(24, 32)),
    }
}

impl Address {
    /// The 32 bytes this address stands for.
    pub open spec fn byte_seq(self) -> Seq<u8> {
        spec_u64_to_le_bytes(self.w0) + spec_u64_to_le_bytes(self.w1)
            + spec_u64_to_le_bytes(self.w2) + spec_u64_to_le_bytes(self.w3)
    }

    /// Reading an address's bytes back yields the same address.
    pub proof fn lemma_roundtrip(self)
        ensures
            spec_address_from_bytes(self.byte_seq()) == self,
    {
        lemma_auto_spec_u64_to_from_le_bytes();
        assert(self.byte_seq().subrange(0, 8) == spec_u64_to_le_bytes(self.w0));
        assert(self.byte_seq().subrange(8, 16) == spec_u64_to_le_bytes(self.w1));
        assert(self.byte_seq().subrange(16, 24) == spec_u64_to_le_bytes(self.w2));
        assert(self.byte_seq().subrange(24, 32) == spec_u64_to_le_bytes(self.w3));
    }

    /// Writing out the address read from 32 bytes yields the same bytes.
    pub proof fn lemma_bytes_roundtrip(s: Seq<u8>)
        requires
            s.len() == 32,
        ensures
            spec_address_from_bytes(s).byte_seq() == s,
    {
        lemma_auto_spec_u64_to_from_le_bytes();
        assert(spec_address_from_bytes(s).byte_seq() =~= s);
    }

    /// The all-zero address, used by the remote program as "absent".
    pub fn zero() -> (r: Address)
        ensures
            r == (Address { w0: 0, w1: 0, w2: 0, w3: 0 }),
    {
        Address { w0: 0, w1: 0, w2: 0, w3: 0 }
    }

    pub fn is_zero(&self) -> (r: bool)
        ensures
            r == (*self == (Address { w0: 0, w1: 0, w2: 0, w3: 0 })),
    {
        self.w0 == 0 && self.w1 == 0 && self.w2 == 0 && self.w3 == 0
    }

    /// Serialize the address into its 32 bytes.
    pub fn to_byte_vec(&self) -> (r: Vec<u8>)
        ensures
            r@ == self.byte_seq(),
            r@.len() == 32,
    {
        proof {
            lemma_auto_spec_u64_to_from_le_bytes();
        }
        let mut r = u64_to_le_bytes(self.w0);
        let mut b1 = u64_to_le_bytes(self.w1);
        let mut b2 = u64_to_le_bytes(self.w2);
        let mut b3 = u64_to_le_bytes(self.w3);
        r.append(&mut b1);
        r.append(&mut b2);
        r.append(&mut b3);
        r
    }

    /// Read an address back from 32 bytes.
    pub fn from_bytes(b: &[u8]) -> (r: Address)
        requires
            b@.len() == 32,
        ensures
            r == spec_address_from_bytes(b@),
            r.byte_seq() == b@,
    {
        proof {
            lemma_auto_spec_u64_to_from_le_bytes();
        }
        let w0 = u64_from_le_bytes(slice_subrange(b, 0, 8));
        let w1 = u64_from_le_bytes(slice_subrange(b, 8, 16));
        let w2 = u64_from_le_bytes(slice_subrange(b, 16, 24));
        let w3 = u64_from_le_bytes(slice_subrange(b, 24, 32));
        let r = Address { w0, w1, w2, w3 };
        proof {
            Self::lemma_bytes_roundtrip(b@);
        }
        r
    }
}

} // verus!
