//! Little-endian readers and writers for the account record formats.

use vstd::prelude::*;
use vstd::bytes::*;
use vstd::slice::slice_subrange;
use crate::address::{Address, spec_address_from_bytes};

verus! {

/// Read the byte at `off`.
pub fn read_u8(b: &[u8], off: usize) -> (r: u8)
    requires
        off < b@.len(),
    ensures
        r == b@[off as int],
{
    *vstd::slice::slice_index_get(b, off)
}

/// Read eight bytes at `off` as a little-endian word.
pub fn read_u64_le(b: &[u8], off: usize) -> (r: u64)
    requires
        off + 8 <= b@.len(),
    ensures
        r == spec_u64_from_le_bytes(b@.subrange(off as int, off as int + 8)),
{
    // Binding the length as a usize puts its machine bound in scope, so
    // the offset arithmetic below is known not to overflow.
    let _n: usize = b.len();
    u64_from_le_bytes(slice_subrange(b, off, off + 8))
}

/// Read sixteen bytes at `off` as a little-endian double word.
pub fn read_u128_le(b: &[u8], off: usize) -> (r: u128)
    requires
        off + 16 <= b@.len(),
    ensures
        r == spec_u128_from_le_bytes(b@.subrange(off as int, off as int + 16)),
{
    let _n: usize = b.len();  // length bound in scope, as in read_u64_le
    u128_from_le_bytes(slice_subrange(b, off, off + 16))
}

/// Read 32 bytes at `off` as an address.
pub fn read_address(b: &[u8], off: usize) -> (r: Address)
    requires
        off + 32 <= b@.len(),
    ensures
        r == spec_address_from_bytes(b@.subrange(off as int, off as int + 32)),
        r.byte_seq() == b@.subrange(off as int, off as int + 32),
{
    let _n: usize = b.len();  // length bound in scope, as in read_u64_le
    Address::from_bytes(slice_subrange(b, off, off + 32))
}

/// Append one byte.
pub fn push_u8(v: &mut Vec<u8>, x: u8)
    ensures
        final(v)@ == old(v)@ + seq![x],
{
    v.push(x);
    proof {
        assert(v@ =~= old(v)@ + seq![x]);
    }
}

/// Append a word in little-endian order.
pub fn push_u64_le(v: &mut Vec<u8>, x: u64)
    ensures
        final(v)@ == old(v)@ + spec_u64_to_le_bytes(x),
{
    let mut b = u64_to_le_bytes(x);
    v.append(&mut b);
}

/// Append a double word in little-endian order.
pub fn push_u128_le(v: &mut Vec<u8>, x: u128)
    ensures
        final(v)@ == old(v)@ + spec_u128_to_le_bytes(x),
{
    let mut b = u128_to_le_bytes(x);
    v.append(&mut b);
}

/// Append an address's 32 bytes.
pub fn push_address(v: &mut Vec<u8>, a: &Address)
    ensures
        final(v)@ == old(v)@ + a.byte_seq(),
{
    let mut b = a.to_byte_vec();
    v.append(&mut b);
}

} // verus!
