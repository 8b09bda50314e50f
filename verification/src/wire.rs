//! Little-endian scalar access shared by the payload codecs.
//!
//! Every multi-byte integer of the protocol is little-endian.  These helpers
//! tie the executable reads and writes to the byte-level specifications in
//! `vstd::bytes`, so payload contracts can speak directly about the wire.

use vstd::prelude::*;
use vstd::bytes::spec_u16_from_le_bytes;
use vstd::bytes::spec_u16_to_le_bytes;
use vstd::bytes::spec_u32_from_le_bytes;
use vstd::bytes::spec_u32_to_le_bytes;
use vstd::bytes::u16_from_le_bytes;
use vstd::bytes::u16_to_le_bytes;
use vstd::bytes::u32_from_le_bytes;
use vstd::bytes::u32_to_le_bytes;
use vstd::slice::slice_subrange;

verus! {

/// Reads the little-endian 32-bit word starting at `offset`.
pub fn read_u32_at(data: &[u8], offset: usize) -> (r: u32)
    requires
        offset + 4 <= data@.len(),
    ensures
        r == spec_u32_from_le_bytes(data@.subrange(offset as int, offset as int + 4)),
{
    let n = data.len();
    assert(offset + 4 <= n);
    u32_from_le_bytes(slice_subrange(data, offset, offset + 4))
}

/// Reads the little-endian 16-bit word starting at `offset`.
pub fn read_u16_at(data: &[u8], offset: usize) -> (r: u16)
    requires
        offset + 2 <= data@.len(),
    ensures
        r == spec_u16_from_le_bytes(data@.subrange(offset as int, offset as int + 2)),
{
    let n = data.len();
    assert(offset + 2 <= n);
    u16_from_le_bytes(slice_subrange(data, offset, offset + 2))
}

/// Appends the four little-endian bytes of `v`.
pub fn push_u32_le(buf: &mut Vec<u8>, v: u32)
    ensures
        final(buf)@ == old(buf)@ + spec_u32_to_le_bytes(v),
{
    let mut word = u32_to_le_bytes(v);
    buf.append(&mut word);
}

/// Appends the two little-endian bytes of `v`.
pub fn push_u16_le(buf: &mut Vec<u8>, v: u16)
    ensures
        final(buf)@ == old(buf)@ + spec_u16_to_le_bytes(v),
{
    let mut word = u16_to_le_bytes(v);
    buf.append(&mut word);
}

} // verus!
