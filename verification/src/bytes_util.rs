//! Little-endian words read from and written to byte buffers.
//!
//! Every multi-byte field of the tile format is little-endian.  The spec
//! functions here name the word found at a given offset of a byte sequence;
//! the executable readers and writers are proved against them using the
//! conversions of `vstd::bytes`.

use vstd::bytes::{
    lemma_auto_spec_u32_to_from_le_bytes, lemma_auto_spec_u64_to_from_le_bytes,
    spec_u32_from_le_bytes, spec_u32_to_le_bytes, spec_u64_from_le_bytes, spec_u64_to_le_bytes,
    u32_from_le_bytes, u32_to_le_bytes, u64_from_le_bytes, u64_to_le_bytes,
};
use vstd::prelude::*;

verus! {

/// The 64-bit little-endian word spelled by the eight bytes at `off`.
pub open spec fn word64_at(b: Seq<u8>, off: int) -> u64 {
    spec_u64_from_le_bytes(b.subrange(off, off + 8))
}

/// The 32-bit little-endian word spelled by the four bytes at `off`.
pub open spec fn word32_at(b: Seq<u8>, off: int) -> u32 {
    spec_u32_from_le_bytes(b.subrange(off, off + 4))
}

pub fn read_u64_at(b: &[u8], off: usize) -> (r: u64)
    requires
        off + 8 <= b@.len(),
    ensures
        r == word64_at(b@, off as int),
{
    let _blen: usize = b.len();
    u64_from_le_bytes(&b[off..off + 8])
}

pub fn read_u32_at(b: &[u8], off: usize) -> (r: u32)
    requires
        off + 4 <= b@.len(),
    ensures
        r == word32_at(b@, off as int),
{
    let _blen: usize = b.len();
    u32_from_le_bytes(&b[off..off + 4])
}

/// Appends the eight little-endian bytes of `x`.
pub fn push_u64_le(out: &mut Vec<u8>, x: u64)
    ensures
        final(out)@ == old(out)@ + spec_u64_to_le_bytes(x),
        final(out)@.len() == old(out)@.len() + 8,
{
    let mut bs = u64_to_le_bytes(x);
    out.append(&mut bs);
}

/// Appends the four little-endian bytes of `x`.
pub fn push_u32_le(out: &mut Vec<u8>, x: u32)
    ensures
        final(out)@ == old(out)@ + spec_u32_to_le_bytes(x),
        final(out)@.len() == old(out)@.len() + 4,
{
    let mut bs = u32_to_le_bytes(x);
    out.append(&mut bs);
}

/// Reading back the eight bytes that encode `x` yields `x`, and an encoding
/// is always eight bytes long.
pub proof fn lemma_word64_round_trip(x: u64)
    ensures
        spec_u64_to_le_bytes(x).len() == 8,
        spec_u64_from_le_bytes(spec_u64_to_le_bytes(x)) == x,
{
    lemma_auto_spec_u64_to_from_le_bytes();
}

/// Reading back the four bytes that encode `x` yields `x`, and an encoding
/// is always four bytes long.
pub proof fn lemma_word32_round_trip(x: u32)
    ensures
        spec_u32_to_le_bytes(x).len() == 4,
        spec_u32_from_le_bytes(spec_u32_to_le_bytes(x)) == x,
{
    lemma_auto_spec_u32_to_from_le_bytes();
    assert(spec_u32_to_le_bytes(x).len() == 4);
}

} // verus!
