//! Small helpers on byte buffers.
use vstd::prelude::*;

verus! {

/// The big-endian 16-bit value of the bytes `hi`, `lo`.
pub open spec fn be16(hi: u8, lo: u8) -> u16 {
    (hi as nat * 256 + lo as nat) as u16
}

/// Reads the big-endian 16-bit value of `hi`, `lo`.
pub fn read_be16(hi: u8, lo: u8) -> (r: u16)
    ensures
        r == be16(hi, lo),
{
    let r = ((hi as u16) << 8) | (lo as u16);
    assert(((hi as u16) << 8) | (lo as u16) == (hi as u16) * 256 + (lo as u16)) by (bit_vector);
    r
}

/// The high byte of `v`.
pub fn high_byte(v: u16) -> (r: u8)
    ensures
        r == v / 256,
{
    assert((v >> 8) as u8 == v / 256) by (bit_vector);
    (v >> 8) as u8
}

/// The low byte of `v`.
pub fn low_byte(v: u16) -> (r: u8)
    ensures
        r == v % 256,
{
    assert(v as u8 == v % 256) by (bit_vector);
    v as u8
}

/// Appends the bytes of `src` to `dst`.
pub fn append_bytes(dst: &mut Vec<u8>, src: &[u8])
    requires
        old(dst)@.len() + src@.len() <= usize::MAX,
    ensures
        final(dst)@ == old(dst)@ + src@,
{
    let mut i: usize = 0;
    while i < src.len()
        invariant
            i <= src@.len(),
            dst@ == old(dst)@ + src@.subrange(0, i as int),
        decreases src@.len() - i,
    {
        dst.push(src[i]);
        i = i + 1;
        assert(src@.subrange(0, i as int) == src@.subrange(0, i - 1 as int).push(src@[i - 1]));
    }
    assert(src@.subrange(0, src@.len() as int) == src@);
}

} // verus!
