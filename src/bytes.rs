use vstd::prelude::*;

verus! {

/// The little-endian 32-bit value of the four bytes of `s` starting at `i`.
pub open spec fn le_u32(s: Seq<u8>, i: int) -> nat {
    s[i] as nat + 256 * (s[i + 1] as nat + 256 * (s[i + 2] as nat + 256 * (s[i + 3] as nat)))
}

/// The little-endian 64-bit value of the eight bytes of `s` starting at `i`.
pub open spec fn le_u64(s: Seq<u8>, i: int) -> nat {
    le_u32(s, i) + 0x1_0000_0000 * le_u32(s, i + 4)
}

/// Reads a little-endian `u32` from `bytes[i..i + 4]`.
pub fn read_le_u32(bytes: &[u8], i: usize) -> (r: u32)
    requires
        i + 4 <= bytes@.len(),
    ensures
        r as nat == le_u32(bytes@, i as int),
{
    let b0 = bytes[i] as u32;
    let b1 = bytes[i + 1] as u32;
    let b2 = bytes[i + 2] as u32;
    let b3 = bytes[i + 3] as u32;
    b0 + 256 * (b1 + 256 * (b2 + 256 * b3))
}

/// Reads a little-endian `u64` from `bytes[i..i + 8]`.
pub fn read_le_u64(bytes: &[u8], i: usize) -> (r: u64)
    requires
        i + 8 <= bytes@.len(),
    ensures
        r as nat == le_u64(bytes@, i as int),
{
    let n = bytes.len();
    let lo = read_le_u32(bytes, i) as u64;
    let hi = read_le_u32(bytes, i + 4) as u64;
    lo + 0x1_0000_0000 * hi
}

} // verus!
