use vstd::prelude::*;

verus! {

/// A word whose low `width` bits are set, for `1 <= width <= 64`.
pub open spec fn low_mask(width: u64) -> u64 {
    if width >= 64 {
        0xffff_ffff_ffff_ffffu64
    } else {
        ((1u64 << width) - 1) as u64
    }
}

/// The bits `hi` down to `lo` (both inclusive) of `value`, moved down to bit zero.
pub open spec fn bits_of(value: u64, hi: u64, lo: u64) -> u64 {
    (value >> lo) & low_mask((hi - lo + 1) as u64)
}

/// Extracts the inclusive bit range `[hi, lo]` of `value`.
pub fn bit_range(value: u64, hi: u64, lo: u64) -> (r: u64)
    requires
        lo <= hi < 64,
    ensures
        r == bits_of(value, hi, lo),
{
    let width: u64 = hi - lo + 1;
    let mask: u64 = if width >= 64 {
        0xffff_ffff_ffff_ffffu64
    } else {
        assert(1u64 << width >= 1) by (bit_vector)
            requires
                width < 64,
        ;
        (1u64 << width) - 1
    };
    (value >> lo) & mask
}

} // verus!
