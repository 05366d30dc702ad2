//! The layout of an image: segment kinds and their alignment.

use vstd::prelude::*;

verus! {

/// Every segment starts at a multiple of this.
pub const SEGMENT_ALIGNMENT: u16 = 0x100;

/// The kind of a segment. A source is in the `Unknown` segment until it
/// starts one. In an image the segments follow one another in the order
/// text, read-only data, data, heap.
#[derive(Clone, Copy, Debug, PartialEq, Eq, Structural)]
pub enum SegmentType {
    Unknown,
    Text,
    RoData,
    Data,
    Heap,
}

/// The least multiple of `alignment` that is not below `x`.
pub open spec fn spec_align(x: int, alignment: int) -> int {
    if x % alignment == 0 {
        x
    } else {
        x + alignment - x % alignment
    }
}

/// The least multiple of `alignment` that is not below `x`, if it fits in
/// sixteen bits.
pub fn align(x: u16, alignment: u16) -> (r: Option<u16>)
    requires
        alignment > 0,
    ensures
        r is Some <==> spec_align(x as int, alignment as int) <= 0xffff,
        r matches Some(a) ==> a == spec_align(x as int, alignment as int),
{
    let rest = x % alignment;
    if rest == 0 {
        Some(x)
    } else {
        let up: u32 = x as u32 + alignment as u32 - rest as u32;
        if up > 0xffff {
            None
        } else {
            Some(up as u16)
        }
    }
}

/// An aligned value is a multiple of the alignment, is not below the value
/// it was made from, and is less than one alignment above it.
pub proof fn lemma_align(x: int, alignment: int)
    requires
        0 <= x,
        alignment > 0,
    ensures
        spec_align(x, alignment) % alignment == 0,
        x <= spec_align(x, alignment) < x + alignment,
        x % alignment == 0 ==> spec_align(x, alignment) == x,
{
    if x % alignment != 0 {
        vstd::arithmetic::div_mod::lemma_fundamental_div_mod(x, alignment);
        vstd::arithmetic::div_mod::lemma_mod_multiples_basic(x / alignment + 1, alignment);
        assert(x + alignment - x % alignment == (x / alignment + 1) * alignment)
            by (nonlinear_arith)
            requires
                x == alignment * (x / alignment) + x % alignment,
        ;
    }
}

} // verus!
