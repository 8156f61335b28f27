//! Dimension reconciliation: of two (width, height) pairs, the one with the
//! smaller area becomes the common target resolution. Pairs are compared only
//! by area, not by aspect ratio or individual axis.

use vstd::prelude::*;

verus! {

/// The pixel count of a (width, height) pair.
pub open spec fn area(dim: (u32, u32)) -> int {
    (dim.0 as int) * (dim.1 as int)
}

/// The reconciled target: whichever pair has strictly smaller area; on an
/// exact tie, the first pair.
pub open spec fn smallest_dimensions(dim_1: (u32, u32), dim_2: (u32, u32)) -> (u32, u32) {
    if area(dim_1) <= area(dim_2) {
        dim_1
    } else {
        dim_2
    }
}

/// Picks the pair with the strictly smaller area; the first pair wins a tie.
/// Total: there is no error path.
pub fn get_smallest_dimensions(dim_1: (u32, u32), dim_2: (u32, u32)) -> (r: (u32, u32))
    ensures
        r == smallest_dimensions(dim_1, dim_2),
        r == dim_1 || r == dim_2,
        area(r) <= area(dim_1),
        area(r) <= area(dim_2),
        area(dim_1) <= area(dim_2) ==> r == dim_1,
        area(dim_2) < area(dim_1) ==> r == dim_2,
{
    proof {
        assert((dim_1.0 as int) * (dim_1.1 as int) <= 0xffff_ffff * 0xffff_ffff)
            by (nonlinear_arith)
            requires
                dim_1.0 <= 0xffff_ffff,
                dim_1.1 <= 0xffff_ffff,
        ;
        assert((dim_2.0 as int) * (dim_2.1 as int) <= 0xffff_ffff * 0xffff_ffff)
            by (nonlinear_arith)
            requires
                dim_2.0 <= 0xffff_ffff,
                dim_2.1 <= 0xffff_ffff,
        ;
    }
    let pix_1: u64 = (dim_1.0 as u64) * (dim_1.1 as u64);
    let pix_2: u64 = (dim_2.0 as u64) * (dim_2.1 as u64);
    if pix_1 <= pix_2 {
        dim_1
    } else {
        dim_2
    }
}

} // verus!
