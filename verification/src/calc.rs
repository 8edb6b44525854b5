//! The arithmetic endpoint's integer core: the sum of two squares, widened
//! before squaring so the intermediate arithmetic cannot overflow.

use vstd::prelude::*;

verus! {

/// Computes `a*a + b*b` exactly. The result always fits in a `u64`: each
/// square is at most `2^62`, so the sum is at most `2^63`.
pub fn sum_of_squares(a: i32, b: i32) -> (r: u64)
    ensures
        r == a * a + b * b,
{
    let aw: i64 = a as i64;
    let bw: i64 = b as i64;
    proof {
        assert(aw * aw <= 0x4000_0000_0000_0000 && aw * aw >= 0) by (nonlinear_arith)
            requires
                -0x8000_0000 <= aw <= 0x7FFF_FFFF,
        ;
        assert(bw * bw <= 0x4000_0000_0000_0000 && bw * bw >= 0) by (nonlinear_arith)
            requires
                -0x8000_0000 <= bw <= 0x7FFF_FFFF,
        ;
    }
    let sq_a: u64 = (aw * aw) as u64;
    let sq_b: u64 = (bw * bw) as u64;
    sq_a + sq_b
}

} // verus!
