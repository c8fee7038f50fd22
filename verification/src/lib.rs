//! Exact-coordinate 3-D geometry: vectors, quaternions, 4x4 matrices and
//! planes over signed 128-bit integer coordinates, with the classical
//! linear-algebra identities (transpose involution, the adjugate law,
//! rotation orthogonality, dot/cross symmetries) proved once and for all.
//!
//! Every operation states in its contract the exact value of each component
//! of its result, over a mathematical model with unbounded integers.
use vstd::prelude::*;

pub mod adjugate;
pub mod bounding_box;
pub mod bounding_frustum;
pub mod bounding_sphere;
pub mod matrix;
pub mod plane;
pub mod quaternion;
pub mod vector2;
pub mod vector3;
pub mod vector4;

verus! {

/// Largest coordinate magnitude (two to the thirtieth) that the executable
/// operations accept. Inside this range every intermediate product and sum
/// of every operation in the crate, the fourth-degree determinant included,
/// fits in an `i128`.
pub const COORD_LIMIT: i128 = 0x4000_0000;

/// A coordinate the executable operations accept.
pub open spec fn in_range(x: int) -> bool {
    -(COORD_LIMIT as int) <= x <= COORD_LIMIT as int
}

/// A product of two factors stays within the product of their bounds: the
/// one nonlinear fact the executable bodies need to rule out overflow.
pub proof fn lemma_mul_bound(a: int, la: int, b: int, lb: int)
    by (nonlinear_arith)
    requires
        -la <= a <= la,
        -lb <= b <= lb,
    ensures
        -(la * lb) <= a * b <= la * lb,
{
}

/// A two-by-two minor of entries bounded by `l` is bounded by twice `l`
/// squared.
pub proof fn lemma_minor_bound(a: int, b: int, c: int, d: int, l: int)
    by (nonlinear_arith)
    requires
        -l <= a <= l,
        -l <= b <= l,
        -l <= c <= l,
        -l <= d <= l,
    ensures
        -(l * l) <= a * b <= l * l,
        -(l * l) <= c * d <= l * l,
        -(2 * (l * l)) <= a * b - c * d <= 2 * (l * l),
{
}

} // verus!
