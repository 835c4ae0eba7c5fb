//! Vectors and matrices of single-precision bit patterns.
//!
//! A matrix is an array of four columns of four numbers each, the layout in
//! which a uniform block holds it. The library builds two matrices itself:
//! the identity, and the homogeneous form of a rotation.

use vstd::prelude::*;
use crate::scalar::{ONE, ZERO};

verus! {

/// Three numbers.
pub type Vector3 = [u32; 3];

/// Four numbers.
pub type Vector4 = [u32; 4];

/// Three columns of three numbers.
pub type Matrix3 = [[u32; 3]; 3];

/// Four columns of four numbers.
pub type Matrix4 = [[u32; 4]; 4];

/// The 4x4 identity: ones on the diagonal, zeros elsewhere.
pub open spec fn identity_matrix() -> Matrix4 {
    [[ONE, ZERO, ZERO, ZERO], [ZERO, ONE, ZERO, ZERO], [ZERO, ZERO, ONE, ZERO], [ZERO, ZERO, ZERO, ONE]]
}

/// The 4x4 matrix that acts on the first three coordinates as `m` does and
/// leaves the fourth alone: `m` in the upper left corner of the identity.
pub open spec fn homogeneous_matrix(m: Matrix3) -> Matrix4 {
    [
        [m[0][0], m[0][1], m[0][2], ZERO],
        [m[1][0], m[1][1], m[1][2], ZERO],
        [m[2][0], m[2][1], m[2][2], ZERO],
        [ZERO, ZERO, ZERO, ONE],
    ]
}

/// Builds the 4x4 identity.
pub fn identity() -> (m: Matrix4)
    ensures
        m == identity_matrix(),
{
    [[ONE, ZERO, ZERO, ZERO], [ZERO, ONE, ZERO, ZERO], [ZERO, ZERO, ONE, ZERO], [ZERO, ZERO, ZERO, ONE]]
}

/// Extends a 3x3 matrix to its homogeneous 4x4 form.
pub fn to_homogeneous(m: &Matrix3) -> (h: Matrix4)
    ensures
        h == homogeneous_matrix(*m),
{
    [
        [m[0][0], m[0][1], m[0][2], ZERO],
        [m[1][0], m[1][1], m[1][2], ZERO],
        [m[2][0], m[2][1], m[2][2], ZERO],
        [ZERO, ZERO, ZERO, ONE],
    ]
}

} // verus!
