//! 4x4 matrices as the engine stores them: sixteen single-precision patterns,
//! column after column.

use vstd::prelude::*;
use crate::single::{HALF, ONE, ZERO};

verus! {

/// A 4x4 matrix of single-precision patterns in column-major order: cell
/// `4 * c + r` is row `r` of column `c`.
#[derive(Clone, Copy, Debug)]
pub struct Mat4 {
    pub cells: [u32; 16],
}

/// The pattern that the identity matrix holds in cell `i`.
pub open spec fn identity_cell(i: int) -> u32 {
    if i % 5 == 0 {
        ONE
    } else {
        ZERO
    }
}

/// The pattern that the clip-space remap holds in cell `i`: the identity, but
/// with row 2 halved and half of row 3 added to it.
pub open spec fn remap_cell(i: int) -> u32 {
    if i == 10 || i == 14 {
        HALF
    } else if i == 0 || i == 5 || i == 15 {
        ONE
    } else {
        ZERO
    }
}

impl Mat4 {
    /// The sixteen patterns in storage order.
    pub open spec fn words(&self) -> Seq<u32> {
        self.cells@
    }

    /// The identity matrix.
    pub fn identity() -> (m: Mat4)
        ensures
            forall|i: int| 0 <= i < 16 ==> m.cells[i] == identity_cell(i),
    {
        Mat4 {
            cells: [
                ONE, ZERO, ZERO, ZERO,
                ZERO, ONE, ZERO, ZERO,
                ZERO, ZERO, ONE, ZERO,
                ZERO, ZERO, ZERO, ONE,
            ],
        }
    }

    /// The matrix that holds `cells` in storage order.
    pub fn from_cells(cells: [u32; 16]) -> (m: Mat4)
        ensures
            m.cells == cells,
    {
        Mat4 { cells }
    }
}

/// The fixed clip-space remap: it takes the camera math's right-handed clip
/// space with depth in [-1, 1] to a depth in [0, 1]. Every projection is
/// multiplied by it from the left before it reaches a shader.
pub fn opengl_to_wgpu_matrix() -> (m: Mat4)
    ensures
        forall|i: int| 0 <= i < 16 ==> m.cells[i] == remap_cell(i),
{
    Mat4 {
        cells: [
            ONE, ZERO, ZERO, ZERO,
            ZERO, ONE, ZERO, ZERO,
            ZERO, ZERO, HALF, ZERO,
            ZERO, ZERO, HALF, ONE,
        ],
    }
}

} // verus!
