//! The grids that move, stretch, turn and slant.
use vstd::prelude::*;
use crate::matrice::Matrice;
use crate::scalar::{negated, opposite};

verus! {

/// A cell of the grid that moves by `x`, `y`, `z`: the identity with the
/// three distances in its last column.
pub open spec fn translation_cell(x: u32, y: u32, z: u32, i: int, j: int) -> u32 {
    if i == 0 && j == 3 {
        x
    } else if i == 1 && j == 3 {
        y
    } else if i == 2 && j == 3 {
        z
    } else {
        Matrice::identity_cell(i, j)
    }
}

/// A cell of the grid that stretches by `x`, `y`, `z`: the three factors on
/// the diagonal.
pub open spec fn scaling_cell(x: u32, y: u32, z: u32, i: int, j: int) -> u32 {
    if i == 0 && j == 0 {
        x
    } else if i == 1 && j == 1 {
        y
    } else if i == 2 && j == 2 {
        z
    } else {
        Matrice::identity_cell(i, j)
    }
}

/// A cell of the grid that turns about the axis `axis` (0, 1 or 2) by the
/// angle with cosine `cos` and sine `sin`. With `a`, `b` the two other axes
/// in cyclic order, the cosine stands at `(a, a)` and `(b, b)`, the sine at
/// `(b, a)` and its negative at `(a, b)`.
pub open spec fn rotation_cell(axis: int, cos: u32, sin: u32, i: int, j: int) -> u32 {
    let a = (axis + 1) % 3;
    let b = (axis + 2) % 3;
    if (i == a && j == a) || (i == b && j == b) {
        cos
    } else if i == b && j == a {
        sin
    } else if i == a && j == b {
        opposite(sin)
    } else {
        Matrice::identity_cell(i, j)
    }
}

/// A cell of the grid that slants: each coordinate moves in proportion to
/// the two others.
pub open spec fn shearing_cell(
    xy: u32,
    xz: u32,
    yx: u32,
    yz: u32,
    zx: u32,
    zy: u32,
    i: int,
    j: int,
) -> u32 {
    if i == 0 && j == 1 {
        xy
    } else if i == 0 && j == 2 {
        xz
    } else if i == 1 && j == 0 {
        yx
    } else if i == 1 && j == 2 {
        yz
    } else if i == 2 && j == 0 {
        zx
    } else if i == 2 && j == 1 {
        zy
    } else {
        Matrice::identity_cell(i, j)
    }
}

pub fn translation(x: u32, y: u32, z: u32) -> (r: Matrice)
    ensures
        r.wf(),
        r.size == 4,
        forall|i: int, j: int|
            0 <= i < 4 && 0 <= j < 4 ==> r.cell(i, j) == translation_cell(x, y, z, i, j),
{
    let mut out = Matrice::identity_matrix(4);
    out.write_element(0, 3, x);
    out.write_element(1, 3, y);
    out.write_element(2, 3, z);
    out
}

pub fn scaling(x: u32, y: u32, z: u32) -> (r: Matrice)
    ensures
        r.wf(),
        r.size == 4,
        forall|i: int, j: int|
            0 <= i < 4 && 0 <= j < 4 ==> r.cell(i, j) == scaling_cell(x, y, z, i, j),
{
    let mut out = Matrice::identity_matrix(4);
    out.write_element(0, 0, x);
    out.write_element(1, 1, y);
    out.write_element(2, 2, z);
    out
}

/// The turn about the x axis by the angle with cosine `cos` and sine `sin`.
pub fn rotation_x(cos: u32, sin: u32) -> (r: Matrice)
    ensures
        r.wf(),
        r.size == 4,
        forall|i: int, j: int|
            0 <= i < 4 && 0 <= j < 4 ==> r.cell(i, j) == rotation_cell(0, cos, sin, i, j),
{
    let mut matrice = Matrice::identity_matrix(4);
    matrice.write_element(1, 1, cos);
    matrice.write_element(1, 2, negated(sin));
    matrice.write_element(2, 1, sin);
    matrice.write_element(2, 2, cos);
    matrice
}

/// The turn about the y axis by the angle with cosine `cos` and sine `sin`.
pub fn rotation_y(cos: u32, sin: u32) -> (r: Matrice)
    ensures
        r.wf(),
        r.size == 4,
        forall|i: int, j: int|
            0 <= i < 4 && 0 <= j < 4 ==> r.cell(i, j) == rotation_cell(1, cos, sin, i, j),
{
    let mut matrice = Matrice::identity_matrix(4);
    matrice.write_element(0, 0, cos);
    matrice.write_element(0, 2, sin);
    matrice.write_element(2, 0, negated(sin));
    matrice.write_element(2, 2, cos);
    matrice
}

/// The turn about the z axis by the angle with cosine `cos` and sine `sin`.
pub fn rotation_z(cos: u32, sin: u32) -> (r: Matrice)
    ensures
        r.wf(),
        r.size == 4,
        forall|i: int, j: int|
            0 <= i < 4 && 0 <= j < 4 ==> r.cell(i, j) == rotation_cell(2, cos, sin, i, j),
{
    let mut matrice = Matrice::identity_matrix(4);
    matrice.write_element(0, 0, cos);
    matrice.write_element(0, 1, negated(sin));
    matrice.write_element(1, 0, sin);
    matrice.write_element(1, 1, cos);
    matrice
}

pub fn shearing(xy: u32, xz: u32, yx: u32, yz: u32, zx: u32, zy: u32) -> (r: Matrice)
    ensures
        r.wf(),
        r.size == 4,
        forall|i: int, j: int|
            0 <= i < 4 && 0 <= j < 4 ==> r.cell(i, j) == shearing_cell(
                xy,
                xz,
                yx,
                yz,
                zx,
                zy,
                i,
                j,
            ),
{
    let mut matrice = Matrice::identity_matrix(4);
    matrice.write_element(0, 1, xy);
    matrice.write_element(0, 2, xz);
    matrice.write_element(1, 0, yx);
    matrice.write_element(1, 2, yz);
    matrice.write_element(2, 0, zx);
    matrice.write_element(2, 1, zy);
    matrice
}

} // verus!
