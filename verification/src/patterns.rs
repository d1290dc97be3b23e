//! Two-coloured patterns that alternate from cell to cell.
use vstd::prelude::*;
use crate::matrice::Matrice;
use crate::tuple::Tuple;

verus! {

/// The colour of cell number `cell` of a pattern that alternates between
/// `a` and `b`: `a` in the even cells, `b` in the odd ones.
pub open spec fn alternate(a: Tuple, b: Tuple, cell: i32) -> Tuple {
    if cell % 2 == 0 {
        a
    } else {
        b
    }
}

fn pick(a: Tuple, b: Tuple, cell: i32) -> (r: Tuple)
    ensures
        r == alternate(a, b, cell),
{
    let size: u32 = if cell >= 0 {
        cell as u32
    } else if cell == i32::MIN {
        0
    } else {
        (-cell) as u32
    };
    if size % 2 == 0 {
        a
    } else {
        b
    }
}

/// Stripes across `x`: the cell is the floor of `x`.
#[derive(Clone, Copy, Debug, PartialEq, Eq, Structural)]
pub struct Stripe {
    pub a: Tuple,
    pub b: Tuple,
}

/// A blend from one colour to another along `x`.
#[derive(Clone, Copy, Debug, PartialEq, Eq, Structural)]
pub struct Gradient {
    pub from_color: Tuple,
    pub to_color: Tuple,
}

/// Rings about the `y` axis: the cell is the whole part of the distance
/// from the axis.
#[derive(Clone, Copy, Debug, PartialEq, Eq, Structural)]
pub struct Ring {
    pub a: Tuple,
    pub b: Tuple,
}

/// Cubes in space: the cell is the whole part of the sum of the three
/// distances from the coordinate planes.
#[derive(Clone, Copy, Debug, PartialEq, Eq, Structural)]
pub struct Checker {
    pub a: Tuple,
    pub b: Tuple,
}

#[derive(Clone, Copy, Debug, PartialEq, Eq, Structural)]
pub enum Pattern {
    Stripe(Stripe),
    Gradient(Gradient),
    Ring(Ring),
    Checker(Checker),
}

/// A pattern and the grid that places it on its shape.
#[derive(Clone, Debug, PartialEq, Eq)]
pub struct Paint {
    pub pattern: Pattern,
    pub transform: Matrice,
}

impl Paint {
    /// The pattern, placed as it is.
    pub fn new(pattern: Pattern) -> (r: Paint)
        ensures
            r.pattern == pattern,
            r.transform.is_identity(),
    {
        Paint { pattern, transform: Matrice::identity_matrix(4) }
    }

    pub fn set_transform(&mut self, transform: Matrice)
        ensures
            final(self).transform == transform,
            final(self).pattern == old(self).pattern,
    {
        self.transform = transform;
    }

    pub fn transform(&self) -> (r: &Matrice)
        ensures
            *r == self.transform,
    {
        &self.transform
    }
}

impl Stripe {
    pub fn new(a: Tuple, b: Tuple) -> (r: Stripe)
        ensures
            r == (Stripe { a, b }),
    {
        Stripe { a, b }
    }

    /// The colour of a cell.
    pub fn at(&self, cell: i32) -> (r: Tuple)
        ensures
            r == alternate(self.a, self.b, cell),
    {
        pick(self.a, self.b, cell)
    }
}

impl Gradient {
    pub fn new(from: Tuple, to: Tuple) -> (r: Gradient)
        ensures
            r == (Gradient { from_color: from, to_color: to }),
    {
        Gradient { from_color: from, to_color: to }
    }
}

impl Ring {
    pub fn new(a: Tuple, b: Tuple) -> (r: Ring)
        ensures
            r == (Ring { a, b }),
    {
        Ring { a, b }
    }

    /// The colour of a cell.
    pub fn at(&self, cell: i32) -> (r: Tuple)
        ensures
            r == alternate(self.a, self.b, cell),
    {
        pick(self.a, self.b, cell)
    }
}

impl Checker {
    pub fn new(a: Tuple, b: Tuple) -> (r: Checker)
        ensures
            r == (Checker { a, b }),
    {
        Checker { a, b }
    }

    /// The colour of a cell.
    pub fn at(&self, cell: i32) -> (r: Tuple)
        ensures
            r == alternate(self.a, self.b, cell),
    {
        pick(self.a, self.b, cell)
    }
}

} // verus!
