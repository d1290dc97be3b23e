//! The plane `y = 0`.
use vstd::prelude::*;
use crate::intersections::Intersection;
use crate::scalar::{magnitude, magnitude_of, ONE};
use crate::shape::{Plane, Shape};
use crate::tuple::{Tuple, TupleType};

verus! {

/// One hundred-thousandth: a ray whose direction rises or falls by less is
/// taken to run along the plane.
pub const PARALLEL: u32 = 0x3727_C5AC;

impl Plane {
    /// The crossing of a ray with the plane, from the `y` of the ray's
    /// direction and the parameter at which the ray reaches `y = 0`: none
    /// where the ray runs along the plane, else that one.
    pub fn intersect(&self, direction_y: u32, t: u32) -> (r: Vec<Intersection>)
        ensures
            r@ == if magnitude(direction_y) < PARALLEL {
                Seq::<Intersection>::empty()
            } else {
                seq![Intersection { t, s: Shape::Plane(*self) }]
            },
    {
        let mut out: Vec<Intersection> = Vec::new();
        if magnitude_of(direction_y) < PARALLEL {
            return out;
        }
        out.push(Intersection::new(t, Shape::Plane(*self)));
        assert(out@ =~= seq![Intersection { t, s: Shape::Plane(*self) }]);
        out
    }

    /// The normal in the plane's own space: straight up, wherever the point.
    pub fn normal_at(&self, _point: Tuple) -> (r: Tuple)
        ensures
            r == (Tuple { x: 0, y: ONE, z: 0, w: TupleType::Vector }),
    {
        Tuple::vector(0, ONE, 0)
    }
}

} // verus!
