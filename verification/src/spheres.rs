//! The unit sphere: what the roots of its quadratic amount to.
use vstd::prelude::*;
use crate::intersections::{ascending, intersections, sort_by_t, Intersection};
use crate::scalar::{less, lt};
use crate::shape::{Shape, Sphere};

verus! {

impl Sphere {
    /// The crossings of a ray with the sphere, from the discriminant of the
    /// quadratic and its two roots: none where the discriminant is
    /// negative, else both roots, the smaller first (twice the same
    /// where the ray only touches).
    pub fn intersect(&self, discriminant: u32, first: u32, second: u32) -> (r: Vec<Intersection>)
        ensures
            r@ == if less(discriminant, 0) {
                Seq::<Intersection>::empty()
            } else {
                sort_by_t(
                    seq![
                        Intersection { t: first, s: Shape::Sphere(*self) },
                        Intersection { t: second, s: Shape::Sphere(*self) },
                    ],
                )
            },
            r@.len() == if less(discriminant, 0) { 0int } else { 2int },
            ascending(r@),
    {
        let mut out: Vec<Intersection> = Vec::new();
        if lt(discriminant, 0) {
            return out;
        }
        out.push(Intersection::new(first, Shape::Sphere(*self)));
        out.push(Intersection::new(second, Shape::Sphere(*self)));
        assert(out@ =~= seq![
            Intersection { t: first, s: Shape::Sphere(*self) },
            Intersection { t: second, s: Shape::Sphere(*self) },
        ]);
        intersections(&mut out)
    }
}

} // verus!
