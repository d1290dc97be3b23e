//! The cube from -1 to 1 on every axis: the slab method.
use vstd::prelude::*;
use crate::intersections::Intersection;
use crate::scalar::{
    earlier, earlier_of, is_nan, later, later_of, less, lt, magnitude, magnitude_of, nan, negative,
    positive,
};
use crate::shape::{Cube, Shape};
use crate::tuple::{Tuple, TupleType};

verus! {

/// The two parameters at which a ray crosses the planes of one axis, the
/// smaller first.
pub open spec fn ordered(pair: (u32, u32)) -> (u32, u32) {
    if less(pair.1, pair.0) {
        (pair.1, pair.0)
    } else {
        pair
    }
}

/// Where the ray has entered all three slabs: the latest of the three
/// entries.
pub open spec fn entry(x: (u32, u32), y: (u32, u32), z: (u32, u32)) -> u32 {
    later(later(ordered(x).0, ordered(y).0), ordered(z).0)
}

/// Where the ray leaves the first of the three slabs: the earliest of the
/// three exits.
pub open spec fn exit(x: (u32, u32), y: (u32, u32), z: (u32, u32)) -> u32 {
    earlier(earlier(ordered(x).1, ordered(y).1), ordered(z).1)
}

/// The two parameters lie on either side of zero.
pub open spec fn straddles(pair: (u32, u32)) -> bool {
    (negative(pair.0) && positive(pair.1)) || (negative(pair.1) && positive(pair.0))
}

/// The normal of the cube at a point of its surface, in the cube's own
/// space: along the axis on which the point lies farthest out, with the
/// point's coordinate on that axis; the first such axis on a tie, the last
/// axis where a coordinate is no number.
pub open spec fn cube_normal(p: Tuple) -> Tuple {
    let far = later(later(magnitude(p.x) as u32, magnitude(p.y) as u32), magnitude(p.z) as u32);
    if !nan(far) && far == magnitude(p.x) {
        Tuple { x: p.x, y: 0, z: 0, w: TupleType::Vector }
    } else if !nan(far) && far == magnitude(p.y) {
        Tuple { x: 0, y: p.y, z: 0, w: TupleType::Vector }
    } else {
        Tuple { x: 0, y: 0, z: p.z, w: TupleType::Vector }
    }
}

/// One ten-thousandth: a ray whose direction moves less than this along an
/// axis is taken to run along the planes of that axis.
pub const ALONG: u32 = 0x38D1_B717;

/// The two parameters at which a ray crosses the planes of one axis, the
/// smaller first: the quotients of the distances by the direction, or,
/// where the ray runs along the planes, the limits that stand for them.
pub open spec fn slab(direction: u32, quotients: (u32, u32), limits: (u32, u32)) -> (u32, u32) {
    if magnitude(direction) >= ALONG {
        ordered(quotients)
    } else {
        ordered(limits)
    }
}

fn in_order(pair: (u32, u32)) -> (r: (u32, u32))
    ensures
        r == ordered(pair),
{
    if lt(pair.1, pair.0) {
        (pair.1, pair.0)
    } else {
        pair
    }
}

/// Where a ray crosses the two planes of one axis. `quotients` are the
/// distances to the planes divided by the ray's direction along the axis;
/// `limits` are the same distances made infinite, which are taken where
/// the direction is too small to divide by.
pub fn check_axis(direction: u32, quotients: (u32, u32), limits: (u32, u32)) -> (r: (u32, u32))
    ensures
        r == slab(direction, quotients, limits),
{
    if magnitude_of(direction) >= ALONG {
        in_order(quotients)
    } else {
        in_order(limits)
    }
}

impl Cube {
    /// The crossings of a ray with the cube, from the parameters at which
    /// the ray crosses the two planes of each axis: none where the ray
    /// leaves one slab before it has entered all three, else the entry and
    /// the exit.
    pub fn intersect(&self, x: (u32, u32), y: (u32, u32), z: (u32, u32)) -> (r: Vec<Intersection>)
        ensures
            r@ == if less(exit(x, y, z), entry(x, y, z)) {
                Seq::<Intersection>::empty()
            } else {
                seq![
                    Intersection { t: entry(x, y, z), s: Shape::Cube(*self) },
                    Intersection { t: exit(x, y, z), s: Shape::Cube(*self) },
                ]
            },
            straddles(x) && straddles(y) && straddles(z) ==> r@.len() == 2 && negative(r@[0].t)
                && positive(r@[1].t),
    {
        let (xtmin, xtmax) = in_order(x);
        let (ytmin, ytmax) = in_order(y);
        let (ztmin, ztmax) = in_order(z);
        let tmin = later_of(later_of(xtmin, ytmin), ztmin);
        let tmax = earlier_of(earlier_of(xtmax, ytmax), ztmax);
        let mut out: Vec<Intersection> = Vec::new();
        if lt(tmax, tmin) {
            return out;
        }
        out.push(Intersection::new(tmin, Shape::Cube(*self)));
        out.push(Intersection::new(tmax, Shape::Cube(*self)));
        assert(out@ =~= seq![
            Intersection { t: tmin, s: Shape::Cube(*self) },
            Intersection { t: tmax, s: Shape::Cube(*self) },
        ]);
        out
    }

    /// The normal at a point of the surface, in the cube's own space.
    pub fn normal_at(&self, point: Tuple) -> (r: Tuple)
        ensures
            r == cube_normal(point),
    {
        let mx = magnitude_of(point.x);
        let my = magnitude_of(point.y);
        let mz = magnitude_of(point.z);
        let maxc = later_of(later_of(mx, my), mz);
        if !is_nan(maxc) && maxc == mx {
            Tuple::vector(point.x, 0, 0)
        } else if !is_nan(maxc) && maxc == my {
            Tuple::vector(0, point.y, 0)
        } else {
            Tuple::vector(0, 0, point.z)
        }
    }
}

/// A ray that starts inside the cube crosses it twice, once behind its
/// origin and once in front: whenever the two crossings of every axis lie
/// on either side of zero, the entry is negative and the exit positive.
pub proof fn lemma_inside_cube(x: (u32, u32), y: (u32, u32), z: (u32, u32))
    requires
        straddles(x),
        straddles(y),
        straddles(z),
    ensures
        negative(entry(x, y, z)),
        positive(exit(x, y, z)),
        !less(exit(x, y, z), entry(x, y, z)),
{
}

} // verus!
