//! What a scene decides for one ray: which crossing is seen, whether a
//! point lies in shadow, and whether a bounce is still to be followed.
use vstd::prelude::*;
use crate::computations::{n1_of, n2_of, Computation};
use crate::intersections::{copy_of, hit, hit_of, intersections, sort_by_t, Intersection};
use crate::lights::Light;
use crate::materials::Material;
use crate::matrice::Matrice;
use crate::patterns::Paint;
use crate::scalar::{is_zero, less, lt, zero, ONE};
use crate::shape::{Shape, Sphere};
use crate::transformations::{scaling, scaling_cell};
use crate::tuple::{Tuple, TupleType};

verus! {

/// A shape in a scene: the primitive, the grid that places it, and the
/// pattern on it, if it has one.
#[derive(Clone, Debug, PartialEq, Eq)]
pub struct Body {
    pub shape: Shape,
    pub transform: Matrice,
    pub pattern: Option<Paint>,
}

/// One light and the shapes it shines on, in the order in which they were
/// put in.
pub struct World {
    pub light: Light,
    pub shapes: Vec<Body>,
}

/// One half.
pub const HALF: u32 = 0x3F00_0000;

/// Ten.
pub const TEN: u32 = 0x4120_0000;

/// Minus ten.
pub const MINUS_TEN: u32 = 0xC120_0000;

/// The light of the standard scene: white, up on the left behind the eye.
pub open spec fn standard_light() -> Light {
    Light {
        position: Tuple { x: MINUS_TEN, y: TEN, z: MINUS_TEN, w: TupleType::Point },
        intensity: Tuple { x: ONE, y: ONE, z: ONE, w: TupleType::Color },
    }
}

/// The material of the outer sphere of the standard scene: a matt light
/// green.
pub open spec fn standard_green() -> Material {
    Material {
        color: Tuple { x: 0x3F4C_CCCD, y: ONE, z: 0x3F19_999A, w: TupleType::Color },
        diffuse: 0x3F33_3333,
        specular: 0x3E4C_CCCD,
        ..Material::standard()
    }
}

/// The first place at or after `from` where a shape with identity `id`
/// stands in the scene; the number of shapes where there is none.
pub open spec fn place_of(shapes: Seq<Body>, id: u128, from: int) -> int
    decreases shapes.len() - from,
{
    if from < 0 || from >= shapes.len() {
        shapes.len() as int
    } else if shapes[from].shape.ident() == id {
        from
    } else {
        place_of(shapes, id, from + 1)
    }
}

impl Body {
    /// The shape where it is, as large as it is, without a pattern.
    pub fn new(shape: Shape) -> (r: Body)
        ensures
            r.shape == shape,
            r.transform.is_identity(),
            r.pattern.is_none(),
    {
        Body { shape, transform: Matrice::identity_matrix(4), pattern: None }
    }

    pub fn set_transform(&mut self, t: Matrice)
        ensures
            final(self).transform == t,
            final(self).shape == old(self).shape,
            final(self).pattern == old(self).pattern,
    {
        self.transform = t;
    }

    pub fn transform(&self) -> (r: &Matrice)
        ensures
            *r == self.transform,
    {
        &self.transform
    }
}

impl World {
    pub fn new(light: Light, shapes: Vec<Body>) -> (r: World)
        ensures
            r.light == light,
            r.shapes == shapes,
    {
        World { light, shapes }
    }

    pub fn set_light(&mut self, light: Light)
        ensures
            final(self).light == light,
            final(self).shapes == old(self).shapes,
    {
        self.light = light;
    }

    /// Asks `intersect` for the crossings of a ray with every shape of the
    /// scene, in the order of the shapes, and hands back one list for each.
    pub fn crossings_by_shape<F: Fn(&Body) -> Vec<Intersection>>(&self, intersect: F) -> (r: Vec<
        Vec<Intersection>,
    >)
        requires
            forall|k: int|
                0 <= k < self.shapes@.len() ==> intersect.requires((&#[trigger] self.shapes@[k],)),
        ensures
            r@.len() == self.shapes@.len(),
            forall|k: int|
                0 <= k < self.shapes@.len() ==> intersect.ensures(
                    (&self.shapes@[k],),
                    #[trigger] r@[k],
                ),
    {
        let mut lists: Vec<Vec<Intersection>> = Vec::new();
        let mut k: usize = 0;
        while k < self.shapes.len()
            invariant
                k <= self.shapes.len(),
                lists@.len() == k,
                forall|k: int|
                    0 <= k < self.shapes@.len() ==> intersect.requires(
                        (&#[trigger] self.shapes@[k],),
                    ),
                forall|j: int|
                    0 <= j < k ==> intersect.ensures((&self.shapes@[j],), #[trigger] lists@[j]),
            decreases self.shapes.len() - k,
        {
            let found = intersect(&self.shapes[k]);
            lists.push(found);
            k += 1;
        }
        lists
    }

    /// Where in the scene the shape with the identity of `shape` stands:
    /// the first such place, or none.
    pub fn find(&self, shape: &Shape) -> (r: Option<usize>)
        ensures
            match r {
                Some(k) => k == place_of(self.shapes@, shape.ident(), 0) && k < self.shapes@.len()
                    && self.shapes@[k as int].shape.ident() == shape.ident(),
                None => place_of(self.shapes@, shape.ident(), 0) == self.shapes@.len()
                    && forall|i: int|
                    0 <= i < self.shapes@.len() ==> (#[trigger] self.shapes@[i]).shape.ident()
                        != shape.ident(),
            },
    {
        let id = shape.id();
        let mut k: usize = 0;
        while k < self.shapes.len()
            invariant
                k <= self.shapes.len(),
                id == shape.ident(),
                place_of(self.shapes@, id, 0) == place_of(self.shapes@, id, k as int),
                forall|i: int| 0 <= i < k ==> (#[trigger] self.shapes@[i]).shape.ident() != id,
            decreases self.shapes.len() - k,
        {
            if self.shapes[k].shape.id() == id {
                return Some(k);
            }
            k += 1;
        }
        None
    }
}

impl Default for World {
    /// The standard scene: the standard light, a green sphere of unit
    /// size, and inside it a sphere of half the size with the standard
    /// material.
    fn default() -> (r: World)
        ensures
            r.light == standard_light(),
            r.shapes@.len() == 2,
            r.shapes@[0].shape is Sphere,
            r.shapes@[0].shape.surface() == standard_green(),
            r.shapes@[0].transform.is_identity(),
            r.shapes@[0].pattern.is_none(),
            r.shapes@[1].shape is Sphere,
            r.shapes@[1].shape.surface() == Material::standard(),
            r.shapes@[1].transform.wf(),
            r.shapes@[1].transform.size == 4,
            forall|i: int, j: int|
                0 <= i < 4 && 0 <= j < 4 ==> r.shapes@[1].transform.cell(i, j) == scaling_cell(
                    HALF,
                    HALF,
                    HALF,
                    i,
                    j,
                ),
            r.shapes@[1].pattern.is_none(),
    {
        let light = Light::new(
            Tuple::point(MINUS_TEN, TEN, MINUS_TEN),
            Tuple::color(ONE, ONE, ONE),
        );
        let mut s1 = Shape::Sphere(Sphere::new());
        let mut material = Material::new();
        material.color = Tuple::color(0x3F4C_CCCD, ONE, 0x3F19_999A);
        material.diffuse = 0x3F33_3333;
        material.specular = 0x3E4C_CCCD;
        s1.set_material(material);
        let mut s2 = Body::new(Shape::Sphere(Sphere::new()));
        s2.set_transform(scaling(HALF, HALF, HALF));
        let mut shapes: Vec<Body> = Vec::new();
        shapes.push(Body::new(s1));
        shapes.push(s2);
        World::new(light, shapes)
    }
}

/// The crossings of the first `n` lists, one list after the other.
pub open spec fn joined(lists: Seq<Vec<Intersection>>, n: int) -> Seq<Intersection>
    decreases n,
{
    if n <= 0 || n > lists.len() {
        Seq::empty()
    } else {
        joined(lists, n - 1) + lists[n - 1]@
    }
}

/// All crossings of a ray with a scene, nearest to the start of the ray's
/// line first.
pub open spec fn crossings(lists: Seq<Vec<Intersection>>) -> Seq<Intersection> {
    sort_by_t(joined(lists, lists.len() as int))
}

/// What is seen along a ray with the crossings `xs`: nothing, or the
/// nearest crossing in front, prepared against the whole list.
pub open spec fn seen(xs: Seq<Intersection>) -> Option<Computation> {
    match hit_of(xs) {
        None => None,
        Some(h) => Some(Computation { t: h.t, object: h.s, n1: n1_of(xs, h), n2: n2_of(xs, h) }),
    }
}

/// A point is in shadow where the ray from it towards the light, with the
/// crossings `xs`, meets something before it has gone the distance to the
/// light.
pub open spec fn shadowed(xs: Seq<Intersection>, distance: u32) -> bool {
    match hit_of(xs) {
        None => false,
        Some(h) => less(h.t, distance),
    }
}

/// The budget handed to a bounce off a surface with coefficient `share`:
/// none where the surface gives nothing to the bounce or the budget is
/// spent, else one less than what is left.
pub open spec fn budget_after(share: u32, remaining: u32) -> Option<u32> {
    if zero(share) || remaining == 0 {
        None
    } else {
        Some((remaining - 1) as u32)
    }
}

/// Gathers the crossings that each shape reported, in the order of the
/// shapes, and sorts them by parameter.
pub fn intersect_world(lists: &Vec<Vec<Intersection>>) -> (r: Vec<Intersection>)
    ensures
        r@ == crossings(lists@),
{
    let mut out: Vec<Intersection> = Vec::new();
    let mut k: usize = 0;
    while k < lists.len()
        invariant
            k <= lists.len(),
            out@ == joined(lists@, k as int),
        decreases lists.len() - k,
    {
        let list = &lists[k];
        let mut j: usize = 0;
        while j < list.len()
            invariant
                j <= list.len(),
                k < lists.len(),
                list@ == lists@[k as int]@,
                out@ == joined(lists@, k as int) + list@.take(j as int),
            decreases list.len() - j,
        {
            out.push(list[j]);
            assert(list@.take(j as int).push(list@[j as int]) =~= list@.take(j + 1));
            j += 1;
        }
        assert(list@.take(list.len() as int) =~= list@);
        k += 1;
    }
    intersections(&mut out)
}

/// Picks what a ray sees from the crossings that each shape reported.
pub fn visible(lists: &Vec<Vec<Intersection>>) -> (r: Option<Computation>)
    ensures
        r == seen(crossings(lists@)),
{
    let xs = intersect_world(lists);
    match hit(copy_of(&xs)) {
        None => None,
        Some(h) => Some(Computation::new(&h, &xs)),
    }
}

/// Whether the point from which the shadow ray with crossings `xs` starts
/// is in shadow of a light `distance` away.
pub fn is_shadowed(xs: Vec<Intersection>, distance: u32) -> (r: bool)
    ensures
        r == shadowed(xs@, distance),
{
    match hit(xs) {
        None => false,
        Some(h) => lt(h.t, distance),
    }
}

/// Whether the reflection at `comps` is to be followed, and with what
/// budget: not where the surface does not reflect or the budget is spent.
pub fn reflection_budget(comps: &Computation, remaining: u32) -> (r: Option<u32>)
    ensures
        r == budget_after(comps.object.surface().reflective, remaining),
        r.is_some() ==> r.unwrap() < remaining,
{
    if is_zero(comps.object.material().reflective) || remaining == 0 {
        None
    } else {
        Some(remaining - 1)
    }
}

/// Whether the refraction at `comps` is to be followed, and with what
/// budget: not where the surface is opaque or the budget is spent, nor
/// where `sin2_t`, the squared sine of the angle of the refracted ray,
/// exceeds one, for then all light is reflected inside.
pub fn refraction_budget(comps: &Computation, remaining: u32, sin2_t: u32) -> (r: Option<u32>)
    ensures
        r == if less(ONE, sin2_t) {
            None
        } else {
            budget_after(comps.object.surface().transparency, remaining)
        },
        r.is_some() ==> r.unwrap() < remaining,
{
    if is_zero(comps.object.material().transparency) || remaining == 0 || lt(ONE, sin2_t) {
        None
    } else {
        Some(remaining - 1)
    }
}

} // verus!
