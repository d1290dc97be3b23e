//! The closed set of primitives, each with an identity and a material.
use vstd::prelude::*;
use crate::materials::Material;
use crate::scalar::ONE;

verus! {

/// One and a half: the refractive index of glass.
pub const GLASS: u32 = 0x3FC0_0000;

/// The identifier is one drawn at random: it carries the version nibble 4
/// and the variant bits 10, and its other 122 bits are free.
pub open spec fn version_4(id: u128) -> bool {
    id & 0x0000_0000_0000_F000_C000_0000_0000_0000u128
        == 0x0000_0000_0000_4000_8000_0000_0000_0000u128
}

/// Draws a fresh identifier with `uuid::Uuid::new_v4` and packs it with
/// `Uuid::as_u128`. The value is random; all that is claimed is what every
/// such identifier carries: the version nibble 4 and the variant bits 10.
#[verifier::external_body]
pub(crate) fn fresh_id() -> (id: u128)
    ensures
        id & 0x0000_0000_0000_F000_C000_0000_0000_0000u128
            == 0x0000_0000_0000_4000_8000_0000_0000_0000u128,
{
    uuid::Uuid::new_v4().as_u128()
}

/// The unit sphere about the origin.
#[derive(Clone, Copy, Debug, PartialEq, Eq, Structural)]
pub struct Sphere {
    pub id: u128,
    pub material: Material,
}

/// The plane `y = 0`.
#[derive(Clone, Copy, Debug, PartialEq, Eq, Structural)]
pub struct Plane {
    pub id: u128,
    pub material: Material,
}

/// The axis-aligned cube from -1 to 1.
#[derive(Clone, Copy, Debug, PartialEq, Eq, Structural)]
pub struct Cube {
    pub id: u128,
    pub material: Material,
}

#[derive(Clone, Copy, Debug, PartialEq, Eq, Structural)]
pub enum Shape {
    Sphere(Sphere),
    Plane(Plane),
    Cube(Cube),
}

impl Sphere {
    /// A sphere with the standard material and an identity of its own: an
    /// identifier freshly drawn at random.
    pub fn new() -> (r: Sphere)
        ensures
            r.material == Material::standard(),
            version_4(r.id),
    {
        Sphere { id: fresh_id(), material: Material::new() }
    }

    /// A fully transparent sphere of glass.
    pub fn glass_sphere() -> (r: Sphere)
        ensures
            r.material == (Material {
                transparency: ONE,
                refractive_index: GLASS,
                ..Material::standard()
            }),
    {
        let mut s = Sphere::new();
        s.material.transparency = ONE;
        s.material.refractive_index = GLASS;
        s
    }
}

impl Plane {
    /// A plane with the standard material and an identity of its own: an
    /// identifier freshly drawn at random.
    pub fn new() -> (r: Plane)
        ensures
            r.material == Material::standard(),
            version_4(r.id),
    {
        Plane { id: fresh_id(), material: Material::new() }
    }
}

impl Cube {
    /// A cube with the standard material and an identity of its own: an
    /// identifier freshly drawn at random.
    pub fn new() -> (r: Cube)
        ensures
            r.material == Material::standard(),
            version_4(r.id),
    {
        Cube { id: fresh_id(), material: Material::new() }
    }
}

impl Shape {
    /// What tells one shape from another, whatever its material.
    pub open spec fn ident(self) -> u128 {
        match self {
            Shape::Sphere(s) => s.id,
            Shape::Plane(p) => p.id,
            Shape::Cube(c) => c.id,
        }
    }

    pub open spec fn surface(self) -> Material {
        match self {
            Shape::Sphere(s) => s.material,
            Shape::Plane(p) => p.material,
            Shape::Cube(c) => c.material,
        }
    }

    /// The same shape with another material.
    pub open spec fn with_surface(self, m: Material) -> Shape {
        match self {
            Shape::Sphere(s) => Shape::Sphere(Sphere { id: s.id, material: m }),
            Shape::Plane(p) => Shape::Plane(Plane { id: p.id, material: m }),
            Shape::Cube(c) => Shape::Cube(Cube { id: c.id, material: m }),
        }
    }

    pub fn id(&self) -> (r: u128)
        ensures
            r == self.ident(),
    {
        match self {
            Shape::Sphere(s) => s.id,
            Shape::Plane(p) => p.id,
            Shape::Cube(c) => c.id,
        }
    }

    pub fn material(&self) -> (r: Material)
        ensures
            r == self.surface(),
    {
        match self {
            Shape::Sphere(s) => s.material,
            Shape::Plane(p) => p.material,
            Shape::Cube(c) => c.material,
        }
    }

    /// Replaces the material; the identity stays.
    pub fn set_material(&mut self, m: Material)
        ensures
            *final(self) == old(self).with_surface(m),
    {
        let next = match *self {
            Shape::Sphere(s) => Shape::Sphere(Sphere { id: s.id, material: m }),
            Shape::Plane(p) => Shape::Plane(Plane { id: p.id, material: m }),
            Shape::Cube(c) => Shape::Cube(Cube { id: c.id, material: m }),
        };
        *self = next;
    }

    /// Replaces the ambient coefficient alone.
    pub fn set_material_ambient(&mut self, ambient: u32)
        ensures
            *final(self) == old(self).with_surface(
                (Material { ambient, ..old(self).surface() }),
            ),
    {
        let mut m = self.material();
        m.ambient = ambient;
        self.set_material(m);
    }
}

} // verus!
