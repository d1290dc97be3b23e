//! Surface coefficients.
use vstd::prelude::*;
use crate::scalar::{is_positive, less, lt, positive, ONE};
use crate::tuple::{Tuple, TupleType};

verus! {

/// How a surface answers light. Every coefficient is a single-precision bit
/// pattern.
#[derive(Clone, Copy, Debug, PartialEq, Eq, Structural)]
pub struct Material {
    pub color: Tuple,
    pub ambient: u32,
    pub transparency: u32,
    pub refractive_index: u32,
    pub diffuse: u32,
    pub specular: u32,
    pub shininess: u32,
    pub reflective: u32,
}

/// One tenth.
pub const AMBIENT: u32 = 0x3DCC_CCCD;

/// Nine tenths.
pub const DIFFUSE: u32 = 0x3F66_6666;

/// Nine tenths.
pub const SPECULAR: u32 = 0x3F66_6666;

/// Two hundred.
pub const SHININESS: u32 = 0x4348_0000;

/// The three terms of the light that a point gives back to the eye.
#[derive(Clone, Copy, Debug, PartialEq, Eq, Structural)]
pub struct Shade {
    pub ambient: Tuple,
    pub diffuse: Tuple,
    pub specular: Tuple,
}

/// Which terms count. In shadow only the ambient one; so too where the
/// light stands behind the surface (`light_dot_normal` below nought). The
/// specular one only where the mirrored light points towards the eye
/// (`reflect_dot_eye` above nought).
pub open spec fn lit(
    ambient: Tuple,
    diffuse: Tuple,
    specular: Tuple,
    light_dot_normal: u32,
    reflect_dot_eye: u32,
    in_shadow: bool,
) -> Shade {
    if in_shadow || less(light_dot_normal, 0) {
        Shade { ambient, diffuse: Tuple::black(), specular: Tuple::black() }
    } else if positive(reflect_dot_eye) {
        Shade { ambient, diffuse, specular }
    } else {
        Shade { ambient, diffuse, specular: Tuple::black() }
    }
}

/// Chooses among the terms of the reflection model, each computed
/// beforehand, those that the geometry lets through; what is left out is
/// black.
pub fn lightning(
    ambient: Tuple,
    diffuse: Tuple,
    specular: Tuple,
    light_dot_normal: u32,
    reflect_dot_eye: u32,
    in_shadow: bool,
) -> (r: Shade)
    ensures
        r == lit(ambient, diffuse, specular, light_dot_normal, reflect_dot_eye, in_shadow),
{
    if in_shadow || lt(light_dot_normal, 0) {
        Shade { ambient, diffuse: Tuple::default_color(), specular: Tuple::default_color() }
    } else if is_positive(reflect_dot_eye) {
        Shade { ambient, diffuse, specular }
    } else {
        Shade { ambient, diffuse, specular: Tuple::default_color() }
    }
}

impl Material {
    /// The colour that lighting starts from: that of the pattern where the
    /// surface has one, else the material's own.
    pub fn base_color(&self, pattern: Option<Tuple>) -> (r: Tuple)
        ensures
            r == match pattern {
                Some(c) => c,
                None => self.color,
            },
    {
        match pattern {
            Some(c) => c,
            None => self.color,
        }
    }

    /// The standard surface: white, opaque, matt, with the refractive index
    /// of a vacuum.
    pub open spec fn standard() -> Material {
        Material {
            color: Tuple { x: ONE, y: ONE, z: ONE, w: TupleType::Color },
            ambient: AMBIENT,
            transparency: 0,
            refractive_index: ONE,
            diffuse: DIFFUSE,
            specular: SPECULAR,
            shininess: SHININESS,
            reflective: 0,
        }
    }

    pub fn new() -> (r: Material)
        ensures
            r == Material::standard(),
    {
        Material {
            color: Tuple::color(ONE, ONE, ONE),
            ambient: AMBIENT,
            transparency: 0,
            refractive_index: ONE,
            diffuse: DIFFUSE,
            specular: SPECULAR,
            shininess: SHININESS,
            reflective: 0,
        }
    }
}

} // verus!
