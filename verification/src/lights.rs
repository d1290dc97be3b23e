//! The one light of a scene.
use vstd::prelude::*;
use crate::tuple::Tuple;

verus! {

/// A point that shines with a colour.
#[derive(Clone, Copy, Debug, PartialEq, Eq, Structural)]
pub struct Light {
    pub position: Tuple,
    pub intensity: Tuple,
}

impl Light {
    pub fn new(position: Tuple, intensity: Tuple) -> (r: Light)
        ensures
            r == (Light { position, intensity }),
    {
        Light { position, intensity }
    }
}

} // verus!
