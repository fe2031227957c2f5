//! The record of what a ray found at one object.
use vstd::prelude::*;
use crate::cube::Face;
use crate::material::Material;
use crate::scalar::Scalar;

verus! {

/// What a ray found at one object: whether it hit, at which ray parameter,
/// through which face, and the material it met.
#[derive(Clone, Copy, Debug, PartialEq, Eq, Structural)]
pub struct Intersect {
    pub is_intersecting: bool,
    pub distance: Scalar,
    pub face: Option<Face>,
    pub material: Material,
}

impl Intersect {
    pub open spec fn spec_empty() -> Intersect {
        Intersect {
            is_intersecting: false,
            distance: Scalar::infinity(),
            face: None,
            material: Material::black(),
        }
    }

    /// A hit at the given ray parameter.
    pub fn new(distance: Scalar, face: Option<Face>, material: Material) -> (hit: Intersect)
        ensures
            hit == (Intersect { is_intersecting: true, distance, face, material }),
    {
        Intersect { is_intersecting: true, distance, face, material }
    }

    /// A miss: no hit, infinitely far away.
    #[verifier::when_used_as_spec(spec_empty)]
    pub fn empty() -> (miss: Intersect)
        ensures
            miss == Intersect::spec_empty(),
    {
        Intersect {
            is_intersecting: false,
            distance: Scalar::infinity(),
            face: None,
            material: Material::black(),
        }
    }

    /// Whether the record can be the nearest hit of a ray: it is a hit, and
    /// its distance is a number below infinity.
    pub open spec fn spec_is_candidate(self) -> bool {
        self.is_intersecting && self.distance.lt(Scalar::infinity())
    }

    /// Whether the record keeps light from a point that lies `reach` away
    /// along the ray: it is a hit nearer than that, on an object that gives
    /// off no light of its own.
    pub open spec fn spec_blocks(self, reach: Scalar) -> bool {
        !self.material.is_emissive && self.is_intersecting && self.distance.lt(reach)
    }

    #[verifier::when_used_as_spec(spec_is_candidate)]
    pub fn is_candidate(self) -> (b: bool)
        ensures
            b == self.spec_is_candidate(),
    {
        self.is_intersecting && self.distance.lt(Scalar::infinity())
    }

    #[verifier::when_used_as_spec(spec_blocks)]
    pub fn blocks(self, reach: Scalar) -> (b: bool)
        ensures
            b == self.spec_blocks(reach),
    {
        !self.material.is_emissive && self.is_intersecting && self.distance.lt(reach)
    }
}

} // verus!
