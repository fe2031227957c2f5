//! Surface materials of the diorama's blocks.
//!
//! Every optical quantity is a whole number of hundredths: a colour channel of
//! 80 is 0.80, a refractive index of 320 is 3.20. That keeps the material
//! table exact; the program that does the shading arithmetic divides by
//! `HUNDREDTHS` when it turns a material into numbers of its own.
use vstd::prelude::*;
use crate::textures::Texture;

verus! {

/// How many units of a material quantity make one.
pub const HUNDREDTHS: u32 = 100;

/// A colour, each channel in hundredths.
#[derive(Clone, Copy, Debug, PartialEq, Eq, Structural)]
pub struct Rgb {
    pub r: u32,
    pub g: u32,
    pub b: u32,
}

/// The weights with which the four terms of light transport enter a surface's
/// colour, in hundredths. They need not add up to one.
#[derive(Clone, Copy, Debug, PartialEq, Eq, Structural)]
pub struct Albedo {
    pub diffuse: u32,
    pub specular: u32,
    pub reflect: u32,
    pub refract: u32,
}

/// The optical properties of a block, in hundredths.
#[derive(Clone, Copy, Debug, PartialEq, Eq, Structural)]
pub struct Material {
    pub diffuse: Rgb,
    pub specular: u32,
    pub albedo: Albedo,
    pub refractive_index: u32,
    pub texture_id: Option<Texture>,
    pub normal_map_id: Option<Texture>,
    pub is_emissive: bool,
    pub emission_intensity: u32,
    pub emission_color: Rgb,
}

impl Material {
    /// Whether a ray that hits the surface is also followed in its mirror
    /// direction.
    pub open spec fn spec_reflects(self) -> bool {
        self.albedo.reflect > 0
    }

    /// Whether a ray that hits the surface is also followed through it.
    pub open spec fn spec_refracts(self) -> bool {
        self.albedo.refract > 0
    }

    /// Whether the reflected and the refracted share leave room for the
    /// surface's own colour.
    pub open spec fn spec_is_balanced(self) -> bool {
        self.albedo.reflect + self.albedo.refract <= HUNDREDTHS
    }

    /// A material that gives off no light of its own.
    pub fn new(
        diffuse: Rgb,
        specular: u32,
        albedo: Albedo,
        refractive_index: u32,
        texture_id: Option<Texture>,
        normal_map_id: Option<Texture>,
    ) -> (m: Material)
        ensures
            m == (Material {
                diffuse,
                specular,
                albedo,
                refractive_index,
                texture_id,
                normal_map_id,
                is_emissive: false,
                emission_intensity: 0,
                emission_color: Rgb { r: 0, g: 0, b: 0 },
            }),
    {
        Material {
            diffuse,
            specular,
            albedo,
            refractive_index,
            texture_id,
            normal_map_id,
            is_emissive: false,
            emission_intensity: 0,
            emission_color: Rgb { r: 0, g: 0, b: 0 },
        }
    }

    /// A material that gives off light of the given colour and intensity.
    pub fn new_emissive(
        diffuse: Rgb,
        specular: u32,
        albedo: Albedo,
        refractive_index: u32,
        texture_id: Option<Texture>,
        normal_map_id: Option<Texture>,
        emission_intensity: u32,
        emission_color: Rgb,
    ) -> (m: Material)
        ensures
            m == (Material {
                diffuse,
                specular,
                albedo,
                refractive_index,
                texture_id,
                normal_map_id,
                is_emissive: true,
                emission_intensity,
                emission_color,
            }),
    {
        Material {
            diffuse,
            specular,
            albedo,
            refractive_index,
            texture_id,
            normal_map_id,
            is_emissive: true,
            emission_intensity,
            emission_color,
        }
    }

    pub open spec fn spec_black() -> Material {
        Material {
            diffuse: Rgb { r: 0, g: 0, b: 0 },
            specular: 0,
            albedo: Albedo { diffuse: 0, specular: 0, reflect: 0, refract: 0 },
            refractive_index: 0,
            texture_id: None,
            normal_map_id: None,
            is_emissive: false,
            emission_intensity: 0,
            emission_color: Rgb { r: 0, g: 0, b: 0 },
        }
    }

    /// The material of a ray that hit nothing: black, and inert in every term.
    #[verifier::when_used_as_spec(spec_black)]
    pub fn black() -> (m: Material)
        ensures
            m == Material::spec_black(),
    {
        Material::new(
            Rgb { r: 0, g: 0, b: 0 },
            0,
            Albedo { diffuse: 0, specular: 0, reflect: 0, refract: 0 },
            0,
            None,
            None,
        )
    }

    #[verifier::when_used_as_spec(spec_reflects)]
    pub fn reflects(self) -> (b: bool)
        ensures
            b == self.spec_reflects(),
    {
        self.albedo.reflect > 0
    }

    #[verifier::when_used_as_spec(spec_refracts)]
    pub fn refracts(self) -> (b: bool)
        ensures
            b == self.spec_refracts(),
    {
        self.albedo.refract > 0
    }

    #[verifier::when_used_as_spec(spec_is_balanced)]
    pub fn is_balanced(self) -> (b: bool)
        ensures
            b == self.spec_is_balanced(),
    {
        self.albedo.reflect <= HUNDREDTHS && self.albedo.refract <= HUNDREDTHS
            - self.albedo.reflect
    }
}

} // verus!
