//! The images that materials refer to, and how a texture coordinate finds
//! its texel in one of them.
use vstd::prelude::*;
use crate::framebuffer::{lemma_pixel_index_is_bijective, pixel_index};
use crate::scalar::Scalar;

verus! {

/// The images a material can refer to. A material names its texture by one of
/// these, so it cannot name an image that the program never registered.
#[derive(Clone, Copy, Debug, PartialEq, Eq, Structural)]
pub enum Texture {
    Furnace,
    Bookshelf,
    Obsidian,
    Glass,
    Glowstone,
    Chest,
    WoodPlanks,
    OakWoodPlanks,
    BallNormal,
}

impl Texture {
    /// Where the image lies among the program's assets.
    pub open spec fn spec_path(self) -> Seq<char> {
        match self {
            Texture::Furnace => "assets/Furnace.png"@,
            Texture::Bookshelf => "assets/Bookshelf.png"@,
            Texture::Obsidian => "assets/obsidiana.png"@,
            Texture::Glass => "assets/glass.png"@,
            Texture::Glowstone => "assets/glowstone.png"@,
            Texture::Chest => "assets/chest.png"@,
            Texture::WoodPlanks => "assets/wood_planks.png"@,
            Texture::OakWoodPlanks => "assets/oak-wood-planks.png"@,
            Texture::BallNormal => "assets/ball_normal.png"@,
        }
    }

    /// The place of the image in the order in which `all` lists them.
    pub open spec fn spec_index(self) -> int {
        match self {
            Texture::Furnace => 0,
            Texture::Bookshelf => 1,
            Texture::Obsidian => 2,
            Texture::Glass => 3,
            Texture::Glowstone => 4,
            Texture::Chest => 5,
            Texture::WoodPlanks => 6,
            Texture::OakWoodPlanks => 7,
            Texture::BallNormal => 8,
        }
    }

    pub fn path(self) -> (p: &'static str)
        ensures
            p@ == self.spec_path(),
    {
        match self {
            Texture::Furnace => "assets/Furnace.png",
            Texture::Bookshelf => "assets/Bookshelf.png",
            Texture::Obsidian => "assets/obsidiana.png",
            Texture::Glass => "assets/glass.png",
            Texture::Glowstone => "assets/glowstone.png",
            Texture::Chest => "assets/chest.png",
            Texture::WoodPlanks => "assets/wood_planks.png",
            Texture::OakWoodPlanks => "assets/oak-wood-planks.png",
            Texture::BallNormal => "assets/ball_normal.png",
        }
    }

    pub fn index(self) -> (i: usize)
        ensures
            i == self.spec_index(),
            i < 9,
    {
        match self {
            Texture::Furnace => 0,
            Texture::Bookshelf => 1,
            Texture::Obsidian => 2,
            Texture::Glass => 3,
            Texture::Glowstone => 4,
            Texture::Chest => 5,
            Texture::WoodPlanks => 6,
            Texture::OakWoodPlanks => 7,
            Texture::BallNormal => 8,
        }
    }

    /// Every image, each once, at the place its `index` gives.
    pub fn all() -> (textures: Vec<Texture>)
        ensures
            textures@.len() == 9,
            forall|t: Texture| #[trigger] textures@[t.spec_index()] == t,
    {
        vec![
            Texture::Furnace,
            Texture::Bookshelf,
            Texture::Obsidian,
            Texture::Glass,
            Texture::Glowstone,
            Texture::Chest,
            Texture::WoodPlanks,
            Texture::OakWoodPlanks,
            Texture::BallNormal,
        ]
    }
}

/// The texel that a texture coordinate falls on, once the program has
/// multiplied it by the image's width or height: the whole part of the
/// product, held to the last texel of an image of `size` texels. An image
/// without texels has none to fall on.
pub open spec fn spec_texel(scaled: Scalar, size: u32) -> Option<u32> {
    if size == 0 {
        None
    } else if scaled.to_u32() >= size {
        Some((size - 1) as u32)
    } else {
        Some(scaled.to_u32())
    }
}

#[verifier::when_used_as_spec(spec_texel)]
pub fn texel(scaled: Scalar, size: u32) -> (t: Option<u32>)
    ensures
        t == spec_texel(scaled, size),
        t matches Some(i) ==> i < size,
{
    if size == 0 {
        return None;
    }
    let whole: u32 = scaled.to_u32();
    if whole >= size {
        Some(size - 1)
    } else {
        Some(whole)
    }
}

/// The place of texel (tx, ty) in the row-major pixels of an image, or
/// nothing where the image has no such texel.
pub fn texel_index(width: u32, height: u32, tx: u32, ty: u32) -> (i: Option<usize>)
    requires
        width * height <= usize::MAX,
    ensures
        i == if tx < width && ty < height {
            Some(pixel_index(width as int, tx as int, ty as int) as usize)
        } else {
            None
        },
        i matches Some(k) ==> k < width * height,
{
    if tx < width && ty < height {
        proof {
            lemma_pixel_index_is_bijective(width as int, height as int, tx as int, ty as int, 0);
        }
        Some((ty as usize) * (width as usize) + (tx as usize))
    } else {
        None
    }
}

} // verus!
