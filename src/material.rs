use vstd::prelude::*;
use vstd::string::*;

use crate::vertex::Float3;

verus! {

/// Texture slot value of a material slot that holds no texture.
pub const UNSET_TEXTURE: i32 = -1;

/// Surface parameters of one material. Texture fields hold a slot of the
/// renderer's texture table or `UNSET_TEXTURE`; scalar factors are held as
/// binary32 bit patterns.
#[derive(Clone, Copy, PartialEq, Eq, Debug, Structural)]
pub struct Material {
    pub tex_alb: i32,
    pub tex_nrm: i32,
    pub tex_mtl_rgh: i32,
    pub tex_emm: i32,
    pub scl_rgh: u32,
    pub scl_mtl: u32,
    pub scl_emm: Float3,
}

impl Material {
    /// A material with every texture slot unset and every factor zero.
    pub fn new() -> (m: Material)
        ensures
            m.tex_alb == UNSET_TEXTURE,
            m.tex_nrm == UNSET_TEXTURE,
            m.tex_mtl_rgh == UNSET_TEXTURE,
            m.tex_emm == UNSET_TEXTURE,
            m.scl_rgh == 0,
            m.scl_mtl == 0,
            m.scl_emm == (Float3 { x: 0, y: 0, z: 0 }),
    {
        Material {
            tex_alb: UNSET_TEXTURE,
            tex_nrm: UNSET_TEXTURE,
            tex_mtl_rgh: UNSET_TEXTURE,
            tex_emm: UNSET_TEXTURE,
            scl_rgh: 0,
            scl_mtl: 0,
            scl_emm: Float3 { x: 0, y: 0, z: 0 },
        }
    }

    /// The catalog record of a declared material: its factors as declared, its
    /// albedo slot if its base-color texture was uploaded, every other texture
    /// slot unset.
    pub fn from_factors(roughness: u32, metalness: u32, emissive: Float3, albedo: Option<usize>) -> (m: Material)
        requires
            albedo matches Some(slot) ==> slot <= i32::MAX,
        ensures
            m.tex_alb == (match albedo {
                Some(slot) => slot as i32,
                None => UNSET_TEXTURE,
            }),
            m.tex_nrm == UNSET_TEXTURE,
            m.tex_mtl_rgh == UNSET_TEXTURE,
            m.tex_emm == UNSET_TEXTURE,
            m.scl_rgh == roughness,
            m.scl_mtl == metalness,
            m.scl_emm == emissive,
    {
        let mut m = Material::new();
        m.scl_rgh = roughness;
        m.scl_mtl = metalness;
        m.scl_emm = emissive;
        if let Some(slot) = albedo {
            m.tex_alb = slot as i32;
        }
        m
    }
}

pub open spec fn named_or(name: Option<&str>, fallback: Seq<char>) -> Seq<char> {
    match name {
        Some(n) => n@,
        None => fallback,
    }
}

/// Catalog key of a material: its declared name, or "untitled".
pub fn material_key(name: Option<&str>) -> (k: String)
    ensures
        k@ == named_or(name, "untitled"@),
{
    match name {
        Some(n) => String::from_str(n),
        None => String::from_str("untitled"),
    }
}

/// Batch key of a primitive: the name of its material, or "None" where it
/// declares none.
pub fn primitive_material_key(name: Option<&str>) -> (k: String)
    ensures
        k@ == named_or(name, "None"@),
{
    match name {
        Some(n) => String::from_str(n),
        None => String::from_str("None"),
    }
}

} // verus!
