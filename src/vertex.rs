use vstd::prelude::*;

use crate::error::FormatError;

verus! {

/// Bit pattern of the binary32 value 1.0.
pub const ONE_BITS: u32 = 0x3F80_0000;

/// Bit pattern of binary32 positive infinity. Patterns above it are NaNs or
/// negative values.
pub const POS_INFINITY_BITS: u32 = 0x7F80_0000;

/// Two scalars, each held as the bit pattern of an IEEE-754 binary32 value.
#[derive(Clone, Copy, PartialEq, Eq, Debug, Structural)]
pub struct Float2 {
    pub x: u32,
    pub y: u32,
}

/// Three scalars, each held as the bit pattern of an IEEE-754 binary32 value.
#[derive(Clone, Copy, PartialEq, Eq, Debug, Structural)]
pub struct Float3 {
    pub x: u32,
    pub y: u32,
    pub z: u32,
}

/// Four scalars, each held as the bit pattern of an IEEE-754 binary32 value.
#[derive(Clone, Copy, PartialEq, Eq, Debug, Structural)]
pub struct Float4 {
    pub x: u32,
    pub y: u32,
    pub z: u32,
    pub w: u32,
}

/// One fully resolved vertex in the canonical layout.
#[derive(Clone, Copy, PartialEq, Eq, Debug, Structural)]
pub struct Vertex {
    pub position: Float3,
    pub normal: Float3,
    /// Direction in `x, y, z`; handedness sign in `w`.
    pub tangent: Float4,
    pub color: Float4,
    pub uv0: Float2,
    pub uv1: Float2,
}

pub open spec fn zero2() -> Float2 {
    Float2 { x: 0, y: 0 }
}

pub open spec fn zero3() -> Float3 {
    Float3 { x: 0, y: 0, z: 0 }
}

pub open spec fn zero4() -> Float4 {
    Float4 { x: 0, y: 0, z: 0, w: 0 }
}

pub open spec fn white() -> Float4 {
    Float4 { x: ONE_BITS, y: ONE_BITS, z: ONE_BITS, w: ONE_BITS }
}

/// The pattern encodes a value above 1.0: positive, not NaN, larger than one.
/// Positive binary32 values are ordered as their bit patterns are.
pub open spec fn exceeds_one(b: u32) -> bool {
    ONE_BITS < b && b <= POS_INFINITY_BITS
}

pub open spec fn clamp_unit_spec(b: u32) -> u32 {
    if exceeds_one(b) {
        ONE_BITS
    } else {
        b
    }
}

/// Clamps an encoded value to at most 1.0; NaN and values up to 1.0 pass
/// through unchanged.
pub fn clamp_unit(b: u32) -> (r: u32)
    ensures
        r == clamp_unit_spec(b),
{
    if ONE_BITS < b && b <= POS_INFINITY_BITS {
        ONE_BITS
    } else {
        b
    }
}

/// The color stored in a vertex: the first three channels (already gamma
/// decoded) clamped to at most 1.0, alpha unchanged.
pub open spec fn clamped_color(c: Float4) -> Float4 {
    Float4 { x: clamp_unit_spec(c.x), y: clamp_unit_spec(c.y), z: clamp_unit_spec(c.z), w: c.w }
}

/// Per-element attribute streams of one primitive. An empty stream means that
/// the attribute is absent; present streams are indexed by the index stream.
pub struct PrimitiveAttributes {
    pub positions: Vec<Float3>,
    pub normals: Vec<Float3>,
    pub tangents: Vec<Float4>,
    /// Colors after gamma decode, before clamping.
    pub colors: Vec<Float4>,
    pub uv0: Vec<Float2>,
    pub uv1: Vec<Float2>,
}

pub open spec fn pick<T>(s: Seq<T>, i: int, default: T) -> T {
    if s.len() == 0 {
        default
    } else {
        s[i]
    }
}

pub open spec fn covers<T>(s: Seq<T>, i: int) -> bool {
    s.len() == 0 || (0 <= i && i < s.len())
}

impl PrimitiveAttributes {
    /// Every present attribute has an element at index `i`.
    pub open spec fn admits(&self, i: int) -> bool {
        &&& covers(self.positions@, i)
        &&& covers(self.normals@, i)
        &&& covers(self.tangents@, i)
        &&& covers(self.colors@, i)
        &&& covers(self.uv0@, i)
        &&& covers(self.uv1@, i)
    }

    /// The vertex for index `i`: each present attribute's element, each absent
    /// one's default (origin, zero normal and tangent, white, zero UVs).
    pub open spec fn vertex_at(&self, i: int) -> Vertex {
        Vertex {
            position: pick(self.positions@, i, zero3()),
            normal: pick(self.normals@, i, zero3()),
            tangent: pick(self.tangents@, i, zero4()),
            color: if self.colors@.len() == 0 {
                white()
            } else {
                clamped_color(self.colors@[i])
            },
            uv0: pick(self.uv0@, i, zero2()),
            uv1: pick(self.uv1@, i, zero2()),
        }
    }

    fn admits_index(&self, i: usize) -> (r: bool)
        ensures
            r == self.admits(i as int),
    {
        (self.positions.len() == 0 || i < self.positions.len())
            && (self.normals.len() == 0 || i < self.normals.len())
            && (self.tangents.len() == 0 || i < self.tangents.len())
            && (self.colors.len() == 0 || i < self.colors.len())
            && (self.uv0.len() == 0 || i < self.uv0.len())
            && (self.uv1.len() == 0 || i < self.uv1.len())
    }

    fn vertex_for(&self, i: usize) -> (v: Vertex)
        requires
            self.admits(i as int),
        ensures
            v == self.vertex_at(i as int),
    {
        let mut v = Vertex {
            position: Float3 { x: 0, y: 0, z: 0 },
            normal: Float3 { x: 0, y: 0, z: 0 },
            tangent: Float4 { x: 0, y: 0, z: 0, w: 0 },
            color: Float4 { x: ONE_BITS, y: ONE_BITS, z: ONE_BITS, w: ONE_BITS },
            uv0: Float2 { x: 0, y: 0 },
            uv1: Float2 { x: 0, y: 0 },
        };
        if self.positions.len() != 0 {
            v.position = self.positions[i];
        }
        if self.normals.len() != 0 {
            v.normal = self.normals[i];
        }
        if self.tangents.len() != 0 {
            v.tangent = self.tangents[i];
        }
        if self.colors.len() != 0 {
            let c = self.colors[i];
            v.color = Float4 { x: clamp_unit(c.x), y: clamp_unit(c.y), z: clamp_unit(c.z), w: c.w };
        }
        if self.uv0.len() != 0 {
            v.uv0 = self.uv0[i];
        }
        if self.uv1.len() != 0 {
            v.uv1 = self.uv1[i];
        }
        v
    }
}

/// A non-indexed vertex batch and the slot of its device buffer once uploaded.
pub struct Mesh {
    pub verts: Vec<Vertex>,
    pub buffer: Option<usize>,
}

/// Expands an indexed primitive into a non-indexed batch: one vertex per index.
/// Fails exactly when some index is past the end of a present attribute.
pub fn create_vertex_array(attrs: &PrimitiveAttributes, indices: &Vec<u16>) -> (r: Result<
    Mesh,
    FormatError,
>)
    ensures
        r is Err <==> exists|i: int|
            0 <= i < indices@.len() && !attrs.admits(#[trigger] indices@[i] as int),
        r is Err ==> r->Err_0 == FormatError::IndexOutOfRange,
        r matches Ok(m) ==> {
            &&& m.buffer is None
            &&& m.verts@.len() == indices@.len()
            &&& forall|i: int|
                0 <= i < indices@.len() ==> #[trigger] m.verts@[i] == attrs.vertex_at(
                    indices@[i] as int,
                )
        },
{
    let mut verts: Vec<Vertex> = Vec::new();
    let mut i: usize = 0;
    while i < indices.len()
        invariant
            i <= indices@.len(),
            verts@.len() == i,
            forall|j: int| 0 <= j < i ==> attrs.admits(#[trigger] indices@[j] as int),
            forall|j: int| 0 <= j < i ==> #[trigger] verts@[j] == attrs.vertex_at(indices@[j] as int),
        decreases indices@.len() - i,
    {
        let index = indices[i] as usize;
        if !attrs.admits_index(index) {
            return Err(FormatError::IndexOutOfRange);
        }
        verts.push(attrs.vertex_for(index));
        i = i + 1;
    }
    Ok(Mesh { verts, buffer: None })
}

/// With every attribute present, each vertex carries its source position,
/// normal, tangent and UVs exactly as given.
pub proof fn lemma_present_attributes_kept(attrs: &PrimitiveAttributes, i: int)
    requires
        0 <= i,
        i < attrs.positions@.len(),
        i < attrs.normals@.len(),
        i < attrs.tangents@.len(),
        i < attrs.uv0@.len(),
        i < attrs.uv1@.len(),
    ensures
        attrs.vertex_at(i).position == attrs.positions@[i],
        attrs.vertex_at(i).normal == attrs.normals@[i],
        attrs.vertex_at(i).tangent == attrs.tangents@[i],
        attrs.vertex_at(i).uv0 == attrs.uv0@[i],
        attrs.vertex_at(i).uv1 == attrs.uv1@[i],
{
}

/// A stored color channel never exceeds 1.0, and a channel at or below 1.0 is
/// kept as it is.
pub proof fn lemma_color_clamped(b: u32)
    ensures
        !exceeds_one(clamp_unit_spec(b)),
        !exceeds_one(b) ==> clamp_unit_spec(b) == b,
        exceeds_one(b) ==> clamp_unit_spec(b) == ONE_BITS,
{
}

} // verus!
