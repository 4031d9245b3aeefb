use vstd::prelude::*;

use crate::accessor::{convert_accessor_buffer, decoded, narrow_indices, narrowed, ComponentType};
use crate::error::FormatError;
use crate::material::{material_key, named_or, primitive_material_key, Material};
use crate::model::{batches_view, material_of, merged, Model};
use crate::vertex::{create_vertex_array, Float3, PrimitiveAttributes, Vertex};

verus! {

/// The index stream of a span: each decoded index narrowed to 16 bits.
pub open spec fn index_stream(span: Seq<u8>, ty: ComponentType, count: int) -> Seq<u16> {
    decoded(span, ty, count).map_values(|c: crate::accessor::Component| narrowed(c->Int_0 as int))
}

/// The non-indexed vertices of a primitive: one per index, in index order.
pub open spec fn expanded(attrs: PrimitiveAttributes, indices: Seq<u16>) -> Seq<Vertex> {
    Seq::new(indices.len(), |i: int| attrs.vertex_at(indices[i] as int))
}

/// Whether every index refers to an element of each present attribute.
pub open spec fn indices_admitted(attrs: PrimitiveAttributes, indices: Seq<u16>) -> bool {
    forall|i: int| 0 <= i < indices.len() ==> attrs.admits(#[trigger] indices[i] as int)
}

/// Adds one primitive to a model: decodes and narrows its index stream,
/// expands it over the attributes and merges the batch under the primitive's
/// material key ("None" where it names no material). On failure the model is
/// unchanged: a span that is not `index_count` indices long, binary32
/// indices, or an index past the end of a present attribute.
pub fn add_primitive(
    model: &mut Model,
    material: Option<&str>,
    attrs: &PrimitiveAttributes,
    index_span: &[u8],
    index_type: ComponentType,
    index_count: usize,
) -> (r: Result<(), FormatError>)
    requires
        old(model).wf(),
    ensures
        final(model).wf(),
        r is Err ==> *final(model) == *old(model),
        index_span@.len() != index_count * index_type.byte_size() ==> r == Err::<(), FormatError>(
            FormatError::AccessorLengthMismatch,
        ),
        index_span@.len() == index_count * index_type.byte_size() && index_type == ComponentType::F32
            && index_count > 0 ==> r == Err::<(), FormatError>(FormatError::FloatIndices),
        index_span@.len() == index_count * index_type.byte_size() && (index_type != ComponentType::F32
            || index_count == 0) ==> {
            let idx = index_stream(index_span@, index_type, index_count as int);
            &&& !indices_admitted(*attrs, idx) ==> r == Err::<(), FormatError>(FormatError::IndexOutOfRange)
            &&& indices_admitted(*attrs, idx) ==> r is Ok && batches_view(final(model).meshes@) == merged(
                batches_view(old(model).meshes@),
                named_or(material, "None"@),
                expanded(*attrs, idx),
            ) && final(model).materials@ == old(model).materials@
        },
{
    let values = convert_accessor_buffer(index_span, index_type, index_count)?;
    proof {
        if index_type == ComponentType::F32 && index_count > 0 {
            assert(values@[0] is FloatBits);
        }
        if index_type != ComponentType::F32 || index_count == 0 {
            assert forall|i: int| 0 <= i < values@.len() implies !((#[trigger] values@[i]) is FloatBits) by {}
        }
    }
    let indices = narrow_indices(&values)?;
    proof {
        assert(indices@ =~= index_stream(index_span@, index_type, index_count as int));
    }
    let batch = create_vertex_array(attrs, &indices)?;
    proof {
        assert(batch.verts@ =~= expanded(*attrs, indices@));
    }
    let key = primitive_material_key(material);
    model.merge_mesh(key, batch);
    Ok(())
}

/// Adds a declared material to the catalog under its name ("untitled" where it
/// has none), with its factors and, if its base-color texture was uploaded,
/// that texture's slot as albedo.
pub fn add_material(
    model: &mut Model,
    name: Option<&str>,
    roughness: u32,
    metalness: u32,
    emissive: Float3,
    albedo: Option<usize>,
)
    requires
        old(model).wf(),
        albedo matches Some(slot) ==> slot <= i32::MAX,
    ensures
        final(model).wf(),
        final(model).meshes@ == old(model).meshes@,
        material_of(final(model).materials@, named_or(name, "untitled"@)) matches Some(m) && m.tex_alb == (
        match albedo {
            Some(slot) => slot as i32,
            None => crate::material::UNSET_TEXTURE,
        }) && m.scl_rgh == roughness && m.scl_mtl == metalness && m.scl_emm == emissive
            && m.tex_nrm == crate::material::UNSET_TEXTURE && m.tex_mtl_rgh == crate::material::UNSET_TEXTURE
            && m.tex_emm == crate::material::UNSET_TEXTURE,
        forall|k: Seq<char>|
            k != named_or(name, "untitled"@) ==> material_of(final(model).materials@, k) == material_of(
                old(model).materials@,
                k,
            ),
{
    let material = Material::from_factors(roughness, metalness, emissive, albedo);
    let key = material_key(name);
    model.insert_material(key, material);
}

} // verus!
