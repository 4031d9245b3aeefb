use rust_render_metal::accessor::{convert_accessor_buffer, narrow_indices, Component, ComponentType};
use rust_render_metal::error::FormatError;
use rust_render_metal::importer::{add_material, add_primitive};
use rust_render_metal::material::{material_key, primitive_material_key, Material, UNSET_TEXTURE};
use rust_render_metal::model::Model;
use rust_render_metal::scene::{traverse_nodes, NodeVisit, SceneNode};
use rust_render_metal::vertex::{
    clamp_unit, create_vertex_array, Float2, Float3, Float4, Mesh, PrimitiveAttributes, Vertex,
};

const ALL_TYPES: [(ComponentType, usize); 6] = [
    (ComponentType::I8, 1),
    (ComponentType::U8, 1),
    (ComponentType::I16, 2),
    (ComponentType::U16, 2),
    (ComponentType::U32, 4),
    (ComponentType::F32, 4),
];

fn f3(x: f32, y: f32, z: f32) -> Float3 {
    Float3 { x: x.to_bits(), y: y.to_bits(), z: z.to_bits() }
}

fn f4(x: f32, y: f32, z: f32, w: f32) -> Float4 {
    Float4 { x: x.to_bits(), y: y.to_bits(), z: z.to_bits(), w: w.to_bits() }
}

fn f2(x: f32, y: f32) -> Float2 {
    Float2 { x: x.to_bits(), y: y.to_bits() }
}

fn empty_attrs() -> PrimitiveAttributes {
    PrimitiveAttributes {
        positions: Vec::new(),
        normals: Vec::new(),
        tangents: Vec::new(),
        colors: Vec::new(),
        uv0: Vec::new(),
        uv1: Vec::new(),
    }
}

fn triangle_attrs() -> PrimitiveAttributes {
    let mut a = empty_attrs();
    a.positions = vec![f3(0.0, 0.0, 0.0), f3(1.0, 0.0, 0.0), f3(0.0, 1.0, 0.0)];
    a
}

#[test]
fn converter_returns_count_scalars_for_every_type() {
    for (ty, size) in ALL_TYPES {
        let bytes = vec![0x01u8; 5 * size];
        let v = convert_accessor_buffer(&bytes, ty, 5).unwrap();
        assert_eq!(v.len(), 5);
    }
}

#[test]
fn converter_zero_bytes_give_zero_values() {
    for (ty, size) in ALL_TYPES {
        let bytes = vec![0u8; 7 * size];
        let v = convert_accessor_buffer(&bytes, ty, 7).unwrap();
        assert_eq!(v.len(), 7);
        for c in v {
            match c {
                Component::Int(x) => assert_eq!(x, 0),
                Component::FloatBits(b) => assert_eq!(f32::from_bits(b), 0.0),
            }
        }
    }
}

#[test]
fn converter_reads_little_endian_values() {
    let v = convert_accessor_buffer(&[0xFF, 0x7F, 0x80], ComponentType::I8, 3).unwrap();
    assert_eq!(v, vec![Component::Int(-1), Component::Int(127), Component::Int(-128)]);
    let v = convert_accessor_buffer(&[0x34, 0x12, 0xFF, 0xFF], ComponentType::U16, 2).unwrap();
    assert_eq!(v, vec![Component::Int(0x1234), Component::Int(65535)]);
    let v = convert_accessor_buffer(&[0xFE, 0xFF], ComponentType::I16, 1).unwrap();
    assert_eq!(v, vec![Component::Int(-2)]);
    let v = convert_accessor_buffer(&[0x78, 0x56, 0x34, 0x12], ComponentType::U32, 1).unwrap();
    assert_eq!(v, vec![Component::Int(0x1234_5678)]);
    let bytes = 1.5f32.to_le_bytes();
    let v = convert_accessor_buffer(&bytes, ComponentType::F32, 1).unwrap();
    assert_eq!(v, vec![Component::FloatBits(1.5f32.to_bits())]);
}

#[test]
fn converter_rejects_span_of_wrong_length() {
    let r = convert_accessor_buffer(&[0u8; 7], ComponentType::U16, 4);
    assert_eq!(r, Err(FormatError::AccessorLengthMismatch));
    let r = convert_accessor_buffer(&[0u8; 8], ComponentType::U16, 3);
    assert_eq!(r, Err(FormatError::AccessorLengthMismatch));
    let r = convert_accessor_buffer(&[], ComponentType::U32, 0).unwrap();
    assert!(r.is_empty());
}

#[test]
fn indices_past_sixteen_bits_wrap() {
    let v = vec![Component::Int(3), Component::Int(70000), Component::Int(65536), Component::Int(-1)];
    assert_eq!(narrow_indices(&v).unwrap(), vec![3u16, 4464, 0, 65535]);
}

#[test]
fn float_indices_are_refused() {
    let v = vec![Component::Int(1), Component::FloatBits(0)];
    assert_eq!(narrow_indices(&v), Err(FormatError::FloatIndices));
}

#[test]
fn full_attributes_identity_round_trip() {
    let attrs = PrimitiveAttributes {
        positions: vec![f3(1.0, 2.0, 3.0), f3(-4.0, 5.5, 6.25)],
        normals: vec![f3(0.0, 1.0, 0.0), f3(1.0, 0.0, 0.0)],
        tangents: vec![f4(1.0, 0.0, 0.0, -1.0), f4(0.0, 0.0, 1.0, 1.0)],
        colors: vec![f4(0.25, 0.5, 0.75, 0.5), f4(1.0, 1.0, 1.0, 1.0)],
        uv0: vec![f2(0.1, 0.2), f2(0.3, 0.4)],
        uv1: vec![f2(0.5, 0.6), f2(0.7, 0.8)],
    };
    let mesh = create_vertex_array(&attrs, &vec![1, 0, 1]).unwrap();
    assert_eq!(mesh.verts.len(), 3);
    assert!(mesh.buffer.is_none());
    for (v, i) in mesh.verts.iter().zip([1usize, 0, 1]) {
        assert_eq!(v.position, attrs.positions[i]);
        assert_eq!(v.normal, attrs.normals[i]);
        assert_eq!(v.tangent, attrs.tangents[i]);
        assert_eq!(v.color, attrs.colors[i]);
        assert_eq!(v.uv0, attrs.uv0[i]);
        assert_eq!(v.uv1, attrs.uv1[i]);
    }
}

#[test]
fn absent_attributes_take_defaults() {
    let mesh = create_vertex_array(&triangle_attrs(), &vec![2]).unwrap();
    let v = mesh.verts[0];
    assert_eq!(v.position, f3(0.0, 1.0, 0.0));
    assert_eq!(v.normal, f3(0.0, 0.0, 0.0));
    assert_eq!(v.tangent, f4(0.0, 0.0, 0.0, 0.0));
    assert_eq!(v.color, f4(1.0, 1.0, 1.0, 1.0));
    assert_eq!(v.uv0, f2(0.0, 0.0));
    assert_eq!(v.uv1, f2(0.0, 0.0));
}

#[test]
fn empty_index_stream_gives_empty_batch() {
    let mesh = create_vertex_array(&triangle_attrs(), &Vec::new()).unwrap();
    assert!(mesh.verts.is_empty());
}

#[test]
fn index_past_attribute_is_refused() {
    let r = create_vertex_array(&triangle_attrs(), &vec![0, 3]);
    assert!(matches!(r, Err(FormatError::IndexOutOfRange)));
}

#[test]
fn gamma_decoded_color_is_clamped() {
    let decoded = 0.5f32.powf(1.0 / 2.2);
    assert!((decoded - 0.7297).abs() < 1e-4);
    assert_eq!(clamp_unit(decoded.to_bits()), decoded.to_bits());
    assert_eq!(clamp_unit(1.0f32.to_bits()), 1.0f32.to_bits());
    assert_eq!(clamp_unit(1.5f32.to_bits()), 1.0f32.to_bits());
    assert_eq!(clamp_unit(f32::INFINITY.to_bits()), 1.0f32.to_bits());
    assert_eq!(clamp_unit((-3.0f32).to_bits()), (-3.0f32).to_bits());

    let mut attrs = triangle_attrs();
    attrs.colors = vec![f4(decoded, 2.0, 1.0, 0.25); 3];
    let mesh = create_vertex_array(&attrs, &vec![0]).unwrap();
    assert_eq!(mesh.verts[0].color, f4(decoded, 1.0, 1.0, 0.25));
}

#[test]
fn material_keys_fall_back() {
    assert_eq!(material_key(Some("Steel")), "Steel".to_string());
    assert_eq!(material_key(None), "untitled".to_string());
    assert_eq!(primitive_material_key(Some("M")), "M".to_string());
    assert_eq!(primitive_material_key(None), "None".to_string());
}

#[test]
fn new_material_is_unset() {
    let m = Material::new();
    assert_eq!(m.tex_alb, UNSET_TEXTURE);
    assert_eq!(m.tex_nrm, -1);
    assert_eq!(m.tex_mtl_rgh, -1);
    assert_eq!(m.tex_emm, -1);
    assert_eq!(m.scl_rgh, 0);
    assert_eq!(m.scl_mtl, 0);
}

fn vertex_run(n: usize) -> Mesh {
    let v = Vertex {
        position: f3(0.0, 0.0, 0.0),
        normal: f3(0.0, 0.0, 0.0),
        tangent: f4(0.0, 0.0, 0.0, 0.0),
        color: f4(1.0, 1.0, 1.0, 1.0),
        uv0: f2(0.0, 0.0),
        uv1: f2(0.0, 0.0),
    };
    Mesh { verts: vec![v; n], buffer: None }
}

#[test]
fn merge_appends_under_shared_key() {
    let mut model = Model::new();
    model.merge_mesh("M".to_string(), vertex_run(3));
    model.merge_mesh("Other".to_string(), vertex_run(2));
    model.merge_mesh("M".to_string(), vertex_run(6));
    assert_eq!(model.meshes.len(), 2);
    assert_eq!(model.meshes[0].key, "M");
    assert_eq!(model.meshes[0].mesh.verts.len(), 9);
    assert_eq!(model.meshes[1].mesh.verts.len(), 2);
    assert!(model.check_wf());
}

#[test]
fn insert_material_replaces_same_key() {
    let mut model = Model::new();
    add_material(&mut model, Some("A"), 1, 2, f3(0.0, 0.0, 0.0), None);
    add_material(&mut model, None, 3, 4, f3(1.0, 0.0, 0.0), Some(5));
    add_material(&mut model, Some("A"), 7, 8, f3(0.0, 0.0, 0.0), Some(2));
    assert_eq!(model.materials.len(), 2);
    let a = model.material(&"A".to_string()).unwrap();
    assert_eq!((a.scl_rgh, a.scl_mtl, a.tex_alb), (7, 8, 2));
    let u = model.material(&"untitled".to_string()).unwrap();
    assert_eq!((u.scl_rgh, u.scl_mtl, u.tex_alb, u.tex_nrm), (3, 4, 5, UNSET_TEXTURE));
    assert!(model.material(&"B".to_string()).is_none());
}

#[test]
fn traversal_is_depth_first_in_declaration_order() {
    // 0 -> [1, 2], 1 -> [3], roots [0, 4]
    let nodes = vec![
        SceneNode { mesh: None, children: vec![1, 2] },
        SceneNode { mesh: Some(0), children: vec![3] },
        SceneNode { mesh: Some(1), children: Vec::new() },
        SceneNode { mesh: None, children: Vec::new() },
        SceneNode { mesh: Some(0), children: Vec::new() },
    ];
    let visits = traverse_nodes(&nodes, &vec![0, 4]).unwrap();
    assert_eq!(
        visits,
        vec![
            NodeVisit { node: 0, parent: None },
            NodeVisit { node: 1, parent: Some(0) },
            NodeVisit { node: 3, parent: Some(1) },
            NodeVisit { node: 2, parent: Some(0) },
            NodeVisit { node: 4, parent: None },
        ]
    );
}

#[test]
fn traversal_without_roots_is_empty() {
    let nodes = vec![SceneNode { mesh: Some(0), children: Vec::new() }];
    assert!(traverse_nodes(&nodes, &Vec::new()).unwrap().is_empty());
}

#[test]
fn traversal_refuses_cycles_and_missing_nodes() {
    let cyclic = vec![
        SceneNode { mesh: None, children: vec![1] },
        SceneNode { mesh: None, children: vec![0] },
    ];
    assert_eq!(traverse_nodes(&cyclic, &vec![0]), Err(FormatError::InvalidHierarchy));
    let dangling = vec![SceneNode { mesh: None, children: vec![5] }];
    assert_eq!(traverse_nodes(&dangling, &vec![0]), Err(FormatError::InvalidHierarchy));
}

#[test]
fn shared_material_under_two_nodes_gives_one_batch() {
    let mut model = Model::new();
    // first primitive, under one node: u16 indices 0,1,2
    let idx_a: Vec<u8> = [0u16, 1, 2].iter().flat_map(|i| i.to_le_bytes()).collect();
    add_primitive(&mut model, Some("M"), &triangle_attrs(), &idx_a, ComponentType::U16, 3).unwrap();
    // second primitive, under another node: u8 indices 2,1,0,0,1,2
    let idx_b = vec![2u8, 1, 0, 0, 1, 2];
    add_primitive(&mut model, Some("M"), &triangle_attrs(), &idx_b, ComponentType::U8, 6).unwrap();
    assert_eq!(model.meshes.len(), 1);
    assert_eq!(model.meshes[0].key, "M");
    assert_eq!(model.meshes[0].mesh.verts.len(), 9);
    assert_eq!(model.meshes[0].mesh.verts[3].position, f3(0.0, 1.0, 0.0));
}

#[test]
fn primitive_without_material_goes_under_none() {
    let mut model = Model::new();
    add_primitive(&mut model, None, &triangle_attrs(), &[0, 1, 2], ComponentType::U8, 3).unwrap();
    assert_eq!(model.meshes[0].key, "None");
}

#[test]
fn primitive_errors_leave_model_unchanged() {
    let mut model = Model::new();
    let attrs = triangle_attrs();
    assert_eq!(
        add_primitive(&mut model, None, &attrs, &[0, 1], ComponentType::U8, 3),
        Err(FormatError::AccessorLengthMismatch)
    );
    assert_eq!(
        add_primitive(&mut model, None, &attrs, &[0, 0, 0, 0], ComponentType::F32, 1),
        Err(FormatError::FloatIndices)
    );
    assert_eq!(
        add_primitive(&mut model, None, &attrs, &[0, 9, 2], ComponentType::U8, 3),
        Err(FormatError::IndexOutOfRange)
    );
    assert!(model.meshes.is_empty());
}
