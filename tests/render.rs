use rust_render_metal::error::{FormatError, RenderError};
use rust_render_metal::frame::{FramePhase, ModelQueueEntry, Renderer, Transform};
use rust_render_metal::importer::{add_material, add_primitive};
use rust_render_metal::layout::{vertex_bytes, ConstBuffer, Matrix4, CONST_BUFFER_SIZE, VERTEX_STRIDE};
use rust_render_metal::model::Model;
use rust_render_metal::texture::{ImageData, PixelFormat, Texture};
use rust_render_metal::vertex::{Float2, Float3, Float4, Mesh, PrimitiveAttributes, Vertex};
use rust_render_metal::accessor::ComponentType;

fn f3(x: f32, y: f32, z: f32) -> Float3 {
    Float3 { x: x.to_bits(), y: y.to_bits(), z: z.to_bits() }
}

fn identity_transform() -> Transform {
    Transform {
        translation: f3(0.0, 0.0, 0.0),
        rotation: Float4 { x: 0, y: 0, z: 0, w: 1.0f32.to_bits() },
        scale: f3(1.0, 1.0, 1.0),
    }
}

fn triangle_model(key: Option<&str>) -> Model {
    let attrs = PrimitiveAttributes {
        positions: vec![f3(0.0, 0.0, 0.0), f3(1.0, 0.0, 0.0), f3(0.0, 1.0, 0.0)],
        normals: Vec::new(),
        tangents: Vec::new(),
        colors: Vec::new(),
        uv0: Vec::new(),
        uv1: Vec::new(),
    };
    let mut model = Model::new();
    add_primitive(&mut model, key, &attrs, &[0, 1, 2], ComponentType::U8, 3).unwrap();
    model
}

fn renderer_with_triangle() -> (Renderer, usize) {
    let mut r = Renderer::new(1280, 720).unwrap();
    let (id, uploads) = r.load_model(triangle_model(Some("M"))).unwrap();
    assert_eq!(uploads.len(), 1);
    assert_eq!(uploads[0].len(), 3 * VERTEX_STRIDE);
    (r, id)
}

#[test]
fn one_entry_frame_issues_one_draw() {
    let (mut r, id) = renderer_with_triangle();
    r.begin_frame();
    r.draw_model(ModelQueueEntry { model_id: id, transform: identity_transform() }).unwrap();
    let draws = r.end_frame(true).unwrap();
    assert_eq!(draws.len(), 1);
    assert_eq!(draws[0].vertex_count, 3);
    assert_eq!(draws[0].vertex_buffer, 0);
    assert_eq!(draws[0].texture, r.tex_white);
    assert_eq!(r.transform_buffers, 1);
    assert_eq!(r.phase, FramePhase::Idle);
}

#[test]
fn frame_without_surface_is_dropped() {
    let (mut r, id) = renderer_with_triangle();
    r.begin_frame();
    r.draw_model(ModelQueueEntry { model_id: id, transform: identity_transform() }).unwrap();
    let draws = r.end_frame(false).unwrap();
    assert!(draws.is_empty());
    assert_eq!(r.transform_buffers, 0);
    assert_eq!(r.phase, FramePhase::Idle);
}

#[test]
fn draws_follow_queue_order() {
    let mut r = Renderer::new(64, 64).unwrap();
    let (a, _) = r.load_model(triangle_model(Some("A"))).unwrap();
    let (b, _) = r.load_model(triangle_model(None)).unwrap();
    r.begin_frame();
    for id in [b, a, b] {
        r.draw_model(ModelQueueEntry { model_id: id, transform: identity_transform() }).unwrap();
    }
    let draws = r.end_frame(true).unwrap();
    let order: Vec<usize> = draws.iter().map(|d| d.model_id).collect();
    assert_eq!(order, vec![b, a, b]);
    assert_eq!(draws[0].vertex_buffer, 1);
    assert_eq!(draws[1].vertex_buffer, 0);
}

#[test]
fn begin_frame_clears_previous_queue() {
    let (mut r, id) = renderer_with_triangle();
    r.begin_frame();
    r.draw_model(ModelQueueEntry { model_id: id, transform: identity_transform() }).unwrap();
    r.end_frame(true).unwrap();
    r.begin_frame();
    assert!(r.model_queue.is_empty());
    assert_eq!(r.transform_buffers, 0);
    assert!(r.end_frame(true).unwrap().is_empty());
}

#[test]
fn draws_outside_a_frame_are_refused() {
    let (mut r, id) = renderer_with_triangle();
    let e = ModelQueueEntry { model_id: id, transform: identity_transform() };
    assert_eq!(r.draw_model(e), Err(RenderError::NotBuilding));
    assert_eq!(r.end_frame(true), Err(RenderError::NotBuilding));
    r.begin_frame();
    let unknown = ModelQueueEntry { model_id: 9, transform: identity_transform() };
    assert_eq!(r.draw_model(unknown), Err(RenderError::UnknownModel));
    assert!(r.model_queue.is_empty());
}

#[test]
fn albedo_texture_is_bound_when_material_has_one() {
    let mut r = Renderer::new(8, 8).unwrap();
    let image = ImageData { format: PixelFormat::R8G8B8A8, width: 1, height: 1, pixels: vec![1, 2, 3, 4] };
    let mut tex = Texture::load_texture_from_gltf_image(&image).unwrap();
    let slot = r.upload_texture(&mut tex).unwrap();
    assert_eq!(slot, 1);
    assert_eq!(tex.gl_id, 1);
    let mut model = triangle_model(Some("M"));
    add_material(&mut model, Some("M"), 0, 0, f3(0.0, 0.0, 0.0), Some(slot));
    let (id, _) = r.load_model(model).unwrap();
    r.begin_frame();
    r.draw_model(ModelQueueEntry { model_id: id, transform: identity_transform() }).unwrap();
    assert_eq!(r.end_frame(true).unwrap()[0].texture, slot);
}

#[test]
fn material_without_albedo_falls_back_to_white() {
    let mut r = Renderer::new(8, 8).unwrap();
    let mut model = triangle_model(Some("M"));
    add_material(&mut model, Some("M"), 0, 0, f3(0.0, 0.0, 0.0), None);
    let (id, _) = r.load_model(model).unwrap();
    r.begin_frame();
    r.draw_model(ModelQueueEntry { model_id: id, transform: identity_transform() }).unwrap();
    assert_eq!(r.end_frame(true).unwrap()[0].texture, r.tex_white);
}

#[test]
fn resize_to_zero_fails_explicitly() {
    let mut r = Renderer::new(800, 600).unwrap();
    assert_eq!(r.resize_framebuffer(0, 0), Err(RenderError::ZeroSizedFramebuffer));
    assert_eq!(r.resize_framebuffer(0, 10), Err(RenderError::ZeroSizedFramebuffer));
    assert_eq!((r.width, r.height), (800, 600));
    assert_eq!(r.resize_framebuffer(1024, 768), Ok(()));
    assert_eq!((r.width, r.height), (1024, 768));
    assert!(Renderer::new(0, 0).is_err());
}

#[test]
fn vertex_buffer_is_bound_once() {
    let mut r = Renderer::new(8, 8).unwrap();
    let mut mesh = triangle_model(None).meshes.remove(0).mesh;
    let bytes = r.upload_vertex_buffer(&mut mesh).unwrap().unwrap();
    assert_eq!(bytes.len(), 3 * VERTEX_STRIDE);
    assert_eq!(mesh.buffer, Some(0));
    assert_eq!(r.upload_vertex_buffer(&mut mesh), Ok(None));
    assert_eq!(r.buffer_count, 1);
}

#[test]
fn bound_or_duplicate_models_are_refused() {
    let mut r = Renderer::new(8, 8).unwrap();
    let mut bound = triangle_model(None);
    bound.meshes[0].mesh.buffer = Some(0);
    assert!(matches!(r.load_model(bound), Err(RenderError::InvalidModel)));
    let mut dup = triangle_model(Some("A"));
    let extra = triangle_model(Some("A")).meshes.remove(0);
    dup.meshes.push(extra);
    assert!(matches!(r.load_model(dup), Err(RenderError::InvalidModel)));
    assert!(r.loaded_models.is_empty());
}

#[test]
fn all_red_rgb_image_unswizzles_to_opaque_red() {
    let image = ImageData { format: PixelFormat::R8G8B8, width: 2, height: 2, pixels: [255u8, 0, 0].repeat(4) };
    let t = Texture::load_texture_from_gltf_image(&image).unwrap();
    assert_eq!((t.width, t.height, t.depth), (2, 2, 4));
    assert_eq!(t.data, vec![0xFF00_00FFu32; 4]);
    for p in &t.data {
        assert_eq!(p.to_le_bytes(), [255, 0, 0, 255]);
    }
}

#[test]
fn single_channel_fills_red_only() {
    let image = ImageData { format: PixelFormat::R8, width: 2, height: 1, pixels: vec![0x12, 0x34] };
    let t = Texture::load_texture_from_gltf_image(&image).unwrap();
    assert_eq!(t.data, vec![0xFFFF_FF12, 0xFFFF_FF34]);
}

#[test]
fn sixteen_bit_channels_keep_low_byte() {
    let image = ImageData {
        format: PixelFormat::R16G16,
        width: 1,
        height: 1,
        pixels: [0x1234u16, 0xABCD].iter().flat_map(|c| c.to_le_bytes()).collect(),
    };
    let t = Texture::load_texture_from_gltf_image(&image).unwrap();
    assert_eq!(t.data, vec![0xFFFF_CD34]);
}

#[test]
fn float_images_and_short_pixel_data_are_refused() {
    let image = ImageData { format: PixelFormat::R32G32B32, width: 1, height: 1, pixels: vec![0; 12] };
    assert!(matches!(Texture::load_texture_from_gltf_image(&image), Err(FormatError::UnsupportedPixelFormat)));
    let image = ImageData { format: PixelFormat::R8G8B8A8, width: 2, height: 2, pixels: vec![0; 15] };
    assert!(matches!(Texture::load_texture_from_gltf_image(&image), Err(FormatError::PixelCountMismatch)));
}

#[test]
fn eight_bit_images_load_by_channel_count() {
    let t = Texture::load(1, 1, 3, &vec![1, 2, 3]).unwrap();
    assert_eq!(t.data, vec![0xFF03_0201]);
    assert_eq!(t.depth, 3);
    let t = Texture::load(1, 1, 4, &vec![1, 2, 3, 4]).unwrap();
    assert_eq!(t.data, vec![0x0403_0201]);
    assert!(matches!(Texture::load(1, 1, 2, &vec![1, 2]), Err(FormatError::UnsupportedPixelFormat)));
    assert!(matches!(Texture::load(2, 1, 3, &vec![1, 2, 3]), Err(FormatError::PixelCountMismatch)));
    assert_eq!(Texture::white().data, vec![0xFFFF_FFFF]);
}

#[test]
fn vertex_bytes_are_little_endian_words() {
    let v = Vertex {
        position: Float3 { x: 0x0403_0201, y: 0, z: 0 },
        normal: Float3 { x: 0, y: 0, z: 0 },
        tangent: Float4 { x: 0, y: 0, z: 0, w: 0 },
        color: Float4 { x: 0, y: 0, z: 0, w: 0 },
        uv0: Float2 { x: 0, y: 0 },
        uv1: Float2 { x: 0, y: 0xAABB_CCDD },
    };
    let b = vertex_bytes(&vec![v, v]);
    assert_eq!(b.len(), 2 * VERTEX_STRIDE);
    assert_eq!(&b[0..4], &[1, 2, 3, 4]);
    assert_eq!(&b[68..72], &[0xDD, 0xCC, 0xBB, 0xAA]);
    assert_eq!(&b[72..76], &[1, 2, 3, 4]);
    let mesh = Mesh { verts: Vec::new(), buffer: None };
    assert!(vertex_bytes(&mesh.verts).is_empty());
}

#[test]
fn const_buffer_holds_three_matrices() {
    let mut m = [0u32; 16];
    for (i, w) in m.iter_mut().enumerate() {
        *w = i as u32;
    }
    let model = Matrix4 { m };
    let t = model.transpose();
    assert_eq!(t.m[1], 4);
    assert_eq!(t.m[4], 1);
    assert_eq!(t.m[15], 15);
    let cb = ConstBuffer { model_matrix: t, view_matrix: model, proj_matrix: model };
    let b = cb.to_bytes();
    assert_eq!(b.len(), CONST_BUFFER_SIZE);
    assert_eq!(&b[4..8], &[4, 0, 0, 0]);
    assert_eq!(&b[68..72], &[1, 0, 0, 0]);
}
