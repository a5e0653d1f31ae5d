use render_core::graphics::batch::{Batch, BatchError};
use render_core::graphics::material::Material;
use render_core::graphics::pass::{BufferCopy, BufferKind};
use render_core::graphics::render_target::{
    Attachment, Color, LoadOp, Projection, RenderTarget, StoreOp, SwapchainImage,
};
use render_core::graphics::subtexture::{Subtexture, UvRect};
use render_core::graphics::texture::{Texture, TextureFormat, TextureIds};
use render_core::graphics::{identity, Mat4, Vertex, MAX_INDICES, MAX_VERTICES, ONE, ZERO};
use render_core::rect::Rect;

fn bits(values: [f32; 3]) -> [u32; 3] {
    [values[0].to_bits(), values[1].to_bits(), values[2].to_bits()]
}

fn to_glm(matrix: Mat4) -> nalgebra_glm::Mat4 {
    let mut cells = [0.0f32; 16];
    for i in 0..16 {
        cells[i] = f32::from_bits(matrix.cells[i]);
    }
    nalgebra_glm::make_mat4(&cells)
}

fn from_glm(matrix: &nalgebra_glm::Mat4) -> Mat4 {
    let mut cells = [0u32; 16];
    for (i, value) in matrix.as_slice().iter().enumerate() {
        cells[i] = value.to_bits();
    }
    Mat4 { cells }
}

fn compose(current: Mat4, matrix: Mat4) -> Mat4 {
    from_glm(&(to_glm(current) * to_glm(matrix)))
}

fn project(matrix: Mat4, position: [u32; 3]) -> [u32; 3] {
    let point = nalgebra_glm::vec4(
        f32::from_bits(position[0]),
        f32::from_bits(position[1]),
        f32::from_bits(position[2]),
        1.0,
    );
    let projected = to_glm(matrix) * point;
    [projected.x.to_bits(), projected.y.to_bits(), projected.z.to_bits()]
}

fn keep(_matrix: Mat4, position: [u32; 3]) -> [u32; 3] {
    position
}

fn default_material() -> Material {
    Material::new(1, TextureFormat::B8g8r8a8Unorm)
}

fn red_material() -> Material {
    Material::new(2, TextureFormat::R8g8b8a8Unorm)
}

fn textures() -> (Texture, Texture) {
    let mut ids = TextureIds::new();
    let a = Texture::new(&mut ids, 16, 8, TextureFormat::R8g8b8a8Unorm).unwrap();
    let b = Texture::new(&mut ids, 32, 32, TextureFormat::R8g8b8a8Unorm).unwrap();
    (a, b)
}

fn corners(x: f32, y: f32, w: f32, h: f32) -> [[u32; 3]; 4] {
    [bits([x, y, 0.0]), bits([x + w, y, 0.0]), bits([x, y + h, 0.0]), bits([x + w, y + h, 0.0])]
}

fn rect(batch: &mut Batch, position: [f32; 3], size: [f32; 2], color: [u8; 4]) -> Result<(), BatchError> {
    batch.rect(
        [
            bits(position),
            bits([position[0] + size[0], position[1], position[2]]),
            bits([position[0], position[1] + size[1], position[2]]),
            bits([position[0] + size[0], position[1] + size[1], position[2]]),
        ],
        color,
        &project,
    )
}

fn screen(width: u32, height: u32) -> RenderTarget {
    let mut target = RenderTarget::empty();
    target.set_texture(SwapchainImage { width, height });
    target
}

#[test]
fn one_is_the_bit_pattern_of_one() {
    assert_eq!(ONE, 1.0f32.to_bits());
    assert_eq!(ZERO, 0.0f32.to_bits());
    assert_eq!(to_glm(identity()), nalgebra_glm::identity::<f32, 4>());
}

#[test]
fn new_batch_is_empty() {
    let batch = Batch::new(default_material());
    assert_eq!(batch.get_batch_count(), 0);
    assert_eq!(batch.vertices().len(), 0);
    assert_eq!(batch.indices().len(), 0);
    assert_eq!(batch.batches().len(), 0);
    assert_eq!(batch.matrix_depth(), 0);
    assert_eq!(batch.material_depth(), 0);
}

#[test]
fn peek_matrix_is_identity_on_empty_stack() {
    let mut batch = Batch::new(default_material());
    assert_eq!(batch.peek_matrix(), identity());
    batch.pop_matrix();
    assert_eq!(batch.matrix_depth(), 0);
    assert_eq!(batch.peek_matrix(), identity());
}

#[test]
fn matched_pushes_and_pops_restore_the_depth() {
    let mut batch = Batch::new(default_material());
    let translate = from_glm(&nalgebra_glm::translation(&nalgebra_glm::vec3(5.0, 7.0, 0.0)));
    let scale = from_glm(&nalgebra_glm::scaling(&nalgebra_glm::vec3(2.0, 3.0, 1.0)));
    batch.push_matrix(translate, compose);
    let depth = batch.matrix_depth();
    let top = batch.peek_matrix();
    batch.push_matrix(scale, compose);
    batch.push_matrix(translate, compose);
    batch.pop_matrix();
    batch.push_matrix(scale, compose);
    batch.pop_matrix();
    batch.pop_matrix();
    assert_eq!(batch.matrix_depth(), depth);
    assert_eq!(batch.peek_matrix(), top);
    batch.pop_matrix();
    assert_eq!(batch.matrix_depth(), 0);
    assert_eq!(batch.peek_matrix(), identity());
}

#[test]
fn first_push_uses_the_matrix_as_it_is() {
    let mut batch = Batch::new(default_material());
    let scale = from_glm(&nalgebra_glm::scaling(&nalgebra_glm::vec3(2.0, 3.0, 1.0)));
    // A compose that would change the matrix shows that it is not called.
    batch.push_matrix(scale, |_current: Mat4, _matrix: Mat4| identity());
    assert_eq!(batch.peek_matrix(), scale);
}

#[test]
fn push_composes_current_times_matrix() {
    let mut batch = Batch::new(default_material());
    let translate = nalgebra_glm::translation(&nalgebra_glm::vec3(5.0, 7.0, 0.0));
    let scale = nalgebra_glm::scaling(&nalgebra_glm::vec3(2.0, 3.0, 1.0));
    batch.push_matrix(from_glm(&translate), compose);
    batch.push_matrix(from_glm(&scale), compose);
    assert_eq!(batch.peek_matrix(), from_glm(&(translate * scale)));
    assert!(batch.peek_matrix() != from_glm(&(scale * translate)));
    // The point (1, 1) is scaled to (2, 3) and then moved to (7, 10).
    batch.triangle(bits([1.0, 1.0, 0.0]), bits([0.0, 0.0, 0.0]), bits([0.0, 1.0, 0.0]), [9, 9, 9, 9], &project).unwrap();
    assert_eq!(batch.vertices()[0].position, bits([7.0, 10.0, 0.0]));
    assert_eq!(batch.vertices()[1].position, bits([5.0, 7.0, 0.0]));
    assert_eq!(batch.vertices()[2].position, bits([5.0, 10.0, 0.0]));
    batch.pop_matrix();
    batch.pop_matrix();
    batch.triangle(bits([1.0, 1.0, 0.0]), bits([0.0, 0.0, 0.0]), bits([0.0, 1.0, 0.0]), [9, 9, 9, 9], &project).unwrap();
    assert_eq!(batch.vertices()[3].position, bits([1.0, 1.0, 0.0]));
}

#[test]
fn triangle_stores_three_filled_vertices() {
    let mut batch = Batch::new(default_material());
    let result = batch.triangle(bits([0.0, 0.0, 0.0]), bits([4.0, 0.0, 0.0]), bits([0.0, 4.0, 0.0]), [1, 2, 3, 4], &project);
    assert_eq!(result, Ok(()));
    assert_eq!(batch.indices(), &vec![0, 1, 2]);
    assert_eq!(
        batch.vertices(),
        &vec![
            Vertex { position: bits([0.0, 0.0, 0.0]), color: [1, 2, 3, 4], texture_uv: [ZERO, ZERO], mult_wash_fill: [0, 0, 255, 0] },
            Vertex { position: bits([4.0, 0.0, 0.0]), color: [1, 2, 3, 4], texture_uv: [ZERO, ZERO], mult_wash_fill: [0, 0, 255, 0] },
            Vertex { position: bits([0.0, 4.0, 0.0]), color: [1, 2, 3, 4], texture_uv: [ZERO, ZERO], mult_wash_fill: [0, 0, 255, 0] },
        ]
    );
    assert_eq!(batch.batches().len(), 1);
    assert_eq!(batch.batches()[0].offset, 0);
    assert_eq!(batch.batches()[0].elements, 1);
    assert_eq!(batch.batches()[0].material, default_material());
    assert!(batch.batches()[0].texture.is_none());
}

#[test]
fn quad_stores_two_triangles() {
    let mut batch = Batch::new(default_material());
    batch.triangle(bits([0.0, 0.0, 0.0]), bits([4.0, 0.0, 0.0]), bits([0.0, 4.0, 0.0]), [1, 2, 3, 4], &keep).unwrap();
    let result = batch.quad(
        bits([0.0, 0.0, 0.0]),
        bits([1.0, 0.0, 0.0]),
        bits([0.0, 1.0, 0.0]),
        bits([1.0, 1.0, 0.0]),
        [5, 6, 7, 8],
        &keep,
    );
    assert_eq!(result, Ok(()));
    assert_eq!(batch.indices(), &vec![0, 1, 2, 3, 4, 5, 5, 4, 6]);
    assert_eq!(batch.vertices().len(), 7);
    assert_eq!(
        batch.vertices()[3..].to_vec(),
        vec![
            Vertex { position: bits([0.0, 0.0, 0.0]), color: [5, 6, 7, 8], texture_uv: [ZERO, ZERO], mult_wash_fill: [0, 0, 255, 0] },
            Vertex { position: bits([1.0, 0.0, 0.0]), color: [5, 6, 7, 8], texture_uv: [ONE, ZERO], mult_wash_fill: [0, 0, 255, 0] },
            Vertex { position: bits([0.0, 1.0, 0.0]), color: [5, 6, 7, 8], texture_uv: [ZERO, ONE], mult_wash_fill: [0, 0, 255, 0] },
            Vertex { position: bits([1.0, 1.0, 0.0]), color: [5, 6, 7, 8], texture_uv: [ONE, ONE], mult_wash_fill: [0, 0, 255, 0] },
        ]
    );
    assert_eq!(batch.get_batch_count(), 1);
    assert_eq!(batch.batches()[0].elements, 3);
}

#[test]
fn same_material_and_texture_give_one_run() {
    let (a, _) = textures();
    let mut batch = Batch::new(default_material());
    rect(&mut batch, [0.0, 0.0, 0.0], [8.0, 8.0], [255, 0, 0, 255]).unwrap();
    batch.texture(a, corners(0.0, 0.0, 16.0, 8.0), &project).unwrap();
    batch.triangle(bits([0.0, 0.0, 0.0]), bits([4.0, 0.0, 0.0]), bits([0.0, 4.0, 0.0]), [1, 2, 3, 4], &project).unwrap();
    batch.texture(a, corners(20.0, 0.0, 16.0, 8.0), &project).unwrap();
    batch.circle(bits([0.0, 0.0, 0.0]), 5, [1, 1, 1, 1], &|i: u32| bits([i as f32, 1.0, 0.0]), &project).unwrap();
    assert_eq!(batch.get_batch_count(), 1);
    assert_eq!(batch.batches().len(), 1);
    assert_eq!(batch.batches()[0].elements, 2 + 2 + 1 + 2 + 5);
    assert_eq!(batch.batches()[0].texture.unwrap().id, a.id);
}

#[test]
fn alternating_textures_give_one_run_per_draw() {
    let (a, b) = textures();
    let mut batch = Batch::new(default_material());
    for i in 0..7 {
        let texture = if i % 2 == 0 { a } else { b };
        batch.texture(texture, corners(i as f32, 0.0, 16.0, 8.0), &project).unwrap();
        assert_eq!(batch.get_batch_count(), i + 1);
    }
    assert_eq!(batch.batches().len(), 7);
    for i in 0..7 {
        let run = &batch.batches()[i];
        assert_eq!(run.offset, 2 * i as u32);
        assert_eq!(run.elements, 2);
        assert_eq!(run.texture.unwrap().id, if i % 2 == 0 { a.id } else { b.id });
    }
}

#[test]
fn texture_joins_a_run_that_has_none() {
    let (a, b) = textures();
    let mut batch = Batch::new(default_material());
    rect(&mut batch, [0.0, 0.0, 0.0], [8.0, 8.0], [255, 0, 0, 255]).unwrap();
    batch.texture(a, corners(0.0, 0.0, 16.0, 8.0), &project).unwrap();
    assert_eq!(batch.get_batch_count(), 1);
    batch.texture(b, corners(0.0, 0.0, 32.0, 32.0), &project).unwrap();
    assert_eq!(batch.get_batch_count(), 2);
    // Plain geometry joins the run that is bound to a texture.
    rect(&mut batch, [0.0, 0.0, 0.0], [8.0, 8.0], [255, 0, 0, 255]).unwrap();
    assert_eq!(batch.get_batch_count(), 2);
    assert_eq!(batch.batches()[0].elements, 4);
    assert_eq!(batch.batches()[1].offset, 4);
    assert_eq!(batch.batches()[1].elements, 4);
}

#[test]
fn material_switch_keeps_submission_order() {
    let mut batch = Batch::new(default_material());
    rect(&mut batch, [0.0, 0.0, 0.0], [8.0, 8.0], [1, 0, 0, 255]).unwrap();
    batch.push_material(&red_material());
    batch.triangle(bits([0.0, 0.0, 0.0]), bits([4.0, 0.0, 0.0]), bits([0.0, 4.0, 0.0]), [2, 0, 0, 255], &project).unwrap();
    let popped = batch.pop_material();
    rect(&mut batch, [9.0, 9.0, 0.0], [8.0, 8.0], [3, 0, 0, 255]).unwrap();
    assert_eq!(popped, default_material());
    assert_eq!(batch.material_depth(), 0);
    assert_eq!(batch.get_batch_count(), 3);
    let runs = batch.batches();
    assert_eq!(runs.len(), 3);
    assert_eq!((runs[0].offset, runs[0].elements, runs[0].material), (0, 2, default_material()));
    assert_eq!((runs[1].offset, runs[1].elements, runs[1].material), (2, 1, red_material()));
    assert_eq!((runs[2].offset, runs[2].elements, runs[2].material), (3, 2, default_material()));
    assert_eq!(batch.vertices()[0].color, [1, 0, 0, 255]);
    assert_eq!(batch.vertices()[4].color, [2, 0, 0, 255]);
    assert_eq!(batch.vertices()[7].color, [3, 0, 0, 255]);
    assert_eq!(batch.indices(), &vec![0, 1, 2, 2, 1, 3, 4, 5, 6, 7, 8, 9, 9, 8, 10]);
}

#[test]
fn material_on_an_empty_run_opens_no_run() {
    let mut batch = Batch::new(default_material());
    batch.push_material(&red_material());
    assert_eq!(batch.material_depth(), 1);
    assert_eq!(batch.get_batch_count(), 0);
    rect(&mut batch, [0.0, 0.0, 0.0], [8.0, 8.0], [1, 0, 0, 255]).unwrap();
    assert_eq!(batch.batches().len(), 1);
    assert_eq!(batch.batches()[0].material, red_material());
    // The same material again closes nothing.
    batch.push_material(&red_material());
    rect(&mut batch, [0.0, 0.0, 0.0], [8.0, 8.0], [1, 0, 0, 255]).unwrap();
    assert_eq!(batch.get_batch_count(), 1);
    assert_eq!(batch.pop_material(), red_material());
    assert_eq!(batch.pop_material(), default_material());
    assert_eq!(batch.get_batch_count(), 1);
    assert_eq!(batch.batches().len(), 2);
    assert_eq!(batch.batches()[1].material, default_material());
    assert_eq!(batch.batches()[1].elements, 0);
}

#[test]
fn circle_without_steps_adds_nothing() {
    let mut batch = Batch::new(default_material());
    let result = batch.circle(
        bits([3.0, 3.0, 0.0]),
        0,
        [255, 255, 255, 255],
        &|_step: u32| -> [u32; 3] { panic!("no rim point is needed") },
        &project,
    );
    assert_eq!(result, Ok(()));
    assert_eq!(batch.get_batch_count(), 0);
    assert_eq!(batch.vertices().len(), 0);
    assert_eq!(batch.indices().len(), 0);
    assert_eq!(batch.batches().len(), 0);
}

#[test]
fn circle_is_a_fan_of_steps_triangles() {
    let mut batch = Batch::new(default_material());
    let center = [10.0f32, 20.0];
    let radius = 2.0f32;
    let steps = 4u32;
    let rim = |i: u32| {
        let angle = std::f32::consts::TAU / steps as f32 * i as f32;
        bits([center[0] + angle.cos() * radius, center[1] + angle.sin() * radius, 0.0])
    };
    batch.circle(bits([center[0], center[1], 0.0]), steps, [1, 2, 3, 4], &rim, &project).unwrap();
    assert_eq!(batch.vertices().len(), 12);
    assert_eq!(batch.indices(), &vec![0, 1, 2, 3, 4, 5, 6, 7, 8, 9, 10, 11]);
    assert_eq!(batch.get_batch_count(), 1);
    assert_eq!(batch.batches()[0].elements, 4);
    for k in 0..4u32 {
        let base = 3 * k as usize;
        assert_eq!(batch.vertices()[base].position, rim(k));
        assert_eq!(batch.vertices()[base + 1].position, rim(k + 1));
        assert_eq!(batch.vertices()[base + 2].position, bits([10.0, 20.0, 0.0]));
        assert_eq!(batch.vertices()[base].mult_wash_fill, [0, 0, 255, 0]);
        assert_eq!(batch.vertices()[base].color, [1, 2, 3, 4]);
    }
    assert_eq!(batch.vertices()[0].position, bits([12.0, 20.0, 0.0]));
}

#[test]
fn rect_then_clear_leaves_nothing() {
    let mut batch = Batch::new(default_material());
    batch.push_matrix(identity(), compose);
    batch.push_material(&red_material());
    rect(&mut batch, [10.0, 20.0, 0.0], [30.0, 40.0], [255, 0, 0, 255]).unwrap();
    assert_eq!(batch.get_batch_count(), 1);
    assert_eq!(batch.vertices().len(), 4);
    assert_eq!(batch.indices().len(), 6);
    assert_eq!(batch.vertices()[0].position, bits([10.0, 20.0, 0.0]));
    assert_eq!(batch.vertices()[1].position, bits([40.0, 20.0, 0.0]));
    assert_eq!(batch.vertices()[2].position, bits([10.0, 60.0, 0.0]));
    assert_eq!(batch.vertices()[3].position, bits([40.0, 60.0, 0.0]));
    assert_eq!(batch.vertices()[3].color, [255, 0, 0, 255]);
    assert_eq!(batch.indices(), &vec![0, 1, 2, 2, 1, 3]);
    batch.clear();
    assert_eq!(batch.get_batch_count(), 0);
    assert_eq!(batch.batches().len(), 0);
    assert_eq!(batch.vertices().len(), 0);
    assert_eq!(batch.indices().len(), 0);
    assert_eq!(batch.matrix_depth(), 0);
    assert_eq!(batch.material_depth(), 0);
    // The default material is back.
    rect(&mut batch, [10.0, 20.0, 0.0], [30.0, 40.0], [255, 0, 0, 255]).unwrap();
    assert_eq!(batch.batches()[0].material, default_material());
}

#[test]
fn texture_quad_covers_the_whole_texture() {
    let (a, _) = textures();
    let mut batch = Batch::new(default_material());
    batch.texture(a, corners(1.0, 2.0, 16.0, 8.0), &project).unwrap();
    let vertices = batch.vertices();
    assert_eq!(vertices.len(), 4);
    assert_eq!(vertices[0].position, bits([1.0, 2.0, 0.0]));
    assert_eq!(vertices[1].position, bits([17.0, 2.0, 0.0]));
    assert_eq!(vertices[2].position, bits([1.0, 10.0, 0.0]));
    assert_eq!(vertices[3].position, bits([17.0, 10.0, 0.0]));
    assert_eq!(vertices[0].texture_uv, [ZERO, ZERO]);
    assert_eq!(vertices[1].texture_uv, [ONE, ZERO]);
    assert_eq!(vertices[2].texture_uv, [ZERO, ONE]);
    assert_eq!(vertices[3].texture_uv, [ONE, ONE]);
    for vertex in vertices.iter() {
        assert_eq!(vertex.mult_wash_fill, [255, 0, 0, 0]);
        assert_eq!(vertex.color, [255, 255, 255, 255]);
    }
    assert_eq!(batch.indices(), &vec![0, 1, 2, 2, 1, 3]);
}

#[test]
fn subtexture_quad_uses_the_region() {
    let (a, b) = textures();
    let normalize = |pixel: i64, side: u32| (pixel as f32 / side as f32).to_bits();
    let sub = Subtexture::new(a, Rect { x: 4, y: 2, w: 8, h: 4 }, &normalize);
    assert_eq!(
        sub.uvs,
        UvRect { left: 0.25f32.to_bits(), top: 0.25f32.to_bits(), right: 0.75f32.to_bits(), bottom: 0.75f32.to_bits() }
    );
    let mut batch = Batch::new(default_material());
    batch.texture(b, corners(0.0, 0.0, 32.0, 32.0), &project).unwrap();
    batch.subtexture(sub, corners(0.0, 0.0, 8.0, 4.0), &project).unwrap();
    assert_eq!(batch.get_batch_count(), 2);
    assert_eq!(batch.batches()[1].texture.unwrap().id, a.id);
    let vertices = batch.vertices();
    assert_eq!(vertices[4].texture_uv, [0.25f32.to_bits(), 0.25f32.to_bits()]);
    assert_eq!(vertices[5].texture_uv, [0.75f32.to_bits(), 0.25f32.to_bits()]);
    assert_eq!(vertices[6].texture_uv, [0.25f32.to_bits(), 0.75f32.to_bits()]);
    assert_eq!(vertices[7].texture_uv, [0.75f32.to_bits(), 0.75f32.to_bits()]);
    assert_eq!(vertices[7].position, bits([8.0, 4.0, 0.0]));
    assert_eq!(vertices[7].mult_wash_fill, [255, 0, 0, 0]);
}

#[test]
fn subtexture_flip_exchanges_sides() {
    let (a, _) = textures();
    let normalize = |pixel: i64, side: u32| (pixel as f32 / side as f32).to_bits();
    let mut sub = Subtexture::new(a, Rect { x: 0, y: 0, w: 4, h: 8 }, &normalize);
    let before = sub.uvs;
    sub.flip(true, false);
    assert_eq!(sub.uvs, UvRect { left: before.right, right: before.left, top: before.top, bottom: before.bottom });
    sub.flip(false, true);
    assert_eq!(sub.uvs, UvRect { left: before.right, right: before.left, top: before.bottom, bottom: before.top });
    sub.flip(true, true);
    assert_eq!(sub.uvs, before);
    sub.flip(false, false);
    assert_eq!(sub.uvs, before);
}

#[test]
fn full_batch_refuses_more_geometry() {
    let mut batch = Batch::new(default_material());
    // 16384 quads fill both lists exactly.
    for _ in 0..16384 {
        batch.quad(bits([0.0; 3]), bits([0.0; 3]), bits([0.0; 3]), bits([0.0; 3]), [0; 4], &keep).unwrap();
    }
    assert_eq!(batch.vertices().len(), MAX_VERTICES as usize);
    assert_eq!(batch.indices().len(), MAX_INDICES as usize);
    assert!(!batch.has_room(1, 0));
    assert!(batch.has_room(0, 0));
    let (a, _) = textures();
    assert_eq!(batch.quad(bits([0.0; 3]), bits([0.0; 3]), bits([0.0; 3]), bits([0.0; 3]), [0; 4], &keep), Err(BatchError::CapacityExceeded));
    assert_eq!(batch.triangle(bits([0.0; 3]), bits([0.0; 3]), bits([0.0; 3]), [0; 4], &keep), Err(BatchError::CapacityExceeded));
    assert_eq!(batch.texture(a, corners(0.0, 0.0, 1.0, 1.0), &keep), Err(BatchError::CapacityExceeded));
    assert_eq!(batch.circle([0; 3], 1, [0; 4], &|_i: u32| [0u32; 3], &keep), Err(BatchError::CapacityExceeded));
    assert_eq!(batch.circle([0; 3], 0, [0; 4], &|_i: u32| [0u32; 3], &keep), Ok(()));
    assert_eq!(batch.vertices().len(), MAX_VERTICES as usize);
    assert_eq!(batch.get_batch_count(), 1);
    assert!(batch.batches()[0].texture.is_none());
    assert_eq!(batch.batches()[0].elements, 32768);
}

#[test]
fn circle_that_does_not_fit_changes_nothing() {
    let mut batch = Batch::new(default_material());
    // 21846 triangles need 65538 vertices.
    let result = batch.circle([0; 3], 21846, [0; 4], &|_i: u32| [0u32; 3], &keep);
    assert_eq!(result, Err(BatchError::CapacityExceeded));
    assert_eq!(batch.vertices().len(), 0);
    assert_eq!(batch.batches().len(), 0);
    let result = batch.circle([0; 3], u32::MAX, [0; 4], &|_i: u32| [0u32; 3], &keep);
    assert_eq!(result, Err(BatchError::CapacityExceeded));
    let result = batch.circle([0; 3], 21845, [0; 4], &|_i: u32| [0u32; 3], &keep);
    assert_eq!(result, Ok(()));
    assert_eq!(batch.vertices().len(), 65535);
    assert_eq!(batch.indices().len(), 65535);
}

#[test]
fn draw_into_screen_uploads_then_draws() {
    let (a, b) = textures();
    let mut pending = a;
    pending.uploaded = false;
    let mut batch = Batch::new(default_material());
    rect(&mut batch, [0.0, 0.0, 0.0], [8.0, 8.0], [1, 0, 0, 255]).unwrap();
    batch.texture(pending, corners(0.0, 0.0, 16.0, 8.0), &project).unwrap();
    batch.texture(b, corners(0.0, 0.0, 32.0, 32.0), &project).unwrap();
    batch.push_material(&red_material());
    batch.triangle(bits([0.0; 3]), bits([0.0; 3]), bits([0.0; 3]), [0; 4], &project).unwrap();
    let target = screen(640, 480);
    let frame = batch.draw_into(&target);

    assert_eq!(frame.copy.texture_copies.len(), 1);
    assert_eq!(frame.copy.texture_copies[0].texture, a.id);
    assert_eq!(frame.copy.texture_copies[0].width, 16);
    assert_eq!(frame.copy.texture_copies[0].height, 8);
    assert_eq!(
        frame.copy.buffer_copies,
        vec![
            BufferCopy { buffer: BufferKind::Vertex, offset: 0, size: 28 * 65536, cycle: false },
            BufferCopy { buffer: BufferKind::Index, offset: 0, size: 4 * 98304, cycle: false },
        ]
    );
    assert_eq!(batch.mesh().vertices(), batch.vertices());
    assert_eq!(batch.mesh().indices(), batch.indices());

    assert!(matches!(frame.render.target.texture, Attachment::Swapchain(SwapchainImage { width: 640, height: 480 })));
    assert_eq!(frame.render.target.clear_color, Color { r: 0, g: 0, b: 0, a: 255 });
    assert_eq!(frame.render.target.load_op, LoadOp::Clear);
    assert_eq!(frame.render.target.store_op, StoreOp::Store);
    assert_eq!(frame.render.projection, Projection { left: 0, right: 640, bottom: 480, top: 0 });

    let draws = &frame.render.draws;
    assert_eq!(draws.len(), 3);
    assert_eq!((draws[0].first_index, draws[0].index_count), (0, 12));
    assert_eq!((draws[1].first_index, draws[1].index_count), (12, 6));
    assert_eq!((draws[2].first_index, draws[2].index_count), (18, 3));
    assert_eq!(draws[0].material, default_material());
    assert_eq!(draws[1].material, default_material());
    assert_eq!(draws[2].material, red_material());
    assert_eq!(draws[0].texture.unwrap().id, a.id);
    assert!(draws[0].texture.unwrap().uploaded);
    assert_eq!(draws[1].texture.unwrap().id, b.id);
    assert_eq!(draws[2].texture.unwrap().id, b.id);

    // A second frame finds every texture on the GPU.
    let again = batch.draw_into(&target);
    assert_eq!(again.copy.texture_copies.len(), 0);
    assert_eq!(again.render.draws.len(), 3);
}

#[test]
fn draw_into_skips_empty_runs() {
    let (a, b) = textures();
    let mut batch = Batch::new(default_material());
    batch.texture(a, corners(0.0, 0.0, 16.0, 8.0), &project).unwrap();
    batch.push_material(&red_material());
    batch.texture(b, corners(0.0, 0.0, 32.0, 32.0), &project).unwrap();
    assert_eq!(batch.batches().len(), 3);
    assert_eq!(batch.batches()[1].elements, 0);
    assert_eq!(batch.get_batch_count(), 2);
    let frame = batch.draw_into(&screen(320, 180));
    let draws = &frame.render.draws;
    assert_eq!(draws.len(), 2);
    assert_eq!((draws[0].first_index, draws[0].index_count), (0, 6));
    assert_eq!((draws[1].first_index, draws[1].index_count), (6, 6));
    assert_eq!(draws[1].material, red_material());
    assert_eq!(draws[1].texture.unwrap().id, b.id);
}

#[test]
fn draw_into_offscreen_target() {
    let mut ids = TextureIds::new();
    let color = Texture::new(&mut ids, 320, 180, TextureFormat::R8g8b8a8Unorm).unwrap();
    let target = RenderTarget::new(color);
    let mut batch = Batch::new(default_material());
    let frame = batch.draw_into(&target);
    assert_eq!(frame.render.draws.len(), 0);
    assert_eq!(frame.copy.texture_copies.len(), 0);
    assert_eq!(frame.copy.buffer_copies.len(), 2);
    assert!(matches!(frame.render.target.texture, Attachment::Offscreen(texture) if texture.id == color.id));
    assert_eq!(frame.render.target.clear_color, Color { r: 25, g: 25, b: 25, a: 255 });
    assert_eq!(frame.render.projection, Projection { left: 0, right: 320, bottom: 180, top: 0 });
}

#[test]
fn rect_outline_is_four_quads() {
    let mut batch = Batch::new(default_material());
    let edges = [
        corners(0.0, 0.0, 10.0, 1.0),
        corners(0.0, 9.0, 10.0, 1.0),
        corners(0.0, 0.0, 1.0, 10.0),
        corners(9.0, 0.0, 1.0, 10.0),
    ];
    assert_eq!(batch.rect_outline(edges, [1, 2, 3, 4], &project), Ok(()));
    assert_eq!(batch.vertices().len(), 16);
    assert_eq!(
        batch.indices(),
        &vec![0, 1, 2, 2, 1, 3, 4, 5, 6, 6, 5, 7, 8, 9, 10, 10, 9, 11, 12, 13, 14, 14, 13, 15]
    );
    assert_eq!(batch.get_batch_count(), 1);
    assert_eq!(batch.batches()[0].elements, 8);
    for (e, edge) in edges.iter().enumerate() {
        for (c, corner) in edge.iter().enumerate() {
            let vertex = batch.vertices()[4 * e + c];
            assert_eq!(vertex.position, *corner);
            assert_eq!(vertex.color, [1, 2, 3, 4]);
            assert_eq!(vertex.mult_wash_fill, [0, 0, 255, 0]);
        }
    }
    assert_eq!(batch.vertices()[5].texture_uv, [ONE, ZERO]);
}

#[test]
fn rect_outline_that_does_not_fit_changes_nothing() {
    let mut batch = Batch::new(default_material());
    // 21841 triangles leave room for 13 vertices.
    batch.circle([0; 3], 21841, [0; 4], &|_i: u32| [0u32; 3], &keep).unwrap();
    assert_eq!(batch.vertices().len(), 65523);
    let edges = [corners(0.0, 0.0, 1.0, 1.0); 4];
    assert_eq!(batch.rect_outline(edges, [0; 4], &keep), Err(BatchError::CapacityExceeded));
    assert_eq!(batch.vertices().len(), 65523);
    assert_eq!(batch.indices().len(), 65523);
    assert_eq!(batch.batches()[0].elements, 21841);
}
