use render_core::graphics::mesh::{Mesh, MeshError, INDEX_BUFFER_SIZE, VERTEX_BUFFER_SIZE};
use render_core::graphics::pass::{BufferCopy, BufferKind, CopyPass};
use render_core::graphics::Vertex;

fn vertex(tag: u32) -> Vertex {
    Vertex { position: [tag, 0, 0], color: [0; 4], texture_uv: [0, 0], mult_wash_fill: [0; 4] }
}

#[test]
fn buffer_sizes() {
    assert_eq!(VERTEX_BUFFER_SIZE, 1835008);
    assert_eq!(INDEX_BUFFER_SIZE, 393216);
}

#[test]
fn set_data_replaces_what_was_staged() {
    let mut mesh = Mesh::new();
    assert_eq!(mesh.vertices().len(), 0);
    assert_eq!(mesh.set_data(&[vertex(1), vertex(2), vertex(3)]), Ok(()));
    assert_eq!(mesh.set_indices(&[0, 1, 2]), Ok(()));
    assert_eq!(mesh.vertices(), &vec![vertex(1), vertex(2), vertex(3)]);
    assert_eq!(mesh.indices(), &vec![0, 1, 2]);
    assert_eq!(mesh.set_data(&[vertex(9)]), Ok(()));
    assert_eq!(mesh.vertices(), &vec![vertex(9)]);
    assert_eq!(mesh.indices(), &vec![0, 1, 2]);
}

#[test]
fn more_than_the_buffers_hold_is_refused() {
    let mut mesh = Mesh::new();
    mesh.set_data(&[vertex(1)]).unwrap();
    mesh.set_indices(&[0]).unwrap();
    let vertices = vec![vertex(0); 65537];
    assert_eq!(mesh.set_data(&vertices), Err(MeshError::TooManyVertices));
    assert_eq!(mesh.set_data(&vertices[..65536]), Ok(()));
    let indices = vec![0u32; 98305];
    assert_eq!(mesh.set_indices(&indices), Err(MeshError::TooManyIndices));
    assert_eq!(mesh.indices(), &vec![0]);
    assert_eq!(mesh.set_indices(&indices[..98304]), Ok(()));
    assert_eq!(mesh.indices().len(), 98304);
}

#[test]
fn upload_copies_vertices_then_indices() {
    let mesh = Mesh::new();
    let mut pass = CopyPass::new();
    mesh.upload(&mut pass);
    assert_eq!(
        pass.buffer_copies,
        vec![
            BufferCopy { buffer: BufferKind::Vertex, offset: 0, size: 1835008, cycle: false },
            BufferCopy { buffer: BufferKind::Index, offset: 0, size: 393216, cycle: false },
        ]
    );
    assert_eq!(pass.texture_copies.len(), 0);
}
