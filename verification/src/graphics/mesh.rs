//! The mesh: the staging copies of the vertex and index lists, and the
//! copies that bring them to the GPU.

use vstd::prelude::*;
use crate::graphics::pass::{BufferCopy, BufferKind, CopyPass};
use crate::graphics::{Vertex, MAX_INDICES, MAX_VERTICES, VERTEX_SIZE};

verus! {

/// Size in bytes of one index.
pub const INDEX_SIZE: u32 = 4;

/// Size in bytes of the vertex buffer and of its staging buffer.
pub const VERTEX_BUFFER_SIZE: u32 = VERTEX_SIZE * MAX_VERTICES;

/// Size in bytes of the index buffer and of its staging buffer.
pub const INDEX_BUFFER_SIZE: u32 = INDEX_SIZE * MAX_INDICES;

/// Why geometry could not be staged.
#[derive(Clone, Copy, Debug, PartialEq, Eq, Structural)]
pub enum MeshError {
    /// More vertices than the vertex buffer holds.
    TooManyVertices,
    /// More indices than the index buffer holds.
    TooManyIndices,
}

/// What a mesh has staged for the GPU.
pub struct MeshView {
    pub vertices: Seq<Vertex>,
    pub indices: Seq<u32>,
}

/// The geometry buffers of a batch. The GPU buffers have a fixed size, set
/// when the mesh is made; what is staged never exceeds it.
pub struct Mesh {
    vertices: Vec<Vertex>,
    indices: Vec<u32>,
}

/// The copies that bring both staging buffers to the GPU, each in full.
pub open spec fn upload_copies() -> Seq<BufferCopy> {
    seq![
        BufferCopy { buffer: BufferKind::Vertex, offset: 0, size: VERTEX_BUFFER_SIZE, cycle: false },
        BufferCopy { buffer: BufferKind::Index, offset: 0, size: INDEX_BUFFER_SIZE, cycle: false },
    ]
}

impl Mesh {
    pub closed spec fn view(&self) -> MeshView {
        MeshView { vertices: self.vertices@, indices: self.indices@ }
    }

    /// A mesh with nothing staged.
    pub fn new() -> (mesh: Self)
        ensures
            mesh@.vertices == Seq::<Vertex>::empty(),
            mesh@.indices == Seq::<u32>::empty(),
    {
        Mesh { vertices: Vec::new(), indices: Vec::new() }
    }

    /// Stages `vertices` in place of what was staged before. Fails, and
    /// changes nothing, if they are more than the vertex buffer holds.
    pub fn set_data(&mut self, vertices: &[Vertex]) -> (r: Result<(), MeshError>)
        ensures
            match r {
                Ok(()) => {
                    &&& vertices@.len() <= MAX_VERTICES
                    &&& final(self)@ == (MeshView { vertices: vertices@, ..old(self)@ })
                },
                Err(e) => {
                    &&& e == MeshError::TooManyVertices
                    &&& vertices@.len() > MAX_VERTICES
                    &&& final(self)@ == old(self)@
                },
            },
    {
        if vertices.len() > MAX_VERTICES as usize {
            return Err(MeshError::TooManyVertices);
        }
        let mut staged: Vec<Vertex> = Vec::new();
        let mut i: usize = 0;
        while i < vertices.len()
            invariant
                i <= vertices@.len(),
                staged@ == vertices@.take(i as int),
            decreases vertices@.len() - i,
        {
            staged.push(vertices[i]);
            assert(vertices@.take(i as int).push(vertices@[i as int]) =~= vertices@.take(i + 1));
            i = i + 1;
        }
        assert(vertices@.take(i as int) =~= vertices@);
        self.vertices = staged;
        Ok(())
    }

    /// Stages `indices` in place of what was staged before. Fails, and
    /// changes nothing, if they are more than the index buffer holds.
    pub fn set_indices(&mut self, indices: &[u32]) -> (r: Result<(), MeshError>)
        ensures
            match r {
                Ok(()) => {
                    &&& indices@.len() <= MAX_INDICES
                    &&& final(self)@ == (MeshView { indices: indices@, ..old(self)@ })
                },
                Err(e) => {
                    &&& e == MeshError::TooManyIndices
                    &&& indices@.len() > MAX_INDICES
                    &&& final(self)@ == old(self)@
                },
            },
    {
        if indices.len() > MAX_INDICES as usize {
            return Err(MeshError::TooManyIndices);
        }
        let mut staged: Vec<u32> = Vec::new();
        let mut i: usize = 0;
        while i < indices.len()
            invariant
                i <= indices@.len(),
                staged@ == indices@.take(i as int),
            decreases indices@.len() - i,
        {
            staged.push(indices[i]);
            assert(indices@.take(i as int).push(indices@[i as int]) =~= indices@.take(i + 1));
            i = i + 1;
        }
        assert(indices@.take(i as int) =~= indices@);
        self.indices = staged;
        Ok(())
    }

    /// The staged vertices.
    pub fn vertices(&self) -> (staged: &Vec<Vertex>)
        ensures
            staged@ == self@.vertices,
    {
        &self.vertices
    }

    /// The staged indices.
    pub fn indices(&self) -> (staged: &Vec<u32>)
        ensures
            staged@ == self@.indices,
    {
        &self.indices
    }

    /// Records the copies of both staging buffers to the GPU: first the
    /// vertices, then the indices.
    pub fn upload(&self, pass: &mut CopyPass)
        ensures
            final(pass).buffer_copies@ == old(pass).buffer_copies@ + upload_copies(),
            final(pass).texture_copies@ == old(pass).texture_copies@,
    {
        pass.buffer_copies.push(
            BufferCopy { buffer: BufferKind::Vertex, offset: 0, size: VERTEX_BUFFER_SIZE, cycle: false },
        );
        pass.buffer_copies.push(
            BufferCopy { buffer: BufferKind::Index, offset: 0, size: INDEX_BUFFER_SIZE, cycle: false },
        );
        assert(pass.buffer_copies@ =~= old(pass).buffer_copies@ + upload_copies());
    }
}

} // verus!
