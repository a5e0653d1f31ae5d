//! The commands of one frame, recorded as plain values for the GPU backend to
//! replay: first the copies, then the draws.

use vstd::prelude::*;
use crate::graphics::material::Material;
use crate::graphics::render_target::{ColorTargetInfo, Projection};
use crate::graphics::texture::Texture;

verus! {

/// Copy of a texture's staging buffer into its GPU image.
#[derive(Clone, Copy, Debug, PartialEq, Eq, Structural)]
pub struct TextureCopy {
    /// Id of the texture whose staging buffer is read and whose image is written.
    pub texture: u16,
    /// Byte offset into the staging buffer.
    pub offset: u32,
    pub pixels_per_row: u32,
    pub rows_per_layer: u32,
    pub mip_level: u32,
    pub x: u32,
    pub y: u32,
    pub width: u32,
    pub height: u32,
    pub depth: u32,
    /// Whether the image may be replaced by a fresh one if it is still in use.
    pub cycle: bool,
}

/// The two geometry buffers of a mesh.
#[derive(Clone, Copy, Debug, PartialEq, Eq, Structural)]
pub enum BufferKind {
    Vertex,
    Index,
}

/// Copy of a mesh's staging buffer into the GPU buffer of the same kind.
#[derive(Clone, Copy, Debug, PartialEq, Eq, Structural)]
pub struct BufferCopy {
    pub buffer: BufferKind,
    /// Byte offset into the staging buffer.
    pub offset: u32,
    /// Number of bytes copied.
    pub size: u32,
    pub cycle: bool,
}

/// The copy phase of a frame: the copies in the order they were asked for.
pub struct CopyPass {
    pub texture_copies: Vec<TextureCopy>,
    pub buffer_copies: Vec<BufferCopy>,
}

impl CopyPass {
    /// A copy phase with nothing to do.
    pub fn new() -> (pass: Self)
        ensures
            pass.texture_copies@ == Seq::<TextureCopy>::empty(),
            pass.buffer_copies@ == Seq::<BufferCopy>::empty(),
    {
        CopyPass { texture_copies: Vec::new(), buffer_copies: Vec::new() }
    }
}

/// One indexed draw: `index_count` indices starting at `first_index`, drawn
/// with `material`, sampling `texture` where there is one.
#[derive(Clone, Copy, Debug)]
pub struct DrawCall {
    pub material: Material,
    pub texture: Option<Texture>,
    pub index_count: u32,
    pub first_index: u32,
}

/// The render phase of a frame.
pub struct RenderPass {
    /// The attachment that is drawn into, and how it is cleared.
    pub target: ColorTargetInfo,
    /// The projection bound as the vertex stage's uniform.
    pub projection: Projection,
    /// The draws in submission order.
    pub draws: Vec<DrawCall>,
}

/// Everything one frame sends to the GPU. The copy phase must have completed
/// before the render phase is submitted.
pub struct Frame {
    pub copy: CopyPass,
    pub render: RenderPass,
}

} // verus!
