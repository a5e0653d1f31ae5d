//! Shared data of the renderer: the vertex record, the buffer limits and
//! transforms.

use vstd::prelude::*;

pub mod batch;
pub mod material;
pub mod mesh;
pub mod pass;
pub mod render_target;
pub mod runs;
pub mod subtexture;
pub mod texture;

verus! {

/// Largest number of vertices one frame can hold.
pub const MAX_VERTICES: u32 = 65536;

/// Largest number of indices one frame can hold.
pub const MAX_INDICES: u32 = MAX_VERTICES * 3 / 2;

/// Bit pattern of the single-precision number `0.0`.
pub const ZERO: u32 = 0;

/// Bit pattern of the single-precision number `1.0`.
pub const ONE: u32 = 0x3F80_0000;

/// Size in bytes of one [`Vertex`] as the GPU reads it.
pub const VERTEX_SIZE: u32 = 28;

/// One corner of a triangle. The vertex stage reads it as 28 bytes, field by
/// field in the order given here.
///
/// `position` and `texture_uv` hold bit patterns of single-precision numbers.
/// The first three bytes of `mult_wash_fill` select how the fragment stage
/// blends the texture with `color`; the fourth is padding.
#[derive(Clone, Copy, Debug, PartialEq, Eq)]
pub struct Vertex {
    pub position: [u32; 3],
    pub color: [u8; 4],
    pub texture_uv: [u32; 2],
    pub mult_wash_fill: [u8; 4],
}

/// A 4x4 transform, sixteen single-precision bit patterns in column-major order.
#[derive(Clone, Copy, Debug, PartialEq, Eq)]
pub struct Mat4 {
    pub cells: [u32; 16],
}

/// The transform that leaves every point where it is.
pub open spec fn identity_matrix() -> Mat4 {
    Mat4 { cells: [ONE, ZERO, ZERO, ZERO, ZERO, ONE, ZERO, ZERO, ZERO, ZERO, ONE, ZERO, ZERO, ZERO, ZERO, ONE] }
}

/// Returns the identity transform.
pub fn identity() -> (m: Mat4)
    ensures
        m == identity_matrix(),
{
    Mat4 { cells: [ONE, ZERO, ZERO, ZERO, ZERO, ONE, ZERO, ZERO, ZERO, ZERO, ONE, ZERO, ZERO, ZERO, ZERO, ONE] }
}

} // verus!
