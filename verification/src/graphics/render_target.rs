//! Render targets: the window's frame image or an offscreen texture.

use vstd::prelude::*;
use crate::graphics::texture::Texture;

verus! {

/// An orthographic projection, given by the planes that bound the visible
/// box. The near and far planes are fixed at -1 and 1.
#[derive(Clone, Copy, Debug, PartialEq, Eq, Structural)]
pub struct Projection {
    pub left: i64,
    pub right: i64,
    pub bottom: i64,
    pub top: i64,
}

impl Projection {
    /// The projection of a surface of `width` by `height` pixels whose origin
    /// is the top left corner and whose y axis points down.
    pub open spec fn screen(width: int, height: int) -> Projection {
        Projection { left: 0, right: width as i64, bottom: height as i64, top: 0 }
    }

    /// Whether the projection sends the point `(x, y)` to the clip
    /// coordinates `(clip_x, clip_y)`. Along each axis the visible interval
    /// is mapped linearly onto the interval from -1 to 1.
    pub open spec fn maps_to(self, x: int, y: int, clip_x: int, clip_y: int) -> bool {
        &&& clip_x * (self.right - self.left) == 2 * x - (self.right + self.left)
        &&& clip_y * (self.top - self.bottom) == 2 * y - (self.top + self.bottom)
    }
}

/// Under the projection of a screen, the pixel origin lies in the top left
/// corner of clip space and the point opposite to it in the bottom right
/// corner.
pub proof fn lemma_screen_projection_corners(width: int, height: int)
    requires
        0 < width <= i64::MAX,
        0 < height <= i64::MAX,
    ensures
        Projection::screen(width, height).maps_to(0, 0, -1, 1),
        Projection::screen(width, height).maps_to(width, height, 1, -1),
        forall|clip_x: int, clip_y: int|
            Projection::screen(width, height).maps_to(0, 0, clip_x, clip_y) ==> clip_x == -1 && clip_y == 1,
        forall|clip_x: int, clip_y: int|
            Projection::screen(width, height).maps_to(width, height, clip_x, clip_y) ==> clip_x == 1 && clip_y
                == -1,
{
    let p = Projection::screen(width, height);
    assert forall|clip_x: int, clip_y: int| p.maps_to(0, 0, clip_x, clip_y) implies clip_x == -1 && clip_y
        == 1 by {
        assert(clip_x * width == -width);
        assert(clip_y * (-height) == -height);
        assert(clip_x == -1) by (nonlinear_arith)
            requires
                clip_x * width == -width,
                width > 0,
        ;
        assert(clip_y == 1) by (nonlinear_arith)
            requires
                clip_y * (-height) == -height,
                height > 0,
        ;
    }
    assert forall|clip_x: int, clip_y: int| p.maps_to(width, height, clip_x, clip_y) implies clip_x == 1
        && clip_y == -1 by {
        assert(clip_x * width == width);
        assert(clip_y * (-height) == height);
        assert(clip_x == 1) by (nonlinear_arith)
            requires
                clip_x * width == width,
                width > 0,
        ;
        assert(clip_y == -1) by (nonlinear_arith)
            requires
                clip_y * (-height) == height,
                height > 0,
        ;
    }
}

/// A colour of 8 bits per channel.
#[derive(Clone, Copy, Debug, PartialEq, Eq, Structural)]
pub struct Color {
    pub r: u8,
    pub g: u8,
    pub b: u8,
    pub a: u8,
}

/// The colour a screen is cleared to.
pub open spec fn clear_color_screen() -> Color {
    Color { r: 0, g: 0, b: 0, a: 255 }
}

/// The colour an offscreen target is cleared to.
pub open spec fn clear_color_offscreen() -> Color {
    Color { r: 25, g: 25, b: 25, a: 255 }
}

/// The image that the window presents in the current frame.
#[derive(Clone, Copy, Debug, PartialEq, Eq, Structural)]
pub struct SwapchainImage {
    pub width: u32,
    pub height: u32,
}

/// What stands behind a render target.
#[derive(Clone, Copy, Debug)]
pub enum BackingTexture {
    /// The window. The image is there only between `set_texture` and
    /// `clear_texture`.
    Screen(Option<SwapchainImage>),
    /// An offscreen texture, for the whole life of the target.
    Texture(Texture),
}

/// What a render pass draws into.
#[derive(Clone, Copy, Debug)]
pub enum Attachment {
    /// The image the window presents this frame.
    Swapchain(SwapchainImage),
    /// The image behind a texture.
    Offscreen(Texture),
}

/// What happens to the attachment when a render pass begins.
#[derive(Clone, Copy, Debug, PartialEq, Eq, Structural)]
pub enum LoadOp {
    Load,
    Clear,
    DontCare,
}

/// What happens to the attachment when a render pass ends.
#[derive(Clone, Copy, Debug, PartialEq, Eq, Structural)]
pub enum StoreOp {
    Store,
    DontCare,
}

/// The colour attachment of a render pass.
#[derive(Clone, Copy, Debug)]
pub struct ColorTargetInfo {
    pub texture: Attachment,
    pub clear_color: Color,
    pub load_op: LoadOp,
    pub store_op: StoreOp,
}

/// Something the renderer can draw into: the window or an offscreen texture.
pub struct RenderTarget {
    width: u32,
    height: u32,
    projection: Option<Projection>,
    texture: BackingTexture,
}

/// What a render target holds.
pub struct RenderTargetView {
    pub width: u32,
    pub height: u32,
    /// The projection, once the target has one.
    pub projection: Option<Projection>,
    pub backing: BackingTexture,
}

impl RenderTarget {
    pub closed spec fn view(&self) -> RenderTargetView {
        RenderTargetView {
            width: self.width,
            height: self.height,
            projection: self.projection,
            backing: self.texture,
        }
    }

    /// Width in pixels.
    pub fn width(&self) -> (width: u32)
        ensures
            width == self@.width,
    {
        self.width
    }

    /// Height in pixels.
    pub fn height(&self) -> (height: u32)
        ensures
            height == self@.height,
    {
        self.height
    }

    /// Whether the target stands for the window.
    pub open spec fn is_screen(&self) -> bool {
        self@.backing is Screen
    }

    /// Whether a render pass can draw into the target now: an offscreen
    /// target always, a screen while its image is bound.
    pub open spec fn is_bound(&self) -> bool {
        match self@.backing {
            BackingTexture::Screen(image) => image.is_some(),
            BackingTexture::Texture(_) => true,
        }
    }

    /// What a render pass that draws into the target is given.
    pub open spec fn color_target_info_spec(&self) -> ColorTargetInfo
        recommends
            self.is_bound(),
    {
        match self@.backing {
            BackingTexture::Screen(image) => ColorTargetInfo {
                texture: Attachment::Swapchain(image.unwrap()),
                clear_color: clear_color_screen(),
                load_op: LoadOp::Clear,
                store_op: StoreOp::Store,
            },
            BackingTexture::Texture(texture) => ColorTargetInfo {
                texture: Attachment::Offscreen(texture),
                clear_color: clear_color_offscreen(),
                load_op: LoadOp::Clear,
                store_op: StoreOp::Store,
            },
        }
    }

    /// A screen target that has neither an image nor a projection yet.
    pub fn empty() -> (target: Self)
        ensures
            target@.width == 0,
            target@.height == 0,
            target@.projection.is_none(),
            target@.backing == BackingTexture::Screen(None),
    {
        RenderTarget { projection: None, width: 0, height: 0, texture: BackingTexture::Screen(None) }
    }

    /// An offscreen target that draws into `texture`. Its projection spans the
    /// texture's pixels and stays as it is.
    pub fn new(texture: Texture) -> (target: Self)
        ensures
            target@.width == texture.width,
            target@.height == texture.height,
            target@.projection == Some(Projection::screen(texture.width as int, texture.height as int)),
            target@.backing == BackingTexture::Texture(texture),
    {
        let projection = Projection { left: 0, right: texture.width() as i64, bottom: texture.height() as i64, top: 0 };
        RenderTarget {
            projection: Some(projection),
            width: texture.width(),
            height: texture.height(),
            texture: BackingTexture::Texture(texture),
        }
    }

    /// Whether the target stands for the window.
    pub fn screen(&self) -> (r: bool)
        ensures
            r == self.is_screen(),
    {
        match self.texture {
            BackingTexture::Screen(_) => true,
            BackingTexture::Texture(_) => false,
        }
    }

    /// Whether a render pass can draw into the target now.
    pub fn bound(&self) -> (r: bool)
        ensures
            r == self.is_bound(),
    {
        match self.texture {
            BackingTexture::Screen(image) => image.is_some(),
            BackingTexture::Texture(_) => true,
        }
    }

    /// Whether the target has a projection.
    pub fn has_projection(&self) -> (r: bool)
        ensures
            r == self@.projection.is_some(),
    {
        self.projection.is_some()
    }

    /// The texture behind an offscreen target.
    pub fn color(&self) -> (texture: Texture)
        requires
            !self.is_screen(),
        ensures
            self@.backing == BackingTexture::Texture(texture),
    {
        match self.texture {
            BackingTexture::Texture(texture) => texture,
            BackingTexture::Screen(_) => vstd::pervasive::unreached(),
        }
    }

    /// Binds the image of the current frame to a screen target. The
    /// projection is computed on the first bind and whenever the image's
    /// dimensions differ from the target's; otherwise it is kept.
    pub fn set_texture(&mut self, image: SwapchainImage)
        requires
            old(self).is_screen(),
            image.width <= i32::MAX,
            image.height <= i32::MAX,
        ensures
            final(self)@.backing == BackingTexture::Screen(Some(image)),
            old(self)@.projection.is_some() && old(self)@.width == image.width && old(self)@.height
                == image.height ==> final(self)@.projection == old(self)@.projection,
            old(self)@.projection.is_none() || old(self)@.width != image.width || old(self)@.height
                != image.height ==> final(self)@.projection == Some(
                Projection::screen(image.width as int, image.height as int),
            ),
            final(self)@.width == image.width,
            final(self)@.height == image.height,
    {
        if self.projection.is_none() || self.width != image.width || self.height != image.height {
            self.resize(image.width as i32, image.height as i32);
        }
        self.texture = BackingTexture::Screen(Some(image));
    }

    /// Takes the frame's image away from a screen target. To be called before
    /// the frame that owns the image ends.
    pub fn clear_texture(&mut self)
        requires
            old(self).is_screen(),
        ensures
            final(self)@.backing == BackingTexture::Screen(None),
            final(self)@.projection == old(self)@.projection,
            final(self)@.width == old(self)@.width,
            final(self)@.height == old(self)@.height,
    {
        self.texture = BackingTexture::Screen(None);
    }

    /// The projection of the target.
    pub fn projection(&self) -> (projection: Projection)
        requires
            self@.projection.is_some(),
        ensures
            self@.projection == Some(projection),
    {
        match self.projection {
            Some(projection) => projection,
            None => vstd::pervasive::unreached(),
        }
    }

    /// What a render pass that draws into the target is given: the image, the
    /// clear colour of the target's kind, and that the image is cleared
    /// before and kept after the pass.
    pub fn color_target_info(&self) -> (info: ColorTargetInfo)
        requires
            self.is_bound(),
        ensures
            info == self.color_target_info_spec(),
    {
        match self.texture {
            BackingTexture::Screen(image) => ColorTargetInfo {
                texture: Attachment::Swapchain(image.unwrap()),
                clear_color: Color { r: 0, g: 0, b: 0, a: 255 },
                load_op: LoadOp::Clear,
                store_op: StoreOp::Store,
            },
            BackingTexture::Texture(texture) => ColorTargetInfo {
                texture: Attachment::Offscreen(texture),
                clear_color: Color { r: 25, g: 25, b: 25, a: 255 },
                load_op: LoadOp::Clear,
                store_op: StoreOp::Store,
            },
        }
    }

    /// Gives the target another projection, as a camera does that moves over
    /// a world larger than the target.
    pub fn set_projection(&mut self, projection: Projection)
        ensures
            final(self)@ == (RenderTargetView { projection: Some(projection), ..old(self)@ }),
    {
        self.projection = Some(projection);
    }

    /// Gives a screen target new dimensions and the projection that spans
    /// them, with the origin in the top left corner and the y axis pointing
    /// down.
    pub fn resize(&mut self, width: i32, height: i32)
        requires
            old(self).is_screen(),
            0 <= width,
            0 <= height,
        ensures
            final(self)@.width == width,
            final(self)@.height == height,
            final(self)@.projection == Some(Projection::screen(width as int, height as int)),
            final(self)@.backing == old(self)@.backing,
    {
        let projection = Projection { left: 0, right: width as i64, bottom: height as i64, top: 0 };
        self.width = width as u32;
        self.height = height as u32;
        self.projection = Some(projection);
    }
}

} // verus!
