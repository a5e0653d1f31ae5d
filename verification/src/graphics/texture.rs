//! Texture handles: identity, pixel dimensions and the pending-upload flag.

use vstd::prelude::*;
use vstd::std_specs::cmp::PartialEqSpecImpl;
use crate::graphics::pass::{CopyPass, TextureCopy};

verus! {

/// Pixel format of a GPU image.
#[derive(Clone, Copy, Debug, PartialEq, Eq, Structural)]
pub enum TextureFormat {
    R8g8b8a8Unorm,
    B8g8r8a8Unorm,
    /// Any other format, by the code the GPU backend gives it.
    Other(u32),
}

/// Why a texture could not be made.
#[derive(Clone, Copy, Debug, PartialEq, Eq, Structural)]
pub enum TextureError {
    /// Every id has been handed out.
    IdsExhausted,
    /// The staging buffer would not fit in 32 bits, or a side is longer than
    /// 65535 pixels.
    TooLarge,
    /// The bytes are not an image the decoder understands.
    Decode,
    /// The image is not 8 bits per channel RGBA.
    UnsupportedFormat,
}

/// Number of bytes per pixel in a staging buffer.
pub const CHANNELS: u32 = 4;

/// Number of distinct texture ids.
pub const ID_COUNT: u32 = 65536;

/// Source of texture ids. Ids are handed out in increasing order, each once.
pub struct TextureIds {
    next: u32,
}

impl TextureIds {
    /// Number of ids handed out so far.
    pub closed spec fn issued(&self) -> nat {
        self.next as nat
    }

    /// A source that has handed out no id yet.
    pub fn new() -> (ids: Self)
        ensures
            ids.issued() == 0,
    {
        TextureIds { next: 0 }
    }

    /// Number of ids that can still be handed out.
    pub fn remaining(&self) -> (n: u32)
        ensures
            n == if self.issued() < ID_COUNT { ID_COUNT - self.issued() } else { 0 },
    {
        if self.next < ID_COUNT {
            ID_COUNT - self.next
        } else {
            0
        }
    }

    fn take(&mut self) -> (id: Option<u16>)
        ensures
            old(self).issued() < ID_COUNT ==> id == Some(old(self).issued() as u16)
                && final(self).issued() == old(self).issued() + 1,
            old(self).issued() >= ID_COUNT ==> id.is_none() && *final(self) == *old(self),
    {
        if self.next < ID_COUNT {
            let id = self.next as u16;
            self.next = self.next + 1;
            Some(id)
        } else {
            None
        }
    }
}

/// How the GPU image behind a texture is allocated.
#[derive(Clone, Copy, Debug, PartialEq, Eq, Structural)]
pub struct ImageInfo {
    pub width: u32,
    pub height: u32,
    pub format: TextureFormat,
    pub layer_count_or_depth: u32,
    pub num_levels: u32,
    /// The image can be sampled by a shader.
    pub sampler: bool,
    /// The image can be drawn into.
    pub color_target: bool,
    pub multisampled: bool,
}

/// How a sampler picks a colour between pixels.
#[derive(Clone, Copy, Debug, PartialEq, Eq, Structural)]
pub enum Filter {
    Nearest,
    Linear,
}

/// What a sampler does with coordinates outside the texture.
#[derive(Clone, Copy, Debug, PartialEq, Eq, Structural)]
pub enum AddressMode {
    Repeat,
    MirroredRepeat,
    ClampToEdge,
}

/// How the sampler behind a texture is created.
#[derive(Clone, Copy, Debug, PartialEq, Eq, Structural)]
pub struct SamplerInfo {
    pub min_filter: Filter,
    pub mag_filter: Filter,
    pub mipmap_mode: Filter,
    pub address_mode_u: AddressMode,
    pub address_mode_v: AddressMode,
    pub address_mode_w: AddressMode,
    pub enable_compare: bool,
}

/// The GPU objects one texture owns.
#[derive(Clone, Copy, Debug, PartialEq, Eq, Structural)]
pub struct TextureResources {
    pub image: ImageInfo,
    pub sampler: SamplerInfo,
    /// Size in bytes of the upload staging buffer.
    pub staging_size: u32,
}

/// Lightweight handle of a GPU image with its sampler and staging buffer.
///
/// Two handles name the same texture exactly when their ids are equal.
/// `uploaded` is false while the staging buffer holds pixels that the image
/// has not received yet.
#[derive(Clone, Copy, Debug)]
pub struct Texture {
    pub id: u16,
    pub uploaded: bool,
    pub width: u16,
    pub height: u16,
    pub format: TextureFormat,
}

/// Size in bytes of the staging buffer of a `width` by `height` image.
pub open spec fn staging_bytes(width: u16, height: u16) -> int {
    width as int * height as int * CHANNELS as int
}

/// Computes [`staging_bytes`].
fn staging_size(width: u16, height: u16) -> (size: u64)
    ensures
        size == staging_bytes(width, height),
{
    let w: u64 = width as u64;
    let h: u64 = height as u64;
    assert(w * h <= 65535 * 65535) by (nonlinear_arith)
        requires
            w <= 65535,
            h <= 65535,
    ;
    let area: u64 = w * h;
    area * 4
}

impl PartialEq for Texture {
    fn eq(&self, other: &Self) -> (r: bool) {
        self.id == other.id
    }
}

impl PartialEqSpecImpl for Texture {
    open spec fn obeys_eq_spec() -> bool {
        true
    }

    open spec fn eq_spec(&self, other: &Self) -> bool {
        self.id == other.id
    }
}

impl Texture {
    /// Makes a texture of `width` by `height` pixels under a fresh id. It has no
    /// pixels waiting for upload, which suits an image that the GPU itself
    /// draws into.
    pub fn new(ids: &mut TextureIds, width: u16, height: u16, format: TextureFormat) -> (r: Result<
        Texture,
        TextureError,
    >)
        ensures
            match r {
                Ok(texture) => {
                    &&& staging_bytes(width, height) <= u32::MAX
                    &&& old(ids).issued() < ID_COUNT
                    &&& texture == (Texture { id: old(ids).issued() as u16, uploaded: true, width, height, format })
                    &&& final(ids).issued() == old(ids).issued() + 1
                },
                Err(e) => {
                    &&& *final(ids) == *old(ids)
                    &&& e == if staging_bytes(width, height) > u32::MAX {
                        TextureError::TooLarge
                    } else {
                        TextureError::IdsExhausted
                    }
                    &&& staging_bytes(width, height) > u32::MAX || old(ids).issued() >= ID_COUNT
                },
            },
    {
        let size: u64 = staging_size(width, height);
        if size > u32::MAX as u64 {
            return Err(TextureError::TooLarge);
        }
        match ids.take() {
            Some(id) => Ok(Texture { id, uploaded: true, width, height, format }),
            None => Err(TextureError::IdsExhausted),
        }
    }

    /// Width in pixels.
    pub fn width(&self) -> (w: u32)
        ensures
            w == self.width,
    {
        self.width as u32
    }

    /// Height in pixels.
    pub fn height(&self) -> (h: u32)
        ensures
            h == self.height,
    {
        self.height as u32
    }

    /// Whether the staging buffer fits in 32 bits, as it does for every texture
    /// that [`Texture::new`] made.
    pub open spec fn fits(&self) -> bool {
        staging_bytes(self.width, self.height) <= u32::MAX
    }

    /// The GPU objects to allocate for this texture: a 2D image that can be
    /// sampled and drawn into, a nearest-neighbour sampler that clamps to the
    /// edge, and a staging buffer of four bytes per pixel.
    pub open spec fn resources_spec(&self) -> TextureResources {
        TextureResources {
            image: ImageInfo {
                width: self.width as u32,
                height: self.height as u32,
                format: self.format,
                layer_count_or_depth: 1,
                num_levels: 1,
                sampler: true,
                color_target: true,
                multisampled: false,
            },
            sampler: SamplerInfo {
                min_filter: Filter::Nearest,
                mag_filter: Filter::Nearest,
                mipmap_mode: Filter::Nearest,
                address_mode_u: AddressMode::ClampToEdge,
                address_mode_v: AddressMode::ClampToEdge,
                address_mode_w: AddressMode::ClampToEdge,
                enable_compare: false,
            },
            staging_size: staging_bytes(self.width, self.height) as u32,
        }
    }

    /// Computes [`Texture::resources_spec`].
    pub fn resources(&self) -> (r: TextureResources)
        requires
            self.fits(),
        ensures
            r == self.resources_spec(),
    {
        let size: u64 = staging_size(self.width, self.height);
        TextureResources {
            image: ImageInfo {
                width: self.width as u32,
                height: self.height as u32,
                format: self.format,
                layer_count_or_depth: 1,
                num_levels: 1,
                sampler: true,
                color_target: true,
                multisampled: false,
            },
            sampler: SamplerInfo {
                min_filter: Filter::Nearest,
                mag_filter: Filter::Nearest,
                mipmap_mode: Filter::Nearest,
                address_mode_u: AddressMode::ClampToEdge,
                address_mode_v: AddressMode::ClampToEdge,
                address_mode_w: AddressMode::ClampToEdge,
                enable_compare: false,
            },
            staging_size: size as u32,
        }
    }

    /// The copy that brings the whole staging buffer into the image.
    pub open spec fn upload_copy(&self) -> TextureCopy {
        TextureCopy {
            texture: self.id,
            offset: 0,
            pixels_per_row: self.width as u32,
            rows_per_layer: self.height as u32,
            mip_level: 0,
            x: 0,
            y: 0,
            width: self.width as u32,
            height: self.height as u32,
            depth: 1,
            cycle: false,
        }
    }

    /// The handle once its pixels are on the GPU.
    pub open spec fn after_upload(self) -> Texture {
        Texture { uploaded: true, ..self }
    }

    /// The texture copies of a pass after this handle was offered to it.
    pub open spec fn uploads_after(self, copies: Seq<TextureCopy>) -> Seq<TextureCopy> {
        if self.uploaded {
            copies
        } else {
            copies.push(self.upload_copy())
        }
    }

    /// Records the copy of the staging buffer into the image, unless the pixels
    /// are on the GPU already. Afterwards the handle counts as uploaded.
    pub fn upload(&mut self, pass: &mut CopyPass)
        ensures
            *final(self) == old(self).after_upload(),
            final(pass).texture_copies@ == old(self).uploads_after(old(pass).texture_copies@),
            final(pass).buffer_copies@ == old(pass).buffer_copies@,
    {
        if self.uploaded {
            return ;
        }
        self.uploaded = true;
        pass.texture_copies.push(
            TextureCopy {
                texture: self.id,
                offset: 0,
                pixels_per_row: self.width as u32,
                rows_per_layer: self.height as u32,
                mip_level: 0,
                x: 0,
                y: 0,
                width: self.width as u32,
                height: self.height as u32,
                depth: 1,
                cycle: false,
            },
        );
    }
}

/// Offering a handle to a pass a second time changes neither the handle nor
/// the pass: the copy is recorded by the first offer only.
pub proof fn lemma_upload_idempotent(texture: Texture, copies: Seq<TextureCopy>)
    ensures
        texture.after_upload().after_upload() == texture.after_upload(),
        texture.after_upload().uploads_after(texture.uploads_after(copies)) == texture.uploads_after(copies),
        texture.uploads_after(copies).len() <= copies.len() + 1,
{
}

/// What the image decoder made of some bytes.
pub enum Decoded {
    /// The bytes are no image that the decoder reads.
    Failed,
    /// An image of 8 bits per channel: `depth` channels per pixel, rows from
    /// top to bottom.
    Bytes { width: usize, height: usize, depth: usize, data: Vec<u8> },
    /// An image of one floating-point number per channel.
    Floats,
}

/// A decoded image as mathematical values.
pub enum DecodedImage {
    Failed,
    Bytes { width: nat, height: nat, depth: nat, data: Seq<u8> },
    Floats,
}

impl Decoded {
    pub open spec fn view(&self) -> DecodedImage {
        match self {
            Decoded::Failed => DecodedImage::Failed,
            Decoded::Bytes { width, height, depth, data } => DecodedImage::Bytes {
                width: *width as nat,
                height: *height as nat,
                depth: *depth as nat,
                data: data@,
            },
            Decoded::Floats => DecodedImage::Floats,
        }
    }
}

/// What the image decoder makes of `bytes`, with its load flags as they are
/// when a process starts.
pub uninterp spec fn decoded_image(bytes: Seq<u8>) -> DecodedImage;

/// Runs `stb_image::image::load_from_memory` on `bytes` and hands its result
/// on, variant by variant. Nothing is proved of the decoder. What is taken
/// on trust is that its result is a function of `bytes`: it reads nothing
/// else but its load flags, which only unsafe calls into the decoder can
/// change and which this crate never touches.
#[verifier::external_body]
fn decode(bytes: &[u8]) -> (image: Decoded)
    ensures
        image@ == decoded_image(bytes@),
{
    match stb_image::image::load_from_memory(bytes) {
        stb_image::image::LoadResult::Error(_) => Decoded::Failed,
        stb_image::image::LoadResult::ImageU8(image) => Decoded::Bytes {
            width: image.width,
            height: image.height,
            depth: image.depth,
            data: image.data,
        },
        stb_image::image::LoadResult::ImageF32(_) => Decoded::Floats,
    }
}

/// A texture made from an image file, with the pixels that its staging
/// buffer is to be filled with.
pub struct LoadedTexture {
    pub texture: Texture,
    /// Four bytes per pixel, rows from top to bottom.
    pub pixels: Vec<u8>,
}

/// Why no texture is made from a decoded image while `issued` ids are in
/// use, or `None` if one is made. Only images of four 8-bit channels whose
/// sides and staging buffer are not too large are taken.
pub open spec fn rejection(issued: nat, image: DecodedImage) -> Option<TextureError> {
    match image {
        DecodedImage::Failed => Some(TextureError::Decode),
        DecodedImage::Floats => Some(TextureError::UnsupportedFormat),
        DecodedImage::Bytes { width, height, depth, data } => if depth != CHANNELS {
            Some(TextureError::UnsupportedFormat)
        } else if width > u16::MAX || height > u16::MAX {
            Some(TextureError::TooLarge)
        } else if data.len() != width * height * CHANNELS {
            Some(TextureError::Decode)
        } else if width * height * CHANNELS > u32::MAX {
            Some(TextureError::TooLarge)
        } else if issued >= ID_COUNT {
            Some(TextureError::IdsExhausted)
        } else {
            None
        },
    }
}

/// Whether `loaded` is the texture that is made from `image` when `issued`
/// ids are in use: it has the image's size and pixels, the next id, and its
/// pixels wait for upload.
pub open spec fn is_loaded_from(loaded: LoadedTexture, issued: nat, image: DecodedImage) -> bool {
    &&& image is Bytes
    &&& loaded.texture == (Texture {
        id: issued as u16,
        uploaded: false,
        width: image->width as u16,
        height: image->height as u16,
        format: TextureFormat::R8g8b8a8Unorm,
    })
    &&& loaded.pixels@ == image->data
}

impl Texture {
    /// Makes a texture from a decoded image. Its pixels wait for upload.
    pub fn from_decoded(ids: &mut TextureIds, image: Decoded) -> (r: Result<LoadedTexture, TextureError>)
        ensures
            match r {
                Ok(loaded) => {
                    &&& rejection(old(ids).issued(), image@).is_none()
                    &&& is_loaded_from(loaded, old(ids).issued(), image@)
                    &&& final(ids).issued() == old(ids).issued() + 1
                },
                Err(e) => {
                    &&& rejection(old(ids).issued(), image@) == Some(e)
                    &&& *final(ids) == *old(ids)
                },
            },
    {
        match image {
            Decoded::Failed => Err(TextureError::Decode),
            Decoded::Floats => Err(TextureError::UnsupportedFormat),
            Decoded::Bytes { width, height, depth, data } => {
                if depth != CHANNELS as usize {
                    return Err(TextureError::UnsupportedFormat);
                }
                if width > u16::MAX as usize || height > u16::MAX as usize {
                    return Err(TextureError::TooLarge);
                }
                let size = staging_size(width as u16, height as u16);
                if data.len() as u64 != size {
                    return Err(TextureError::Decode);
                }
                match Texture::new(ids, width as u16, height as u16, TextureFormat::R8g8b8a8Unorm) {
                    Ok(texture) => Ok(LoadedTexture { texture: Texture { uploaded: false, ..texture }, pixels: data }),
                    Err(e) => Err(e),
                }
            },
        }
    }

    /// Decodes the image file that `bytes` holds and makes a texture from it.
    /// Its pixels wait for upload.
    pub fn from_bytes(ids: &mut TextureIds, bytes: &[u8]) -> (r: Result<LoadedTexture, TextureError>)
        ensures
            match r {
                Ok(loaded) => {
                    &&& rejection(old(ids).issued(), decoded_image(bytes@)).is_none()
                    &&& is_loaded_from(loaded, old(ids).issued(), decoded_image(bytes@))
                    &&& final(ids).issued() == old(ids).issued() + 1
                },
                Err(e) => {
                    &&& rejection(old(ids).issued(), decoded_image(bytes@)) == Some(e)
                    &&& *final(ids) == *old(ids)
                },
            },
    {
        let image = decode(bytes);
        Texture::from_decoded(ids, image)
    }
}

} // verus!
