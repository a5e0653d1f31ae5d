use render_core::graphics::pass::{CopyPass, TextureCopy};
use render_core::graphics::texture::{
    AddressMode, Decoded, Filter, Texture, TextureError, TextureFormat, TextureIds,
};

/// A 2x2 PNG of 8-bit RGBA pixels.
const PNG_RGBA: [u8; 80] = [137, 80, 78, 71, 13, 10, 26, 10, 0, 0, 0, 13, 73, 72, 68, 82, 0, 0, 0, 2, 0, 0, 0, 2, 8, 6, 0, 0, 0, 114, 182, 13, 36, 0, 0, 0, 23, 73, 68, 65, 84, 120, 156, 99, 248, 207, 192, 240, 31, 8, 27, 24, 128, 180, 3, 151, 136, 156, 6, 0, 55, 233, 5, 33, 128, 183, 18, 74, 0, 0, 0, 0, 73, 69, 78, 68, 174, 66, 96, 130];

/// A 2x1 PNG of 8-bit RGB pixels.
const PNG_RGB: [u8; 72] = [137, 80, 78, 71, 13, 10, 26, 10, 0, 0, 0, 13, 73, 72, 68, 82, 0, 0, 0, 2, 0, 0, 0, 1, 8, 2, 0, 0, 0, 123, 64, 232, 221, 0, 0, 0, 15, 73, 68, 65, 84, 120, 156, 99, 248, 207, 192, 192, 240, 159, 1, 0, 7, 255, 1, 255, 1, 127, 137, 167, 0, 0, 0, 0, 73, 69, 78, 68, 174, 66, 96, 130];

#[test]
fn ids_are_handed_out_in_order() {
    let mut ids = TextureIds::new();
    assert_eq!(ids.remaining(), 65536);
    let a = Texture::new(&mut ids, 4, 4, TextureFormat::R8g8b8a8Unorm).unwrap();
    let b = Texture::new(&mut ids, 4, 4, TextureFormat::R8g8b8a8Unorm).unwrap();
    let c = Texture::new(&mut ids, 1, 1, TextureFormat::B8g8r8a8Unorm).unwrap();
    assert_eq!(a.id, 0);
    assert_eq!(b.id, 1);
    assert_eq!(c.id, 2);
    assert_eq!(ids.remaining(), 65533);
}

#[test]
fn new_texture_needs_no_upload() {
    let mut ids = TextureIds::new();
    let texture = Texture::new(&mut ids, 320, 180, TextureFormat::R8g8b8a8Unorm).unwrap();
    assert!(texture.uploaded);
    assert_eq!(texture.width(), 320);
    assert_eq!(texture.height(), 180);
    assert_eq!(texture.format, TextureFormat::R8g8b8a8Unorm);
}

#[test]
fn equality_is_by_id_alone() {
    let mut ids = TextureIds::new();
    let a = Texture::new(&mut ids, 4, 4, TextureFormat::R8g8b8a8Unorm).unwrap();
    let b = Texture::new(&mut ids, 4, 4, TextureFormat::R8g8b8a8Unorm).unwrap();
    let mut a_pending = a;
    a_pending.uploaded = false;
    assert!(a == a_pending);
    assert!(a != b);
}

#[test]
fn staging_buffer_holds_four_bytes_per_pixel() {
    let mut ids = TextureIds::new();
    let texture = Texture::new(&mut ids, 320, 180, TextureFormat::R8g8b8a8Unorm).unwrap();
    let resources = texture.resources();
    assert_eq!(resources.staging_size, 320 * 180 * 4);
    assert_eq!(resources.image.width, 320);
    assert_eq!(resources.image.height, 180);
    assert_eq!(resources.image.format, TextureFormat::R8g8b8a8Unorm);
    assert_eq!(resources.image.layer_count_or_depth, 1);
    assert_eq!(resources.image.num_levels, 1);
    assert!(resources.image.sampler);
    assert!(resources.image.color_target);
    assert!(!resources.image.multisampled);
    assert_eq!(resources.sampler.min_filter, Filter::Nearest);
    assert_eq!(resources.sampler.mag_filter, Filter::Nearest);
    assert_eq!(resources.sampler.mipmap_mode, Filter::Nearest);
    assert_eq!(resources.sampler.address_mode_u, AddressMode::ClampToEdge);
    assert_eq!(resources.sampler.address_mode_v, AddressMode::ClampToEdge);
    assert_eq!(resources.sampler.address_mode_w, AddressMode::ClampToEdge);
    assert!(!resources.sampler.enable_compare);
}

#[test]
fn largest_staging_buffer_that_fits() {
    let mut ids = TextureIds::new();
    // 32767 * 32768 * 4 = 4294836224 fits in 32 bits, 32768 * 32768 * 4 does not.
    let fits = Texture::new(&mut ids, 32767, 32768, TextureFormat::R8g8b8a8Unorm).unwrap();
    assert_eq!(fits.resources().staging_size, 4294836224);
    let too_large = Texture::new(&mut ids, 32768, 32768, TextureFormat::R8g8b8a8Unorm);
    assert_eq!(too_large.err(), Some(TextureError::TooLarge));
    assert_eq!(ids.remaining(), 65535);
}

#[test]
fn ids_run_out_after_65536_textures() {
    let mut ids = TextureIds::new();
    let mut last = 0;
    for _ in 0..65536 {
        last = Texture::new(&mut ids, 1, 1, TextureFormat::R8g8b8a8Unorm).unwrap().id;
    }
    assert_eq!(last, 65535);
    assert_eq!(ids.remaining(), 0);
    let none = Texture::new(&mut ids, 1, 1, TextureFormat::R8g8b8a8Unorm);
    assert_eq!(none.err(), Some(TextureError::IdsExhausted));
    assert_eq!(ids.remaining(), 0);
}

#[test]
fn upload_copies_once() {
    let mut ids = TextureIds::new();
    let mut texture = Texture::new(&mut ids, 8, 4, TextureFormat::R8g8b8a8Unorm).unwrap();
    texture.uploaded = false;
    let mut pass = CopyPass::new();
    texture.upload(&mut pass);
    assert!(texture.uploaded);
    assert_eq!(pass.texture_copies.len(), 1);
    texture.upload(&mut pass);
    assert!(texture.uploaded);
    assert_eq!(pass.texture_copies.len(), 1);
    assert_eq!(pass.buffer_copies.len(), 0);
    assert_eq!(
        pass.texture_copies[0],
        TextureCopy {
            texture: texture.id,
            offset: 0,
            pixels_per_row: 8,
            rows_per_layer: 4,
            mip_level: 0,
            x: 0,
            y: 0,
            width: 8,
            height: 4,
            depth: 1,
            cycle: false,
        }
    );
}

#[test]
fn upload_of_gpu_resident_texture_copies_nothing() {
    let mut ids = TextureIds::new();
    let mut texture = Texture::new(&mut ids, 8, 4, TextureFormat::R8g8b8a8Unorm).unwrap();
    let mut pass = CopyPass::new();
    texture.upload(&mut pass);
    assert!(texture.uploaded);
    assert_eq!(pass.texture_copies.len(), 0);
}

#[test]
fn from_bytes_decodes_rgba_png() {
    let mut ids = TextureIds::new();
    let loaded = Texture::from_bytes(&mut ids, &PNG_RGBA).unwrap();
    assert_eq!(loaded.texture.id, 0);
    assert!(!loaded.texture.uploaded);
    assert_eq!(loaded.texture.width(), 2);
    assert_eq!(loaded.texture.height(), 2);
    assert_eq!(loaded.texture.format, TextureFormat::R8g8b8a8Unorm);
    assert_eq!(
        loaded.pixels,
        vec![255, 0, 0, 255, 0, 255, 0, 128, 0, 0, 255, 64, 10, 20, 30, 40]
    );
    assert_eq!(ids.remaining(), 65535);
}

#[test]
fn from_bytes_refuses_rgb_png() {
    let mut ids = TextureIds::new();
    let refused = Texture::from_bytes(&mut ids, &PNG_RGB);
    assert_eq!(refused.err(), Some(TextureError::UnsupportedFormat));
    assert_eq!(ids.remaining(), 65536);
}

#[test]
fn from_bytes_refuses_what_is_no_image() {
    let mut ids = TextureIds::new();
    let refused = Texture::from_bytes(&mut ids, &[1, 2, 3, 4, 5]);
    assert_eq!(refused.err(), Some(TextureError::Decode));
    let refused = Texture::from_bytes(&mut ids, &[]);
    assert_eq!(refused.err(), Some(TextureError::Decode));
    assert_eq!(ids.remaining(), 65536);
}

#[test]
fn from_decoded_checks_in_order() {
    let mut ids = TextureIds::new();
    let failed = Texture::from_decoded(&mut ids, Decoded::Failed);
    assert_eq!(failed.err(), Some(TextureError::Decode));
    let floats = Texture::from_decoded(&mut ids, Decoded::Floats);
    assert_eq!(floats.err(), Some(TextureError::UnsupportedFormat));
    let grey = Texture::from_decoded(
        &mut ids,
        Decoded::Bytes { width: 1, height: 1, depth: 1, data: vec![7] },
    );
    assert_eq!(grey.err(), Some(TextureError::UnsupportedFormat));
    let wide = Texture::from_decoded(
        &mut ids,
        Decoded::Bytes { width: 65536, height: 1, depth: 4, data: vec![] },
    );
    assert_eq!(wide.err(), Some(TextureError::TooLarge));
    let short = Texture::from_decoded(
        &mut ids,
        Decoded::Bytes { width: 2, height: 1, depth: 4, data: vec![1, 2, 3, 4] },
    );
    assert_eq!(short.err(), Some(TextureError::Decode));
    assert_eq!(ids.remaining(), 65536);
    let taken = Texture::from_decoded(
        &mut ids,
        Decoded::Bytes { width: 1, height: 2, depth: 4, data: vec![1, 2, 3, 4, 5, 6, 7, 8] },
    )
    .unwrap();
    assert_eq!(taken.texture.id, 0);
    assert_eq!(taken.texture.width(), 1);
    assert_eq!(taken.texture.height(), 2);
    assert!(!taken.texture.uploaded);
    assert_eq!(taken.pixels, vec![1, 2, 3, 4, 5, 6, 7, 8]);
}
