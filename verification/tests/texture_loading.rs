use image_example::texture::{
    checked_texture_byte_len, image_extent, texture_byte_len, texture_error_from_png, Texture,
    TextureError,
};

fn encode(width: u32, height: u32, color: png::ColorType, data: &[u8]) -> Vec<u8> {
    let mut out: Vec<u8> = Vec::new();
    {
        let mut enc = png::Encoder::new(&mut out, width, height);
        enc.set_color(color);
        enc.set_depth(png::BitDepth::Eight);
        let mut w = enc.write_header().unwrap();
        w.write_image_data(data).unwrap();
        w.finish().unwrap();
    }
    out
}

fn crc32(bytes: &[u8]) -> u32 {
    let mut crc: u32 = 0xffff_ffff;
    for &b in bytes {
        crc ^= b as u32;
        for _ in 0..8 {
            let mask = (crc & 1).wrapping_neg();
            crc = (crc >> 1) ^ (0xedb8_8320 & mask);
        }
    }
    !crc
}

fn chunk(kind: &[u8; 4], data: &[u8]) -> Vec<u8> {
    let mut out = (data.len() as u32).to_be_bytes().to_vec();
    let mut body = kind.to_vec();
    body.extend_from_slice(data);
    out.extend_from_slice(&body);
    out.extend_from_slice(&crc32(&body).to_be_bytes());
    out
}

/// A PNG whose header claims a `width` x `height` RGBA image, with an empty image data chunk.
fn header_only(width: u32, height: u32) -> Vec<u8> {
    let mut out = vec![0x89, b'P', b'N', b'G', 0x0d, 0x0a, 0x1a, 0x0a];
    let mut ihdr = width.to_be_bytes().to_vec();
    ihdr.extend_from_slice(&height.to_be_bytes());
    ihdr.extend_from_slice(&[8, 6, 0, 0, 0]);
    out.extend(chunk(b"IHDR", &ihdr));
    out.extend(chunk(b"IDAT", &[]));
    out.extend(chunk(b"IEND", &[]));
    out
}

#[test]
fn byte_lengths() {
    assert_eq!(texture_byte_len(2, 3), 24);
    assert_eq!(texture_byte_len(0, 100), 0);
    assert_eq!(checked_texture_byte_len(256, 256), Some(262_144));
    assert_eq!(checked_texture_byte_len(0x8000, 0x7fff), Some(0xfffe_0000));
    assert_eq!(checked_texture_byte_len(0x8000, 0x8000), None);
    assert_eq!(checked_texture_byte_len(u32::MAX, u32::MAX), None);
}

#[test]
fn extent_has_depth_one() {
    assert_eq!(image_extent(640, 480), [640, 480, 1]);
}

#[test]
fn decodes_rgba_pixels() {
    let data: Vec<u8> = (1..=16).collect();
    let png_bytes = encode(2, 2, png::ColorType::Rgba, &data);
    let t = Texture::from_png(&png_bytes).unwrap();
    assert_eq!((t.width, t.height), (2, 2));
    assert_eq!(t.pixels, data);
}

#[test]
fn rgb_image_leaves_the_rest_zeroed() {
    let png_bytes = encode(1, 1, png::ColorType::Rgb, &[10, 20, 30]);
    let t = Texture::from_png(&png_bytes).unwrap();
    assert_eq!((t.width, t.height), (1, 1));
    assert_eq!(t.pixels, vec![10, 20, 30, 0]);
}

#[test]
fn garbage_is_invalid() {
    assert_eq!(Texture::from_png(b"not a png").unwrap_err(), TextureError::InvalidPng);
    assert_eq!(Texture::from_png(&[]).unwrap_err(), TextureError::InvalidPng);
}

#[test]
fn truncated_image_data_is_invalid() {
    assert_eq!(Texture::from_png(&header_only(4, 4)).unwrap_err(), TextureError::InvalidPng);
}

#[test]
fn huge_image_is_too_large() {
    assert_eq!(Texture::from_png(&header_only(0x8000, 0x8000)).unwrap_err(), TextureError::TooLarge);
}

#[test]
fn decoder_errors_map_to_invalid_png() {
    let err = png::Decoder::new(std::io::Cursor::new(&b"xx"[..])).read_info().err().unwrap();
    assert_eq!(texture_error_from_png(err), TextureError::InvalidPng);
}
