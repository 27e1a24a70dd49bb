use rt::texture::{checker_is_even, ImageTexture, TextureError};

#[test]
fn checker_parity() {
    assert!(checker_is_even(0, 0, 0));
    assert!(!checker_is_even(1, 0, 0));
    assert!(!checker_is_even(-1, 0, 0));
    assert!(checker_is_even(-1, -1, 0));
    assert!(checker_is_even(3, -5, 2));
    assert!(!checker_is_even(i32::MAX, 0, 0));
    assert!(checker_is_even(i32::MAX, i32::MAX, 0));
    assert!(!checker_is_even(i32::MIN, i32::MIN, i32::MAX));
}

#[test]
fn checker_neighbours_differ() {
    for x in -3..3 {
        for y in -3..3 {
            for z in -3..3 {
                let c = checker_is_even(x, y, z);
                assert_ne!(c, checker_is_even(x + 1, y, z));
                assert_ne!(c, checker_is_even(x, y + 1, z));
                assert_ne!(c, checker_is_even(x, y, z + 1));
            }
        }
    }
}

fn sample_texture() -> ImageTexture {
    // 3 x 2 pixels, row-major
    let data: Vec<u8> = (0..18u8).collect();
    ImageTexture::from_rgb8(3, 2, data).ok().unwrap()
}

#[test]
fn texel_lookup_and_clamping() {
    let t = sample_texture();
    assert_eq!((t.width(), t.height()), (3, 2));
    assert_eq!(t.texel(0, 0), [0, 1, 2]);
    assert_eq!(t.texel(2, 0), [6, 7, 8]);
    assert_eq!(t.texel(1, 1), [12, 13, 14]);
    assert_eq!(t.texel(7, 0), [6, 7, 8]);
    assert_eq!(t.texel(0, 9), [9, 10, 11]);
    assert_eq!(t.texel(u32::MAX, u32::MAX), [15, 16, 17]);
}

#[test]
fn from_rgb8_checks_length() {
    assert_eq!(ImageTexture::from_rgb8(2, 2, vec![0; 11]).err(), Some(TextureError::Truncated));
    assert!(ImageTexture::from_rgb8(2, 2, vec![0; 12]).is_ok());
    assert!(ImageTexture::from_rgb8(2, 2, vec![0; 13]).is_ok());
    assert!(ImageTexture::from_rgb8(0, 0, vec![]).is_ok());
    assert_eq!(ImageTexture::from_rgb8(u32::MAX, u32::MAX, vec![0; 3]).err(), Some(TextureError::Truncated));
}

fn png_bytes() -> Vec<u8> {
    let data: Vec<u8> = vec![255, 0, 0, 0, 255, 0, 0, 0, 255, 9, 8, 7];
    let img = image::RgbImage::from_raw(2, 2, data).unwrap();
    let mut out = std::io::Cursor::new(Vec::new());
    img.write_to(&mut out, image::ImageFormat::Png).unwrap();
    out.into_inner()
}

#[test]
fn decode_png() {
    let bytes = png_bytes();
    let t = ImageTexture::decode(&bytes, "png").ok().unwrap();
    assert_eq!((t.width(), t.height()), (2, 2));
    assert_eq!(t.texel(0, 0), [255, 0, 0]);
    assert_eq!(t.texel(1, 0), [0, 255, 0]);
    assert_eq!(t.texel(0, 1), [0, 0, 255]);
    assert_eq!(t.texel(1, 1), [9, 8, 7]);
    assert!(ImageTexture::decode(&bytes, "PNG").is_ok());
}

#[test]
fn decode_refusals() {
    let bytes = png_bytes();
    assert_eq!(ImageTexture::decode(&bytes, "").err(), Some(TextureError::Undecodable));
    assert_eq!(ImageTexture::decode(&bytes, "nosuchformat").err(), Some(TextureError::Undecodable));
    assert_eq!(ImageTexture::decode(b"not an image", "png").err(), Some(TextureError::Undecodable));
    assert_eq!(ImageTexture::decode(&bytes, "jpg").err(), Some(TextureError::Undecodable));
}
