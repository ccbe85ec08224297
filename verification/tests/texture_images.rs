use tank::texture::{blank_texture, load_texture, texture_image};

// A 2x1 RGBA PNG: one red pixel, one half-transparent green pixel.
const TWO_PIXELS: [u8; 72] = [
    0x89, 0x50, 0x4e, 0x47, 0x0d, 0x0a, 0x1a, 0x0a, 0x00, 0x00, 0x00, 0x0d, 0x49, 0x48, 0x44, 0x52,
    0x00, 0x00, 0x00, 0x02, 0x00, 0x00, 0x00, 0x01, 0x08, 0x06, 0x00, 0x00, 0x00, 0xf4, 0x22, 0x7f,
    0x8a, 0x00, 0x00, 0x00, 0x0f, 0x49, 0x44, 0x41, 0x54, 0x78, 0x9c, 0x63, 0xf8, 0xcf, 0xc0, 0xf0,
    0x1f, 0x08, 0x1b, 0x00, 0x10, 0x79, 0x03, 0x7e, 0x7d, 0x63, 0xce, 0xd7, 0x00, 0x00, 0x00, 0x00,
    0x49, 0x45, 0x4e, 0x44, 0xae, 0x42, 0x60, 0x82,
];

#[test]
fn png_decodes_to_rgba_rows() {
    let image = load_texture(&TWO_PIXELS).expect("a valid PNG");
    assert_eq!((image.width, image.height, image.bytes_per_row), (2, 1, 8));
    assert_eq!(image.pixels, vec![255, 0, 0, 255, 0, 255, 0, 128]);
}

#[test]
fn bytes_that_are_not_png_give_nothing() {
    assert!(load_texture(&[]).is_none());
    assert!(load_texture(b"not a png at all").is_none());
    assert!(load_texture(&TWO_PIXELS[..40]).is_none());
}

#[test]
fn pixels_must_fill_the_image() {
    let image = texture_image(Some((2, 2, vec![7; 16]))).expect("fills a 2x2 image");
    assert_eq!(image.bytes_per_row, 8);
    assert!(texture_image(Some((2, 2, vec![7; 15]))).is_none());
    assert!(texture_image(Some((u32::MAX, 1, vec![]))).is_none());
    assert!(texture_image(Some((0, 5, vec![]))).is_some());
    assert!(texture_image(None).is_none());
}

#[test]
fn blank_texture_is_one_black_pixel() {
    let blank = blank_texture();
    assert_eq!((blank.width, blank.height, blank.bytes_per_row), (1, 1, 4));
    assert_eq!(blank.pixels, vec![0, 0, 0, 255]);
}
