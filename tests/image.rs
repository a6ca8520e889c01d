use math::image::{checkerboard_png, png_from_rgba, CHECKERBOARD_SIDE};

#[test]
fn checkerboard_is_four_by_four_black_and_white() {
    let png = checkerboard_png();
    assert_eq!(png.w, CHECKERBOARD_SIDE);
    assert_eq!(png.h, 4);
    let expected: [u8; 64] = [
        0xFF, 0xFF, 0xFF, 0xFF, 0x00, 0x00, 0x00, 0xFF, 0xFF, 0xFF, 0xFF, 0xFF, 0x00, 0x00, 0x00, 0xFF,
        0x00, 0x00, 0x00, 0xFF, 0xFF, 0xFF, 0xFF, 0xFF, 0x00, 0x00, 0x00, 0xFF, 0xFF, 0xFF, 0xFF, 0xFF,
        0xFF, 0xFF, 0xFF, 0xFF, 0x00, 0x00, 0x00, 0xFF, 0xFF, 0xFF, 0xFF, 0xFF, 0x00, 0x00, 0x00, 0xFF,
        0x00, 0x00, 0x00, 0xFF, 0xFF, 0xFF, 0xFF, 0xFF, 0x00, 0x00, 0x00, 0xFF, 0xFF, 0xFF, 0xFF, 0xFF,
    ];
    assert_eq!(png.image_bytes, expected.to_vec());
}

#[test]
fn decoded_pixels_are_laid_out_one_after_another() {
    let pixels = vec![[1, 2, 3, 4], [5, 6, 7, 8], [9, 10, 11, 12]];
    let png = png_from_rgba(3, 1, &pixels);
    assert_eq!(png.w, 3);
    assert_eq!(png.h, 1);
    assert_eq!(png.image_bytes, vec![1, 2, 3, 4, 5, 6, 7, 8, 9, 10, 11, 12]);
}

#[test]
fn empty_image_has_no_bytes() {
    let png = png_from_rgba(0, 0, &Vec::new());
    assert_eq!((png.w, png.h), (0, 0));
    assert!(png.image_bytes.is_empty());
}

#[test]
fn oversized_width_wraps_like_a_cast() {
    let png = png_from_rgba(0x8000_0000, 1, &Vec::new());
    assert_eq!(png.w, i32::MIN);
}
