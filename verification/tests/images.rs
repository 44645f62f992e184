use sprite_game::texture_region::{decode_image, is_decodable_layout};

/// A 2x2 RGB image, 8 bits per sample: red, green / blue, (10, 20, 30).
const SMALL_PNG: [u8; 76] = [
    137, 80, 78, 71, 13, 10, 26, 10, 0, 0, 0, 13, 73, 72, 68, 82, 0, 0, 0, 2, 0, 0, 0, 2, 8, 2,
    0, 0, 0, 253, 212, 154, 115, 0, 0, 0, 19, 73, 68, 65, 84, 120, 156, 99, 248, 207, 192, 192,
    0, 194, 12, 255, 185, 68, 228, 0, 26, 88, 3, 58, 86, 99, 162, 60, 0, 0, 0, 0, 73, 69, 78,
    68, 174, 66, 96, 130,
];

#[test]
fn decodes_size_and_pixels() {
    let img = decode_image(&SMALL_PNG).expect("a valid PNG image");
    assert_eq!(img.width, 2);
    assert_eq!(img.height, 2);
    assert_eq!(img.pixels, vec![255, 0, 0, 0, 255, 0, 0, 0, 255, 10, 20, 30]);
}

#[test]
fn rejects_bytes_that_are_not_png() {
    assert!(decode_image(&[]).is_none());
    assert!(decode_image(b"not an image").is_none());
}

#[test]
fn rejects_truncated_png() {
    assert!(decode_image(&SMALL_PNG[..40]).is_none());
}


#[test]
fn small_png_has_a_decodable_layout() {
    assert!(is_decodable_layout(&SMALL_PNG));
}

#[test]
fn colour_type_and_depth_must_go_together() {
    // RGB at bit depth 1, interlaced: a header the PNG specification forbids.
    let mut bytes = SMALL_PNG;
    bytes[24] = 1;
    bytes[28] = 1;
    assert!(!is_decodable_layout(&bytes));
    assert!(decode_image(&bytes).is_none());
}

#[test]
fn second_header_is_refused() {
    // Insert a copy of the IHDR chunk (bytes 8..33) after the first one.
    let mut bytes = SMALL_PNG[..33].to_vec();
    bytes.extend_from_slice(&SMALL_PNG[8..33]);
    bytes.extend_from_slice(&SMALL_PNG[33..]);
    assert!(!is_decodable_layout(&bytes));
    assert!(decode_image(&bytes).is_none());
}

#[test]
fn palette_after_image_data_is_refused() {
    // A PLTE chunk (empty, any checksum) placed after IDAT and before IEND.
    let iend_at = SMALL_PNG.len() - 12;
    let mut bytes = SMALL_PNG[..iend_at].to_vec();
    bytes.extend_from_slice(&[0, 0, 0, 0, 80, 76, 84, 69, 0, 0, 0, 0]);
    bytes.extend_from_slice(&SMALL_PNG[iend_at..]);
    assert!(!is_decodable_layout(&bytes));
    // Before the image data it is allowed by the layout.
    let mut early = SMALL_PNG[..33].to_vec();
    early.extend_from_slice(&[0, 0, 0, 0, 80, 76, 84, 69, 0, 0, 0, 0]);
    early.extend_from_slice(&SMALL_PNG[33..]);
    assert!(is_decodable_layout(&early));
}

#[test]
fn zero_width_is_refused() {
    let mut bytes = SMALL_PNG;
    bytes[19] = 0;
    assert!(!is_decodable_layout(&bytes));
}
