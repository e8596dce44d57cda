use rr_launcher::decode::{
    can_resize, decode, decoded_from_outcome, resize, try_resize, DecodeError, DecoderReport,
    RawRaster,
};
use rr_launcher::raster::DecodedImage;

/// A 2 by 2 RGBA PNG: red, half-transparent green / transparent blue, (10, 20, 30, 40).
const RGBA_2X2: [u8; 79] = [
    0x89, 0x50, 0x4e, 0x47, 0x0d, 0x0a, 0x1a, 0x0a, 0x00, 0x00, 0x00, 0x0d, 0x49, 0x48, 0x44, 0x52,
    0x00, 0x00, 0x00, 0x02, 0x00, 0x00, 0x00, 0x02, 0x08, 0x06, 0x00, 0x00, 0x00, 0x72, 0xb6, 0x0d,
    0x24, 0x00, 0x00, 0x00, 0x16, 0x49, 0x44, 0x41, 0x54, 0x78, 0xda, 0x63, 0xf8, 0xcf, 0xc0, 0xf0,
    0x1f, 0x08, 0x1b, 0x18, 0x40, 0x34, 0x97, 0x88, 0x9c, 0x06, 0x00, 0x36, 0xa9, 0x04, 0xe1, 0x64,
    0xdb, 0x4d, 0x7e, 0x00, 0x00, 0x00, 0x00, 0x49, 0x45, 0x4e, 0x44, 0xae, 0x42, 0x60, 0x82,
];

/// A 2 by 1 greyscale PNG: black, then grey 200.
const GREY_2X1: [u8; 68] = [
    0x89, 0x50, 0x4e, 0x47, 0x0d, 0x0a, 0x1a, 0x0a, 0x00, 0x00, 0x00, 0x0d, 0x49, 0x48, 0x44, 0x52,
    0x00, 0x00, 0x00, 0x02, 0x00, 0x00, 0x00, 0x01, 0x08, 0x00, 0x00, 0x00, 0x00, 0xd1, 0x49, 0x20,
    0x56, 0x00, 0x00, 0x00, 0x0b, 0x49, 0x44, 0x41, 0x54, 0x78, 0xda, 0x63, 0x60, 0x38, 0x01, 0x00,
    0x00, 0xcb, 0x00, 0xc9, 0xfa, 0x6c, 0xb4, 0x8b, 0x00, 0x00, 0x00, 0x00, 0x49, 0x45, 0x4e, 0x44,
    0xae, 0x42, 0x60, 0x82,
];

/// A 1 by 1 RGB PNG without alpha: (1, 2, 3).
const RGB_1X1: [u8; 69] = [
    0x89, 0x50, 0x4e, 0x47, 0x0d, 0x0a, 0x1a, 0x0a, 0x00, 0x00, 0x00, 0x0d, 0x49, 0x48, 0x44, 0x52,
    0x00, 0x00, 0x00, 0x01, 0x00, 0x00, 0x00, 0x01, 0x08, 0x02, 0x00, 0x00, 0x00, 0x90, 0x77, 0x53,
    0xde, 0x00, 0x00, 0x00, 0x0c, 0x49, 0x44, 0x41, 0x54, 0x78, 0xda, 0x63, 0x60, 0x64, 0x62, 0x06,
    0x00, 0x00, 0x0e, 0x00, 0x07, 0xe9, 0x92, 0x37, 0xd4, 0x00, 0x00, 0x00, 0x00, 0x49, 0x45, 0x4e,
    0x44, 0xae, 0x42, 0x60, 0x82,
];

/// A 1 by 1 BMP, 24 bits per pixel, bottom-up: blue 3, green 2, red 1.
const BMP_1X1: [u8; 58] = [
    0x42, 0x4d, 0x3a, 0x00, 0x00, 0x00, 0x00, 0x00, 0x00, 0x00, 0x36, 0x00, 0x00, 0x00, 0x28, 0x00,
    0x00, 0x00, 0x01, 0x00, 0x00, 0x00, 0x01, 0x00, 0x00, 0x00, 0x01, 0x00, 0x18, 0x00, 0x00, 0x00,
    0x00, 0x00, 0x04, 0x00, 0x00, 0x00, 0x13, 0x0b, 0x00, 0x00, 0x13, 0x0b, 0x00, 0x00, 0x00, 0x00,
    0x00, 0x00, 0x00, 0x00, 0x00, 0x00, 0x03, 0x02, 0x01, 0x00,
];

/// A 1 by 1 GIF with a palette of black and white; its pixel is black.
const GIF_1X1: [u8; 35] = [
    0x47, 0x49, 0x46, 0x38, 0x39, 0x61, 0x01, 0x00, 0x01, 0x00, 0x80, 0x00, 0x00, 0x00, 0x00, 0x00,
    0xff, 0xff, 0xff, 0x2c, 0x00, 0x00, 0x00, 0x00, 0x01, 0x00, 0x01, 0x00, 0x00, 0x02, 0x02, 0x44,
    0x01, 0x00, 0x3b,
];

fn gradient(width: u32, height: u32) -> DecodedImage {
    let mut pixels = Vec::new();
    for y in 0..height {
        for x in 0..width {
            pixels.extend_from_slice(&[(x * 16) as u8, (y * 16) as u8, 7, 255]);
        }
    }
    DecodedImage::from_rgba(width, height, pixels).expect("buffer fits the dimensions")
}

#[test]
fn decodes_rgba_png_row_major_from_top_left() {
    let image = decode(&RGBA_2X2).expect("a valid PNG");
    assert_eq!(image.width(), 2);
    assert_eq!(image.height(), 2);
    assert_eq!(
        image.pixels().as_slice(),
        &[255, 0, 0, 255, 0, 255, 0, 128, 0, 0, 255, 0, 10, 20, 30, 40]
    );
    assert_eq!(image.pixel(1, 0), Some([0, 255, 0, 128]));
    assert_eq!(image.pixel(0, 1), Some([0, 0, 255, 0]));
    assert_eq!(image.pixel(2, 0), None);
    assert_eq!(image.pixel(0, 2), None);
}

#[test]
fn greyscale_source_is_upconverted_to_rgba() {
    let image = decode(&GREY_2X1).expect("a valid PNG");
    assert_eq!((image.width(), image.height()), (2, 1));
    assert_eq!(image.pixels().as_slice(), &[0, 0, 0, 255, 200, 200, 200, 255]);
}

#[test]
fn source_without_alpha_becomes_opaque() {
    let image = decode(&RGB_1X1).expect("a valid PNG");
    assert_eq!(image.into_raw(), vec![1, 2, 3, 255]);
}

#[test]
fn format_is_detected_from_content() {
    let image = decode(&BMP_1X1).expect("a valid BMP");
    assert_eq!((image.width(), image.height()), (1, 1));
    assert_eq!(image.into_raw(), vec![1, 2, 3, 255]);
}

#[test]
fn indexed_source_is_upconverted_to_rgba() {
    let image = decode(&GIF_1X1).expect("a valid GIF");
    assert_eq!((image.width(), image.height()), (1, 1));
    assert_eq!(image.into_raw(), vec![0, 0, 0, 255]);
}

#[test]
fn invalid_compressed_data_is_malformed_not_truncated() {
    let mut bytes = GIF_1X1;
    bytes[31] = 0xff;
    bytes[32] = 0xff;
    assert_eq!(decode(&bytes).err(), Some(DecodeError::Malformed));
}

#[test]
fn gif_cut_short_is_truncated() {
    assert_eq!(decode(&GIF_1X1[..25]).err(), Some(DecodeError::Truncated));
}

#[test]
fn bytes_of_no_raster_format_are_malformed() {
    assert_eq!(decode(b"certainly not an image").err(), Some(DecodeError::Malformed));
    assert_eq!(decode(&[]).err(), Some(DecodeError::Malformed));
}

#[test]
fn broken_header_is_malformed() {
    let mut bytes = RGBA_2X2.to_vec();
    bytes[12] = b'X';
    assert_eq!(decode(&bytes).err(), Some(DecodeError::Malformed));
}

#[test]
fn png_cut_short_is_truncated() {
    assert_eq!(decode(&RGBA_2X2[..50]).err(), Some(DecodeError::Truncated));
    assert_eq!(decode(&RGBA_2X2[..20]).err(), Some(DecodeError::Truncated));
}

#[test]
fn decoding_twice_gives_the_same_image() {
    let first = decode(&RGBA_2X2).expect("a valid PNG");
    let second = decode(&RGBA_2X2).expect("a valid PNG");
    assert_eq!(first.pixels(), second.pixels());
}

#[test]
fn decoder_outcome_is_checked_against_its_dimensions() {
    let fitting = RawRaster { width: 1, height: 2, pixels: vec![9; 8] };
    let image = decoded_from_outcome(Ok(fitting)).expect("eight bytes for two pixels");
    assert_eq!((image.width(), image.height()), (1, 2));

    let short = RawRaster { width: 1, height: 2, pixels: vec![9; 7] };
    assert_eq!(decoded_from_outcome(Ok(short)).err(), Some(DecodeError::Malformed));
    let long = RawRaster { width: 1, height: 2, pixels: vec![9; 9] };
    assert_eq!(decoded_from_outcome(Ok(long)).err(), Some(DecodeError::Malformed));
    let empty = RawRaster { width: 0, height: 2, pixels: vec![] };
    assert_eq!(decoded_from_outcome(Ok(empty)).err(), Some(DecodeError::Malformed));
}

#[test]
fn decoder_reports_map_to_errors() {
    let ran_out = DecoderReport::Io { end_of_input: true };
    assert_eq!(decoded_from_outcome(Err(ran_out)).err(), Some(DecodeError::Truncated));
    for report in [
        DecoderReport::Io { end_of_input: false },
        DecoderReport::Decoding,
        DecoderReport::Encoding,
        DecoderReport::Parameter,
        DecoderReport::Limits,
        DecoderReport::Unsupported,
    ] {
        assert_eq!(decoded_from_outcome(Err(report)).err(), Some(DecodeError::Malformed));
    }
}

#[test]
fn image_buffer_must_fit_dimensions() {
    assert!(DecodedImage::from_rgba(2, 2, vec![0; 16]).is_some());
    assert!(DecodedImage::from_rgba(2, 2, vec![0; 15]).is_none());
    assert!(DecodedImage::from_rgba(2, 2, vec![0; 17]).is_none());
    assert!(DecodedImage::from_rgba(0, 2, vec![]).is_none());
    assert!(DecodedImage::from_rgba(2, 0, vec![]).is_none());
    assert!(DecodedImage::from_rgba(u32::MAX, u32::MAX, vec![0; 4]).is_none());
}

#[test]
fn clone_keeps_the_image() {
    let image = gradient(3, 2);
    let copy = image.clone();
    assert_eq!((copy.width(), copy.height()), (3, 2));
    assert_eq!(copy.pixels(), image.pixels());
}

#[test]
fn resize_to_own_size_is_a_copy() {
    let image = gradient(5, 3);
    assert!(can_resize(&image, 5, 3));
    let same = resize(&image, 5, 3);
    assert_eq!((same.width(), same.height()), (5, 3));
    assert_eq!(same.pixels(), image.pixels());
}

#[test]
fn resize_keeps_the_aspect_ratio_within_the_target() {
    let image = gradient(8, 4);
    let half = try_resize(&image, 4, 4).expect("small buffers");
    assert_eq!((half.width(), half.height()), (4, 2));
    assert_eq!(half.pixels().len(), 4 * 2 * 4);
    let tall = try_resize(&image, 100, 2).expect("small buffers");
    assert_eq!((tall.width(), tall.height()), (4, 2));
    let larger = try_resize(&image, 16, 16).expect("small buffers");
    assert_eq!((larger.width(), larger.height()), (16, 8));
}

#[test]
fn resize_changes_the_pixels() {
    let image = gradient(8, 8);
    let small = try_resize(&image, 2, 2).expect("small buffers");
    assert_eq!((small.width(), small.height()), (2, 2));
    assert_ne!(small.pixels().as_slice(), &image.pixels()[..16]);
    // Opaque everywhere in, opaque everywhere out.
    assert_eq!(small.pixel(1, 1).map(|rgba| rgba[3]), Some(255));
}

#[test]
fn resize_to_nothing_leaves_one_pixel() {
    let image = gradient(8, 4);
    let dot = try_resize(&image, 0, 0).expect("small buffers");
    assert_eq!((dot.width(), dot.height()), (1, 1));
}

#[test]
fn resizing_twice_gives_the_same_bytes() {
    let image = gradient(9, 7);
    let first = try_resize(&image, 4, 4).expect("small buffers");
    let second = try_resize(&image, 4, 4).expect("small buffers");
    assert_eq!((first.width(), first.height()), (second.width(), second.height()));
    assert_eq!(first.pixels(), second.pixels());
}

#[test]
fn resize_refuses_buffers_beyond_the_machine() {
    let image = gradient(2, 2);
    assert!(!can_resize(&image, u32::MAX, u32::MAX));
    assert!(try_resize(&image, u32::MAX, u32::MAX).is_none());
}
