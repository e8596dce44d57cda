use rr_launcher::sniff::{classify, media_kind_of_extension, MediaKind};

/// A 1 by 1 RGB PNG.
const PNG_1X1: [u8; 69] = [
    0x89, 0x50, 0x4e, 0x47, 0x0d, 0x0a, 0x1a, 0x0a, 0x00, 0x00, 0x00, 0x0d, 0x49, 0x48, 0x44, 0x52,
    0x00, 0x00, 0x00, 0x01, 0x00, 0x00, 0x00, 0x01, 0x08, 0x02, 0x00, 0x00, 0x00, 0x90, 0x77, 0x53,
    0xde, 0x00, 0x00, 0x00, 0x0c, 0x49, 0x44, 0x41, 0x54, 0x78, 0xda, 0x63, 0x60, 0x64, 0x62, 0x06,
    0x00, 0x00, 0x0e, 0x00, 0x07, 0xe9, 0x92, 0x37, 0xd4, 0x00, 0x00, 0x00, 0x00, 0x49, 0x45, 0x4e,
    0x44, 0xae, 0x42, 0x60, 0x82,
];

/// The file type box of an MPEG-4 container: size 24, `ftyp`, brand `isom`.
const MP4_FTYP: [u8; 24] = [
    0x00, 0x00, 0x00, 0x18, b'f', b't', b'y', b'p', b'i', b's', b'o', b'm', 0x00, 0x00, 0x02, 0x00,
    b'i', b's', b'o', b'm', b'i', b's', b'o', b'2',
];

#[test]
fn png_fixture_is_a_static_image() {
    assert_eq!(classify(&PNG_1X1), MediaKind::StaticImage);
}

#[test]
fn mp4_fixture_is_a_video() {
    assert_eq!(classify(&MP4_FTYP), MediaKind::Video);
}

#[test]
fn other_mp4_brands_are_videos() {
    let mut bytes = MP4_FTYP;
    bytes[8..12].copy_from_slice(b"mp42");
    assert_eq!(classify(&bytes), MediaKind::Video);
}

#[test]
fn jpeg_signature_is_a_static_image() {
    assert_eq!(classify(&[0xff, 0xd8, 0xff, 0xe0]), MediaKind::StaticImage);
}

#[test]
fn unrecognised_bytes_do_not_crash_and_go_to_the_image_decoder() {
    assert_eq!(classify(&[]), MediaKind::StaticImage);
    assert_eq!(classify(&[0; 1000]), MediaKind::StaticImage);
    assert_eq!(classify(b"plain text"), MediaKind::StaticImage);
}

#[test]
fn only_the_mp4_extension_means_video() {
    assert_eq!(media_kind_of_extension("mp4"), MediaKind::Video);
    assert_eq!(media_kind_of_extension("png"), MediaKind::StaticImage);
    assert_eq!(media_kind_of_extension("MP4"), MediaKind::StaticImage);
    assert_eq!(media_kind_of_extension("mp4 "), MediaKind::StaticImage);
    assert_eq!(media_kind_of_extension("m4v"), MediaKind::StaticImage);
    assert_eq!(media_kind_of_extension(""), MediaKind::StaticImage);
}
