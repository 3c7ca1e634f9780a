use image_store::ApiError;
use image_store::normalize_payload;

use image::GenericImageView;

fn png_bytes(width: u32, height: u32) -> Vec<u8> {
    let img = image::RgbImage::from_fn(width, height, |x, y| {
        image::Rgb([(x * 11 % 256) as u8, (y * 5 % 256) as u8, 31])
    });
    let mut cursor = std::io::Cursor::new(Vec::new());
    image::DynamicImage::ImageRgb8(img)
        .write_to(&mut cursor, image::ImageFormat::Png)
        .unwrap();
    cursor.into_inner()
}

#[test]
fn normalize_png_yields_canonical_webp() {
    let source = png_bytes(7, 3);
    let canonical = normalize_payload(&source).unwrap();
    // The canonical container signature, not the source's PNG signature.
    assert_eq!(&canonical[0..4], b"RIFF");
    assert_eq!(&canonical[8..12], b"WEBP");
    let decoded = image::load_from_memory(&canonical).unwrap();
    assert_eq!(decoded.dimensions(), (7, 3));
}

#[test]
fn normalize_accepts_formats_by_signature_not_declaration() {
    // A BMP payload: a format the adapter supports, recognized purely from
    // its own signature since no declared type is ever passed in.
    let img = image::RgbImage::from_fn(6, 4, |_, _| image::Rgb([1, 2, 3]));
    let mut cursor = std::io::Cursor::new(Vec::new());
    image::DynamicImage::ImageRgb8(img)
        .write_to(&mut cursor, image::ImageFormat::Bmp)
        .unwrap();
    let canonical = normalize_payload(&cursor.into_inner()).unwrap();
    assert_eq!(&canonical[8..12], b"WEBP");
}

#[test]
fn normalize_rejects_unrecognized_signature() {
    let garbage = vec![0xde, 0xad, 0xbe, 0xef, 0x00, 0x11, 0x22, 0x33];
    let r = normalize_payload(&garbage);
    match r {
        Err(ApiError::UnreadableInput(reason)) => assert!(!reason.is_empty()),
        other => panic!("expected unreadable input, got {:?}", other),
    }
}

#[test]
fn normalize_rejects_empty_payload() {
    let r = normalize_payload(&Vec::new());
    assert!(matches!(r, Err(ApiError::UnreadableInput(_))));
}

#[test]
fn normalize_rejects_truncated_png_as_invalid() {
    let whole = png_bytes(16, 16);
    let truncated = whole[..20].to_vec();
    let r = normalize_payload(&truncated);
    match r {
        Err(ApiError::InvalidImage(reason)) => assert!(!reason.is_empty()),
        other => panic!("expected invalid image, got {:?}", other),
    }
}

#[test]
fn normalize_is_deterministic() {
    let source = png_bytes(5, 9);
    let first = normalize_payload(&source).unwrap();
    let second = normalize_payload(&source).unwrap();
    assert_eq!(first, second);
}
