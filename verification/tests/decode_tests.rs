use imeji::img::decode;

fn encode_png(width: u32, height: u32) -> Vec<u8> {
    let img = image::RgbaImage::from_fn(width, height, |x, y| {
        image::Rgba([(x % 256) as u8, (y % 256) as u8, ((x + y) % 256) as u8, 255])
    });
    let mut cursor = std::io::Cursor::new(Vec::new());
    img.write_to(&mut cursor, image::ImageFormat::Png).unwrap();
    cursor.into_inner()
}

#[test]
fn decode_valid_png_yields_w_h_4_bytes() {
    let bytes = encode_png(3, 2);
    let img = decode(&bytes).unwrap();
    assert_eq!(img.width, 3);
    assert_eq!(img.height, 2);
    assert_eq!(img.rgba.len(), 3 * 2 * 4);
}

#[test]
fn decode_recovers_pixel_values() {
    let bytes = encode_png(4, 4);
    let img = decode(&bytes).unwrap();
    // pixel (2, 3) was encoded as (2, 3, 5, 255)
    let off = (3 * 4 + 2) * 4;
    assert_eq!(&img.rgba[off..off + 4], &[2, 3, 5, 255]);
    // the decoded buffer is nothing like the encoded stream
    assert_ne!(img.rgba, bytes);
}

#[test]
fn decode_larger_image() {
    let bytes = encode_png(100, 50);
    let img = decode(&bytes).unwrap();
    assert_eq!((img.width, img.height), (100, 50));
    assert_eq!(img.rgba.len(), 100 * 50 * 4);
}

#[test]
fn decode_malformed_bytes_fails() {
    assert!(decode(b"this is not an image").is_err());
}

#[test]
fn decode_empty_bytes_fails() {
    assert!(decode(&[]).is_err());
}

#[test]
fn decode_truncated_png_fails() {
    let mut bytes = encode_png(8, 8);
    bytes.truncate(16);
    assert!(decode(&bytes).is_err());
}
