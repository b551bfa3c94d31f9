use football_scoreboard::images::{decode_image, icon_pixels_or_blank, window_icon_rgba, ICON_BYTES};
use std::io::Cursor;

fn png_bytes() -> Vec<u8> {
    let img = image::RgbaImage::from_raw(2, 1, vec![255, 0, 0, 255, 0, 0, 255, 128]).unwrap();
    let mut bytes = Vec::new();
    image::DynamicImage::ImageRgba8(img)
        .write_to(&mut Cursor::new(&mut bytes), image::ImageFormat::Png)
        .unwrap();
    bytes
}

#[test]
fn decodes_uploaded_png() {
    let img = decode_image(&png_bytes()).expect("a png");
    assert_eq!((img.width, img.height), (2, 1));
    assert_eq!(img.rgba, vec![255, 0, 0, 255, 0, 0, 255, 128]);
}

#[test]
fn rejects_non_images() {
    assert!(decode_image(b"not an image").is_none());
    assert!(decode_image(&[]).is_none());
}

#[test]
fn window_icon_is_scaled_or_blank() {
    let icon = window_icon_rgba(&png_bytes());
    assert_eq!(icon.len(), ICON_BYTES);
    assert!(icon.iter().any(|&b| b != 0));
    let blank = window_icon_rgba(b"garbage");
    assert_eq!(blank.len(), ICON_BYTES);
    assert!(blank.iter().all(|&b| b == 0));
    assert_eq!(icon_pixels_or_blank(Some(vec![1, 2, 3])), vec![1, 2, 3]);
}

#[test]
fn decoded_pixels_hold_four_bytes_each() {
    let img = decode_image(&png_bytes()).unwrap();
    assert_eq!(img.rgba.len(), 4 * img.width as usize * img.height as usize);
}
