use oxide::images::{main_window_icon, splash_finished, splash_logo_size, SPLASH_MILLIS};

fn encoded(format: image::ImageFormat, w: u32, h: u32) -> Vec<u8> {
    let img = image::RgbaImage::from_pixel(w, h, image::Rgba([10, 20, 30, 255]));
    let mut buf = std::io::Cursor::new(Vec::new());
    image::DynamicImage::ImageRgba8(img).write_to(&mut buf, format).unwrap();
    buf.into_inner()
}

#[test]
fn icon_is_decoded_to_rgba() {
    let bytes = encoded(image::ImageFormat::Ico, 4, 2);
    let icon = main_window_icon(&bytes).expect("icon");
    assert_eq!((icon.width, icon.height), (4, 2));
    assert_eq!(icon.rgba.len(), 4 * 4 * 2);
    assert_eq!(&icon.rgba[0..4], &[10, 20, 30, 255]);
    assert!(main_window_icon(b"not an icon").is_none());
}

#[test]
fn splash_logo_size_is_read() {
    let bytes = encoded(image::ImageFormat::Png, 7, 3);
    assert_eq!(splash_logo_size(&bytes), Some((7, 3)));
    assert_eq!(splash_logo_size(&[1, 2, 3]), None);
}

#[test]
fn splash_lasts_five_seconds() {
    assert_eq!(SPLASH_MILLIS, 5000);
    assert!(!splash_finished(4999));
    assert!(splash_finished(5000));
}
