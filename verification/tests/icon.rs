use parados::icon::decode_icon;

fn png(width: u32, height: u32) -> (Vec<u8>, Vec<u8>) {
    let mut img = image::RgbaImage::new(width, height);
    for (x, y, p) in img.enumerate_pixels_mut() {
        *p = image::Rgba([x as u8, y as u8, 7, 255]);
    }
    let raw = img.clone().into_raw();
    let mut bytes = Vec::new();
    img.write_to(&mut std::io::Cursor::new(&mut bytes), image::ImageFormat::Png).unwrap();
    (bytes, raw)
}

#[test]
fn decodes_a_png() {
    let (bytes, raw) = png(3, 2);
    let icon = decode_icon(&bytes).expect("decodes");
    assert_eq!((icon.width, icon.height), (3, 2));
    assert_eq!(icon.rgba, raw);
    assert_ne!(icon.rgba, bytes);
    assert_eq!(icon.rgba.len(), 4 * icon.width as usize * icon.height as usize);
}

#[test]
fn garbage_is_no_icon() {
    assert!(decode_icon(b"not an image").is_none());
    assert!(decode_icon(&[]).is_none());
}
