use imgpipe::processor::ImageType;

#[test]
fn png_magic_detected() {
    let mut data = vec![0x89u8, 0x50, 0x4e, 0x47, 0x0d, 0x0a, 0x1a, 0x0a];
    data.extend_from_slice(&[0u8; 16]);
    assert_eq!(ImageType::detect_image_format(&data), Some(ImageType::Png));
}

#[test]
fn jpeg_magic_detected() {
    let data = vec![0xffu8, 0xd8, 0xff, 0xe0, 0x00, 0x10];
    assert_eq!(ImageType::detect_image_format(&data), Some(ImageType::Jpeg));
}

#[test]
fn jpeg_magic_alone_detected() {
    let data = vec![0xffu8, 0xd8, 0xff];
    assert_eq!(ImageType::detect_image_format(&data), Some(ImageType::Jpeg));
}

#[test]
fn webp_magic_detected() {
    let mut data = b"RIFF".to_vec();
    data.extend_from_slice(&[0x10, 0x00, 0x00, 0x00]);
    data.extend_from_slice(b"WEBP");
    data.extend_from_slice(&[0u8; 8]);
    assert_eq!(ImageType::detect_image_format(&data), Some(ImageType::WebP));
}

#[test]
fn riff_without_webp_form_rejected() {
    let mut data = b"RIFF".to_vec();
    data.extend_from_slice(&[0x10, 0x00, 0x00, 0x00]);
    data.extend_from_slice(b"WAVE");
    data.extend_from_slice(&[0u8; 8]);
    assert_eq!(ImageType::detect_image_format(&data), None);
}

#[test]
fn random_bytes_rejected() {
    let data = vec![0x12u8, 0x34, 0x56, 0x78, 0x9a, 0xbc, 0xde, 0xf0];
    assert_eq!(ImageType::detect_image_format(&data), None);
}

#[test]
fn short_buffer_rejected() {
    assert_eq!(ImageType::detect_image_format(&[]), None);
    assert_eq!(ImageType::detect_image_format(&[0x89, 0x50]), None);
}

#[test]
fn svg_tag_detected() {
    let data = b"<svg xmlns=\"http://www.w3.org/2000/svg\"></svg>";
    assert_eq!(ImageType::detect_image_format(data), Some(ImageType::Svg));
}

#[test]
fn xml_prolog_with_leading_whitespace_detected() {
    let data = b"  \t\r\n <?xml version=\"1.0\"?><svg></svg>";
    assert_eq!(ImageType::detect_image_format(data), Some(ImageType::Svg));
}

#[test]
fn svg_after_other_text_rejected() {
    let data = b"hello <svg></svg>";
    assert_eq!(ImageType::detect_image_format(data), None);
}

#[test]
fn svg_marker_past_scan_window_rejected() {
    let mut data = vec![b' '; 99];
    data.extend_from_slice(b"<svg></svg>");
    assert_eq!(ImageType::detect_image_format(&data), None);
}

#[test]
fn svg_marker_at_window_edge_detected() {
    let mut data = vec![b' '; 95];
    data.extend_from_slice(b"<svg></svg>");
    assert_eq!(ImageType::detect_image_format(&data), Some(ImageType::Svg));
}

#[test]
fn mime_strings() {
    assert_eq!(ImageType::Png.to_mime(), "image/png");
    assert_eq!(ImageType::Jpeg.to_mime(), "image/jpeg");
    assert_eq!(ImageType::WebP.to_mime(), "image/webp");
    assert_eq!(ImageType::Svg.to_mime(), "image/svg+xml");
    assert_eq!(ImageType::Unknown.to_mime(), "application/octet-stream");
}

#[test]
fn format_names() {
    assert_eq!(ImageType::from_name("png"), ImageType::Png);
    assert_eq!(ImageType::from_name("jpg"), ImageType::Jpeg);
    assert_eq!(ImageType::from_name("jpeg"), ImageType::Jpeg);
    assert_eq!(ImageType::from_name("webp"), ImageType::WebP);
    assert_eq!(ImageType::from_name("svg"), ImageType::Svg);
    assert_eq!(ImageType::from_name("gif"), ImageType::Unknown);
    assert_eq!(ImageType::from_name(""), ImageType::Unknown);
    assert_eq!(ImageType::from_name("PNG"), ImageType::Unknown);
}
