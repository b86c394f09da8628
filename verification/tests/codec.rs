use preview_generator::codec::encode_image;
use preview_generator::options::OutputFormat;
use preview_generator::raster::RgbImage;

fn one_pixel() -> RgbImage {
    RgbImage { width: 1, height: 1, data: vec![10, 20, 30] }
}

#[test]
fn png_encoding_produces_png_bytes() {
    let bytes = encode_image(OutputFormat::Png, &one_pixel()).unwrap();
    assert_eq!(&bytes[..8], &[137, 80, 78, 71, 13, 10, 26, 10]);
}

#[test]
fn jpeg_encoding_produces_jpeg_bytes() {
    let bytes = encode_image(OutputFormat::Jpeg, &one_pixel()).unwrap();
    assert_eq!(&bytes[..2], &[0xff, 0xd8]);
}

#[test]
fn bmp_encoding_produces_bmp_bytes() {
    let bytes = encode_image(OutputFormat::Bmp, &one_pixel()).unwrap();
    assert_eq!(&bytes[..2], b"BM");
}

#[test]
fn zero_area_images_are_rejected() {
    let empty = RgbImage { width: 0, height: 3, data: vec![] };
    assert!(encode_image(OutputFormat::Png, &empty).is_err());
}

#[test]
fn endings_match_formats() {
    assert_eq!(OutputFormat::Png.ending(), "png");
    assert_eq!(OutputFormat::Jpeg.ending(), "jpeg");
    assert_eq!(OutputFormat::Bmp.ending(), "bmp");
}
