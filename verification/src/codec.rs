//! Image-codec collaborators: file encoding and raster scaling are
//! delegated to the `image` crate behind trusted wrappers.

use vstd::prelude::*;

use crate::options::OutputFormat;
use crate::raster::RgbImage;

verus! {

/// Error of the library's own for a failed encode.
#[derive(Clone, Copy, Debug, PartialEq, Eq, Structural)]
pub enum EncodeError {
    EncodingFailed,
}

#[verifier::external_type_specification]
#[verifier::external_body]
pub struct ExImageError(image::ImageError);

/// The PNG encoding of a packed RGB image, as the `image` crate produces
/// it: a function of the dimensions and pixel bytes alone.
pub uninterp spec fn spec_png_encoded(w: int, h: int, pixels: Seq<u8>) -> Seq<u8>;

/// The JPEG encoding of a packed RGB image, as the `image` crate produces
/// it at its default quality: a function of the dimensions and pixel
/// bytes alone.
pub uninterp spec fn spec_jpeg_encoded(w: int, h: int, pixels: Seq<u8>) -> Seq<u8>;

/// The BMP encoding of a packed RGB image, as the `image` crate produces
/// it: a function of the dimensions and pixel bytes alone.
pub uninterp spec fn spec_bmp_encoded(w: int, h: int, pixels: Seq<u8>) -> Seq<u8>;

/// The nearest-neighbour resampling of a packed RGB image to new
/// dimensions, as `image::imageops::resize` computes it: a function of
/// the source dimensions, source bytes and target dimensions alone.
pub uninterp spec fn spec_nearest_resize(src: Seq<u8>, sw: int, sh: int, dw: int, dh: int) -> Seq<
    u8,
>;

/// The encoding of a packed RGB image in the given output format.
pub open spec fn spec_encoded(format: OutputFormat, w: int, h: int, pixels: Seq<u8>) -> Seq<u8> {
    match format {
        OutputFormat::Png => spec_png_encoded(w, h, pixels),
        OutputFormat::Jpeg => spec_jpeg_encoded(w, h, pixels),
        OutputFormat::Bmp => spec_bmp_encoded(w, h, pixels),
    }
}

/// Relies on `image::ImageBuffer::from_raw` (which accepts a buffer of
/// exactly 3·w·h bytes) and `image::DynamicImage::write_to` with the PNG
/// format: on success the returned bytes are the PNG encoding of the
/// input, which depends on the pixel data and dimensions alone.
#[verifier::external_body]
fn encode_png_via_image(width: u32, height: u32, data: &Vec<u8>) -> (r: Result<
    Vec<u8>,
    image::ImageError,
>)
    requires
        width >= 1,
        height >= 1,
        data@.len() == 3 * (width as int) * (height as int),
    ensures
        r matches Ok(b) ==> b@ == spec_png_encoded(width as int, height as int, data@),
{
    let buffer: image::RgbImage = image::ImageBuffer::from_raw(width, height, data.clone())
        .unwrap();
    let mut out: Vec<u8> = Vec::new();
    match image::DynamicImage::ImageRgb8(buffer).write_to(
        &mut std::io::Cursor::new(&mut out),
        image::ImageFormat::Png,
    ) {
        Ok(()) => Ok(out),
        Err(e) => Err(e),
    }
}

/// Relies on `image::ImageBuffer::from_raw` and
/// `image::DynamicImage::write_to` with the JPEG format at its default
/// quality: on success the returned bytes are the JPEG encoding of the
/// input, which depends on the pixel data and dimensions alone.
#[verifier::external_body]
fn encode_jpeg_via_image(width: u32, height: u32, data: &Vec<u8>) -> (r: Result<
    Vec<u8>,
    image::ImageError,
>)
    requires
        width >= 1,
        height >= 1,
        data@.len() == 3 * (width as int) * (height as int),
    ensures
        r matches Ok(b) ==> b@ == spec_jpeg_encoded(width as int, height as int, data@),
{
    let buffer: image::RgbImage = image::ImageBuffer::from_raw(width, height, data.clone())
        .unwrap();
    let mut out: Vec<u8> = Vec::new();
    match image::DynamicImage::ImageRgb8(buffer).write_to(
        &mut std::io::Cursor::new(&mut out),
        image::ImageFormat::Jpeg,
    ) {
        Ok(()) => Ok(out),
        Err(e) => Err(e),
    }
}

/// Relies on `image::ImageBuffer::from_raw` and
/// `image::DynamicImage::write_to` with the BMP format: on success the
/// returned bytes are the BMP encoding of the input, which depends on the
/// pixel data and dimensions alone.
#[verifier::external_body]
fn encode_bmp_via_image(width: u32, height: u32, data: &Vec<u8>) -> (r: Result<
    Vec<u8>,
    image::ImageError,
>)
    requires
        width >= 1,
        height >= 1,
        data@.len() == 3 * (width as int) * (height as int),
    ensures
        r matches Ok(b) ==> b@ == spec_bmp_encoded(width as int, height as int, data@),
{
    let buffer: image::RgbImage = image::ImageBuffer::from_raw(width, height, data.clone())
        .unwrap();
    let mut out: Vec<u8> = Vec::new();
    match image::DynamicImage::ImageRgb8(buffer).write_to(
        &mut std::io::Cursor::new(&mut out),
        image::ImageFormat::Bmp,
    ) {
        Ok(()) => Ok(out),
        Err(e) => Err(e),
    }
}

/// Relies on `image::imageops::resize` with `FilterType::Nearest` (and
/// `image::ImageBuffer::from_raw` / `into_raw` to convert): the result
/// buffer has exactly the requested dimensions, and its content is a
/// function of the source dimensions, source bytes and target dimensions
/// alone.
#[verifier::external_body]
fn resize_via_image(width: u32, height: u32, data: &Vec<u8>, new_width: u32, new_height: u32) -> (r:
    Vec<u8>)
    requires
        width >= 1,
        height >= 1,
        new_width >= 1,
        new_height >= 1,
        data@.len() == 3 * (width as int) * (height as int),
        3 * (new_width as int) * (new_height as int) <= usize::MAX as int,
    ensures
        r@.len() == 3 * (new_width as int) * (new_height as int),
        r@ == spec_nearest_resize(
            data@,
            width as int,
            height as int,
            new_width as int,
            new_height as int,
        ),
{
    let buffer: image::RgbImage = image::ImageBuffer::from_raw(width, height, data.clone())
        .unwrap();
    let resized = image::imageops::resize(
        &buffer,
        new_width,
        new_height,
        image::imageops::FilterType::Nearest,
    );
    resized.into_raw()
}

/// Encodes an image in the given format.  Zero-area images are rejected;
/// for every other input, a successful encode returns exactly the bytes
/// the format's encoder produces for these pixels.
pub fn encode_image(format: OutputFormat, img: &RgbImage) -> (r: Result<Vec<u8>, EncodeError>)
    requires
        img.wf(),
    ensures
        r matches Ok(b) ==> (img.width >= 1 && img.height >= 1 && b@ == spec_encoded(
            format,
            img.width as int,
            img.height as int,
            img.data@,
        )),
        (img.width == 0 || img.height == 0) ==> r is Err,
{
    if img.width == 0 || img.height == 0 {
        return Err(EncodeError::EncodingFailed);
    }
    let encoded = match format {
        OutputFormat::Png => encode_png_via_image(img.width, img.height, &img.data),
        OutputFormat::Jpeg => encode_jpeg_via_image(img.width, img.height, &img.data),
        OutputFormat::Bmp => encode_bmp_via_image(img.width, img.height, &img.data),
    };
    match encoded {
        Ok(b) => Ok(b),
        Err(_) => Err(EncodeError::EncodingFailed),
    }
}

/// Scales an image to the given dimensions with nearest-neighbour
/// sampling.
pub fn resize_nearest(img: &RgbImage, new_width: u32, new_height: u32) -> (r: RgbImage)
    requires
        img.wf(),
        img.width >= 1,
        img.height >= 1,
        new_width >= 1,
        new_height >= 1,
        3 * (new_width as int) * (new_height as int) <= usize::MAX as int,
    ensures
        r.wf(),
        r.width == new_width,
        r.height == new_height,
        r.data@ == spec_nearest_resize(
            img.data@,
            img.width as int,
            img.height as int,
            new_width as int,
            new_height as int,
        ),
{
    let data = resize_via_image(img.width, img.height, &img.data, new_width, new_height);
    RgbImage { width: new_width, height: new_height, data }
}

} // verus!
