//! Turning a downloaded icon into what the toast subsystem accepts: a
//! 128x128 PNG.
use vstd::prelude::*;

verus! {

/// Width and height of a notification icon, in pixels.
pub const ICON_SIZE: u32 = 128;

/// The largest PNG, in bytes, that the toast subsystem shows.
pub const MAX_ICON_BYTES: usize = 204800;

#[verifier::external_type_specification]
#[verifier::external_body]
pub struct ExDynamicImage(image::DynamicImage);

#[verifier::external_type_specification]
#[verifier::external_body]
pub struct ExImageError(image::ImageError);

/// Why an icon could not be transcoded.
#[derive(Debug, Clone, Copy, PartialEq, Eq, Structural)]
pub enum IconError {
    /// The bytes are no image in a supported format.
    Decode,
    /// The image could not be written as PNG.
    Encode,
}

/// A transcoded icon.
#[derive(Debug, Clone)]
pub struct TranscodedIcon {
    pub png: Vec<u8>,
    /// The PNG is larger than the toast subsystem accepts.
    pub oversized: bool,
}

impl TranscodedIcon {
    /// An encoded icon, flagged when it is larger than the toast subsystem
    /// accepts.
    pub fn from_png(png: Vec<u8>) -> (r: Self)
        ensures
            r.png == png,
            r.oversized == (png@.len() > MAX_ICON_BYTES),
    {
        let oversized = png.len() > MAX_ICON_BYTES;
        TranscodedIcon { png, oversized }
    }
}

/// Whether `bytes` are an image in one of the supported formats.
pub uninterp spec fn decodes(bytes: Seq<u8>) -> bool;

/// Relies on image's `load_from_memory`: guesses the format from the bytes
/// and decodes them; whether that succeeds depends on the bytes alone.
#[verifier::external_body]
fn decode_image(bytes: &[u8]) -> (r: Result<image::DynamicImage, image::ImageError>)
    ensures
        r is Ok == decodes(bytes@),
{
    image::load_from_memory(bytes)
}

/// Relies on image's `DynamicImage::resize_exact` with the Lanczos3 filter:
/// the image scaled to exactly `width` by `height`.
#[verifier::external_body]
fn resize_exact_lanczos3(img: &image::DynamicImage, width: u32, height: u32) -> (r: image::DynamicImage) {
    img.resize_exact(width, height, image::imageops::FilterType::Lanczos3)
}

/// Relies on image's `DynamicImage::write_to` with the PNG format: the image
/// encoded as PNG. The encoder refuses some pixel formats, so this may fail.
#[verifier::external_body]
fn encode_png(img: &image::DynamicImage) -> (r: Result<Vec<u8>, image::ImageError>) {
    let mut out: Vec<u8> = Vec::new();
    match img.write_to(std::io::Cursor::new(&mut out), image::ImageFormat::Png) {
        Ok(()) => Ok(out),
        Err(e) => Err(e),
    }
}

/// Decodes a downloaded icon, scales it to 128x128 and encodes it as PNG,
/// noting when the result is too large for the toast subsystem. Bytes that
/// are no image give `Decode`; an image gives the PNG, or `Encode` where the
/// encoder refuses it.
pub fn transcode_icon(bytes: &[u8]) -> (r: Result<TranscodedIcon, IconError>)
    ensures
        !decodes(bytes@) ==> r == Err::<TranscodedIcon, IconError>(IconError::Decode),
        decodes(bytes@) ==> (r is Ok || r == Err::<TranscodedIcon, IconError>(IconError::Encode)),
        r matches Ok(t) ==> t.oversized == (t.png@.len() > MAX_ICON_BYTES),
{
    let img = match decode_image(bytes) {
        Ok(img) => img,
        Err(_) => return Err(IconError::Decode),
    };
    let resized = resize_exact_lanczos3(&img, ICON_SIZE, ICON_SIZE);
    match encode_png(&resized) {
        Ok(png) => Ok(TranscodedIcon::from_png(png)),
        Err(_) => Err(IconError::Encode),
    }
}

} // verus!
