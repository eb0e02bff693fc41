//! The decode stage: raw encoded bytes in, a plain RGB pixel grid out.
//!
//! The actual decoding is done by the `image` crate behind one trusted
//! wrapper; everything after it — the zero-dimension check and the error
//! mapping — is verified.
use vstd::prelude::*;

use crate::errors::DetectError;

verus! {

/// What the decode path below turns a byte sequence into: `None` when the
/// bytes are not a decodable raster image, otherwise the width, the height,
/// and the row-major RGB pixel bytes (three per pixel). The path reads the
/// bytes and the compiled crate's static format table alone, so this is a
/// function of the bytes.
pub uninterp spec fn decoded_rgb(bytes: Seq<u8>) -> Option<(u32, u32, Seq<u8>)>;

/// Relies on `image::guess_format` (the format read from the bytes' magic
/// numbers against the crate's static table; an empty buffer matches none and
/// fails) and `image::load_from_memory_with_format` (decoding with a built-in
/// format, which consults no runtime-registered hook), so the result depends
/// on the bytes alone. Also relies on `DynamicImage::width` / `height` and on
/// `DynamicImage::to_rgb8` + `ImageBuffer::into_raw` (the row-major RGB
/// buffer, three bytes per pixel, so of length `3 * width * height`).
#[verifier::external_body]
fn load_rgb(bytes: &[u8]) -> (r: Result<(u32, u32, Vec<u8>), image::ImageError>)
    ensures
        r is Ok <==> decoded_rgb(bytes@) is Some,
        r is Ok ==> Some((r->Ok_0.0, r->Ok_0.1, r->Ok_0.2@)) == decoded_rgb(bytes@),
        r is Ok ==> r->Ok_0.2@.len() == 3 * (r->Ok_0.0 as int) * (r->Ok_0.1 as int),
        bytes@.len() == 0 ==> r is Err,
{
    let format = match image::guess_format(bytes) {
        Ok(format) => format,
        Err(e) => return Err(e),
    };
    match image::load_from_memory_with_format(bytes, format) {
        Ok(img) => {
            let (w, h) = (img.width(), img.height());
            Ok((w, h, img.to_rgb8().into_raw()))
        }
        Err(e) => Err(e),
    }
}

/// The `image` crate's error type, opaque here: verified code only maps a
/// decode failure to `DetectError::ImageDecodeError`.
#[verifier::external_type_specification]
#[verifier::external_body]
pub struct ExImageError(image::ImageError);

/// The mathematical model of a decoded raster image: dimensions and the
/// row-major RGB pixel bytes, three per pixel.
pub ghost struct ImageModel {
    pub width: u32,
    pub height: u32,
    pub pixels: Seq<u8>,
}

impl ImageModel {
    /// Both dimensions are non-zero and the buffer holds exactly three bytes
    /// for each of the `width * height` pixels.
    pub open spec fn well_formed(self) -> bool {
        &&& self.width > 0
        &&& self.height > 0
        &&& self.pixels.len() == 3 * (self.width as int) * (self.height as int)
    }

    /// The byte of channel `c` (0 = R, 1 = G, 2 = B) of the pixel at column
    /// `x` of row `y`.
    pub open spec fn channel(self, x: int, y: int, c: int) -> u8 {
        self.pixels[3 * (y * (self.width as int) + x) + c]
    }
}

/// A decoded raster image: dimensions and the row-major RGB pixel buffer,
/// three bytes per pixel.
#[derive(Debug)]
pub struct DecodedImage {
    pub width: u32,
    pub height: u32,
    pub pixels: Vec<u8>,
}

impl View for DecodedImage {
    type V = ImageModel;

    open spec fn view(&self) -> ImageModel {
        ImageModel { width: self.width, height: self.height, pixels: self.pixels@ }
    }
}

/// Whether `decode_image` accepts the byte sequence: it decodes into a
/// raster image and neither dimension is zero.
pub open spec fn decode_accepts(bytes: Seq<u8>) -> bool {
    match decoded_rgb(bytes) {
        Some((w, h, _)) => w > 0 && h > 0,
        None => false,
    }
}

/// The image that `decode_image` returns on an accepted byte sequence.
pub open spec fn decoded_image_of(bytes: Seq<u8>) -> ImageModel
    recommends
        decode_accepts(bytes),
{
    let (w, h, p) = decoded_rgb(bytes)->Some_0;
    ImageModel { width: w, height: h, pixels: p }
}

/// Decode encoded image bytes into an RGB pixel grid, rejecting anything
/// that is not a raster image with non-zero dimensions. This is the first
/// pipeline stage; a zero-length byte sequence is always rejected.
pub fn decode_image(bytes: &[u8]) -> (r: Result<DecodedImage, DetectError>)
    ensures
        r is Ok <==> decode_accepts(bytes@),
        r is Ok ==> r->Ok_0@ == decoded_image_of(bytes@) && r->Ok_0@.well_formed(),
        r is Err ==> r->Err_0 == DetectError::ImageDecodeError,
        bytes@.len() == 0 ==> r is Err,
{
    match load_rgb(bytes) {
        Ok((width, height, pixels)) => {
            if width == 0 || height == 0 {
                Err(DetectError::ImageDecodeError)
            } else {
                Ok(DecodedImage { width, height, pixels })
            }
        }
        Err(_) => Err(DetectError::ImageDecodeError),
    }
}

} // verus!
