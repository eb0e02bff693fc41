//! The preprocessing stage: resize a decoded image to the model's fixed
//! 640×640 input resolution with a deterministic nearest-neighbor filter and
//! lay the pixels out channel-last, row-major, as the model expects.
//!
//! The model consumes each byte normalized to `[0, 1]` (divided by 255); that
//! division is floating-point work done at the inference boundary, so the
//! tensor here carries the raw bytes.
use vstd::prelude::*;

use crate::decode::DecodedImage;
use crate::decode::ImageModel;

verus! {

/// The model's fixed input width and height, in pixels.
pub const TENSOR_DIM: usize = 640;

/// Bytes in the model's input tensor: 640 × 640 pixels, 3 channels.
pub const TENSOR_LEN: usize = 640 * 640 * 3;

/// The source row or column that nearest-neighbor sampling reads for output
/// index `out_i` (of 640) when the source dimension is `in_dim`.
pub open spec fn src_coord(out_i: int, in_dim: u32) -> int {
    (out_i * in_dim) / 640
}

/// The byte at channel `c` of the output pixel `(x, y)` of the resized image:
/// the corresponding channel of the nearest source pixel.
pub open spec fn tensor_byte(img: ImageModel, x: int, y: int, c: int) -> u8 {
    img.channel(src_coord(x, img.width), src_coord(y, img.height), c)
}

/// Nearest-neighbor sampling never reads outside the source image.
pub proof fn lemma_src_coord_in_range(out_i: int, in_dim: u32)
    requires
        0 <= out_i < 640,
        in_dim > 0,
    ensures
        0 <= src_coord(out_i, in_dim) < in_dim,
{
    assert(0 <= (out_i * in_dim) / 640 && (out_i * in_dim) / 640 < in_dim) by (nonlinear_arith)
        requires
            0 <= out_i < 640,
            in_dim > 0,
    ;
}

/// The model's input buffer: the resized image's bytes, row-major,
/// channel-last.
#[derive(Debug)]
pub struct Tensor {
    pub data: Vec<u8>,
}

impl View for Tensor {
    type V = Seq<u8>;

    open spec fn view(&self) -> Seq<u8> {
        self.data@
    }
}

/// Resize `img` to 640×640 by nearest-neighbor sampling and flatten it into
/// the model's input layout: the byte for channel `c` of output pixel
/// `(x, y)` stands at index `3 * (y * 640 + x) + c`.
#[verifier::loop_isolation(false)]
pub fn resize_to_tensor(img: &DecodedImage) -> (t: Tensor)
    requires
        img@.well_formed(),
    ensures
        t@.len() == TENSOR_LEN,
        forall|x: int, y: int, c: int|
            0 <= x < 640 && 0 <= y < 640 && 0 <= c < 3 ==> t@[3 * (y * 640 + x) + c]
                == tensor_byte(img@, x, y, c),
{
    let width = img.width;
    let height = img.height;
    // Binds the buffer length to a machine word, so the index arithmetic
    // below is known to stay within `usize`.
    let pixel_count: usize = img.pixels.len();
    let mut data: Vec<u8> = Vec::new();
    let mut y: usize = 0;
    while y < TENSOR_DIM
        invariant
            y <= 640,
            data@.len() == 3 * (640 * y),
            forall|xi: int, yi: int, ci: int|
                0 <= xi < 640 && 0 <= yi < y && 0 <= ci < 3 ==> data@[3 * (yi * 640 + xi) + ci]
                    == tensor_byte(img@, xi, yi, ci),
        decreases 640 - y,
    {
        proof {
            lemma_src_coord_in_range(y as int, height);
            assert((y as int) * (height as int) <= 640 * 0xffff_ffff) by (nonlinear_arith)
                requires
                    0 <= y < 640,
                    height <= 0xffff_ffffu32,
            ;
        }
        let sy: usize = (((y as u64) * (height as u64)) / 640) as usize;
        let mut x: usize = 0;
        while x < TENSOR_DIM
            invariant
                y < 640,
                x <= 640,
                sy == src_coord(y as int, height),
                sy < height,
                data@.len() == 3 * (640 * y + x),
                forall|xi: int, yi: int, ci: int|
                    0 <= xi < 640 && 0 <= yi < y && 0 <= ci < 3 ==> data@[3 * (yi * 640 + xi)
                        + ci] == tensor_byte(img@, xi, yi, ci),
                forall|xi: int, ci: int|
                    0 <= xi < x && 0 <= ci < 3 ==> data@[3 * ((y as int) * 640 + xi) + ci]
                        == tensor_byte(img@, xi, y as int, ci),
            decreases 640 - x,
        {
            proof {
                lemma_src_coord_in_range(x as int, width);
                assert((x as int) * (width as int) <= 640 * 0xffff_ffff) by (nonlinear_arith)
                    requires
                        0 <= x < 640,
                        width <= 0xffff_ffffu32,
                ;
            }
            let sx: usize = (((x as u64) * (width as u64)) / 640) as usize;
            proof {
                assert((sy as int) * (width as int) + (sx as int) < (width as int) * (
                height as int) && 0 <= (sy as int) * (width as int) && 0 <= (width as int) * (
                height as int) && 3 * ((width as int) * (height as int)) == 3 * (width as int) * (
                height as int)) by (nonlinear_arith)
                    requires
                        sy < height,
                        sx < width,
                ;
                assert(3 * ((sy as int) * (width as int) + (sx as int)) + 2 < img@.pixels.len());
            }
            let base: usize = 3 * (sy * (width as usize) + sx);
            data.push(img.pixels[base]);
            data.push(img.pixels[base + 1]);
            data.push(img.pixels[base + 2]);
            x = x + 1;
        }
        y = y + 1;
    }
    Tensor { data }
}

} // verus!
