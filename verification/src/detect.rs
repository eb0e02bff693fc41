//! The pipeline façade. One detection call is decode → preprocess → infer →
//! postprocess; the inference invocation itself belongs to the surrounding
//! application (it owns the model artifact and the engine), so the library
//! exposes the two verified halves around it: `prepare_input` turns encoded
//! bytes into the model's input, `detect_from_output` turns the model's
//! output buffer into bounding boxes.
use vstd::prelude::*;

use crate::decode::decode_accepts;
use crate::decode::decode_image;
use crate::decode::decoded_image_of;
use crate::decode::decoded_rgb;
use crate::errors::DetectError;
use crate::postprocess::boxes_of;
use crate::postprocess::check_output;
use crate::postprocess::extract_boxes;
use crate::postprocess::output_valid;
use crate::postprocess::record_count;
use crate::postprocess::record_kept;
use crate::postprocess::renders;
use crate::postprocess::BoundingBox;
use crate::preprocess::resize_to_tensor;
use crate::preprocess::tensor_byte;
use crate::preprocess::Tensor;
use crate::preprocess::TENSOR_LEN;

verus! {

/// Everything one inference call needs: the model's input tensor, and the
/// original image's dimensions, kept to scale the model's output back into
/// the original pixel space.
#[derive(Debug)]
pub struct PreparedInput {
    pub width: u32,
    pub height: u32,
    pub tensor: Tensor,
}

/// Decode the encoded image bytes and preprocess them into the model's
/// input: the first half of one detection call. Fails exactly when the bytes
/// are not a raster image with non-zero dimensions; a zero-length byte
/// sequence always fails.
pub fn prepare_input(bytes: &[u8]) -> (r: Result<PreparedInput, DetectError>)
    ensures
        r is Ok <==> decode_accepts(bytes@),
        r is Err ==> r->Err_0 == DetectError::ImageDecodeError,
        bytes@.len() == 0 ==> r is Err,
        r is Ok ==> {
            &&& r->Ok_0.width == decoded_image_of(bytes@).width
            &&& r->Ok_0.height == decoded_image_of(bytes@).height
            &&& r->Ok_0.tensor@.len() == TENSOR_LEN
            &&& forall|x: int, y: int, c: int|
                0 <= x < 640 && 0 <= y < 640 && 0 <= c < 3 ==> r->Ok_0.tensor@[3 * (y * 640 + x)
                    + c] == tensor_byte(decoded_image_of(bytes@), x, y, c)
        },
{
    match decode_image(bytes) {
        Ok(img) => {
            let tensor = resize_to_tensor(&img);
            Ok(PreparedInput { width: img.width, height: img.height, tensor })
        }
        Err(e) => Err(e),
    }
}

/// Turn the model's raw output buffer into bounding boxes of the original
/// `width` × `height` image: the second half of one detection call. The
/// buffer is validated first — anything but whole six-value records with
/// normalized coordinate and confidence slots is a shape violation by the
/// inference engine and fails, so no partial or garbage detections are ever
/// returned. On success the boxes are exactly the records at or above the
/// confidence threshold, scaled into micro-pixels, in buffer order.
pub fn detect_from_output(width: u32, height: u32, output: &Vec<u64>) -> (r: Result<
    Vec<BoundingBox>,
    DetectError,
>)
    ensures
        r is Ok <==> output_valid(output@),
        r is Err ==> r->Err_0 == DetectError::InferenceError,
        r is Ok ==> {
            &&& r->Ok_0@.len() == boxes_of(output@, width, height).len()
            &&& forall|k: int|
                0 <= k < r->Ok_0@.len() ==> renders(
                    #[trigger] r->Ok_0@[k],
                    boxes_of(output@, width, height)[k],
                )
        },
{
    if check_output(output) {
        Ok(extract_boxes(width, height, output))
    } else {
        Err(DetectError::InferenceError)
    }
}

/// The model artifact must be present before inference can be attempted.
/// Whether it is on disk is the caller's file-system fact; the verdict on it
/// is the pipeline's: a missing model is exactly `ModelLoadError`, raised
/// before any inference, so no partial detections accompany it.
pub fn require_model(present: bool) -> (r: Result<(), DetectError>)
    ensures
        r is Ok <==> present,
        r is Err ==> r->Err_0 == DetectError::ModelLoadError,
{
    if present {
        Ok(())
    } else {
        Err(DetectError::ModelLoadError)
    }
}

/// Law: the pipeline is deterministic. Every stage is a function of its
/// inputs alone, so identical input bytes decode and preprocess identically,
/// and an identical model output buffer over identical dimensions yields the
/// identical box list.
pub proof fn lemma_pipeline_deterministic(
    bytes1: Seq<u8>,
    bytes2: Seq<u8>,
    out1: Seq<u64>,
    out2: Seq<u64>,
    width1: u32,
    width2: u32,
    height1: u32,
    height2: u32,
)
    requires
        bytes1 == bytes2,
        out1 == out2,
        width1 == width2,
        height1 == height2,
    ensures
        decoded_rgb(bytes1) == decoded_rgb(bytes2),
        decode_accepts(bytes1) == decode_accepts(bytes2),
        decode_accepts(bytes1) ==> decoded_image_of(bytes1) == decoded_image_of(bytes2),
        decode_accepts(bytes1) ==> forall|x: int, y: int, c: int|
            tensor_byte(decoded_image_of(bytes1), x, y, c) == tensor_byte(
                decoded_image_of(bytes2),
                x,
                y,
                c,
            ),
        boxes_of(out1, width1, height1) == boxes_of(out2, width2, height2),
{
}

/// Law: when every record's confidence is below the threshold, the result is
/// the empty box list — not an error.
pub proof fn lemma_no_confident_record_no_boxes(out: Seq<u64>, width: u32, height: u32)
    requires
        forall|i: int| 0 <= i < record_count(out) ==> !record_kept(out, i),
    ensures
        boxes_of(out, width, height) =~= Seq::<crate::postprocess::BoxModel>::empty(),
{
    lemma_upto_no_kept_empty(out, width, height, record_count(out));
}

proof fn lemma_upto_no_kept_empty(out: Seq<u64>, width: u32, height: u32, n: int)
    requires
        n <= record_count(out),
        forall|i: int| 0 <= i < record_count(out) ==> !record_kept(out, i),
    ensures
        crate::postprocess::boxes_upto(out, width, height, n) =~= Seq::<
            crate::postprocess::BoxModel,
        >::empty(),
    decreases n,
{
    if n > 0 {
        lemma_upto_no_kept_empty(out, width, height, n - 1);
    }
}

} // verus!
