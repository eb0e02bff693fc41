//! The failure taxonomy of the detection pipeline. Each variant names the
//! stage that failed; every failure short-circuits the pipeline, so a caller
//! never sees a partial result next to an error.
use vstd::prelude::*;

verus! {

/// The distinct, non-overlapping ways one detection call can fail.
#[derive(Clone, Copy, Debug, PartialEq, Eq, Structural)]
pub enum DetectError {
    /// The input bytes do not decode into a raster image with non-zero
    /// dimensions (corrupt data, unsupported format, zero width or height).
    ImageDecodeError,
    /// The model artifact is missing, unreadable, or of an incompatible
    /// format or version.
    ModelLoadError,
    /// The model loaded, but constructing the interpreter or allocating its
    /// tensors failed.
    ModelBuildError,
    /// Model and input tensor were valid, but the inference invocation
    /// itself failed (runtime fault, shape mismatch at execution time).
    InferenceError,
}

/// What `message` returns for each variant.
pub open spec fn message_spec(e: DetectError) -> Seq<char> {
    match e {
        DetectError::ImageDecodeError => "image bytes do not decode into a valid raster image"@,
        DetectError::ModelLoadError => "model artifact missing, unreadable, or incompatible"@,
        DetectError::ModelBuildError => "interpreter construction or tensor allocation failed"@,
        DetectError::InferenceError => "inference invocation failed"@,
    }
}

impl DetectError {
    /// The descriptive message surfaced to the caller.
    pub fn message(&self) -> (r: &'static str)
        ensures
            r@ == message_spec(*self),
    {
        match self {
            DetectError::ImageDecodeError => "image bytes do not decode into a valid raster image",
            DetectError::ModelLoadError => "model artifact missing, unreadable, or incompatible",
            DetectError::ModelBuildError => "interpreter construction or tensor allocation failed",
            DetectError::InferenceError => "inference invocation failed",
        }
    }
}

} // verus!
