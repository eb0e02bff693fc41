//! On-device object detection pipeline: decode an encoded image, preprocess
//! it into the fixed tensor shape a single-shot detector expects, and turn the
//! model's raw output buffer into bounding boxes in original-image pixel
//! space.
//!
//! Numeric values that the surrounding application exchanges with the
//! inference engine as floating point are represented here in fixed point:
//! a value in `[0, 1]` is carried as micro-units, an integer in
//! `[0, 1_000_000]`. Pixel coordinates of returned boxes are micro-pixels.
use vstd::prelude::*;

pub mod decode;
pub mod detect;
pub mod errors;
pub mod postprocess;
pub mod preprocess;
