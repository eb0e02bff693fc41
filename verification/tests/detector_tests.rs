use card_detector::decode::decode_image;
use card_detector::detect::detect_from_output;
use card_detector::detect::prepare_input;
use card_detector::detect::require_model;
use card_detector::errors::DetectError;

// A detection record in micro-units: [y1, x1, y2, x2, confidence, unused].
fn record(y1: u64, x1: u64, y2: u64, x2: u64, conf: u64) -> Vec<u64> {
    vec![y1, x1, y2, x2, conf, 0]
}

fn png_bytes(width: u32, height: u32) -> Vec<u8> {
    let mut img = image::RgbImage::new(width, height);
    for y in 0..height {
        for x in 0..width {
            img.put_pixel(x, y, image::Rgb([(x % 256) as u8, (y % 256) as u8, 7]));
        }
    }
    let mut bytes: Vec<u8> = Vec::new();
    img.write_to(&mut std::io::Cursor::new(&mut bytes), image::ImageFormat::Png)
        .unwrap();
    bytes
}

#[test]
fn single_detection_scales_to_original_space() {
    // One record [0.1, 0.2, 0.5, 0.6, 0.9, 0] over a 1280x720 image.
    let output = record(100_000, 200_000, 500_000, 600_000, 900_000);
    let boxes = detect_from_output(1280, 720, &output).unwrap();
    assert_eq!(boxes.len(), 1);
    let b = &boxes[0];
    // Corners (256, 72), (768, 72), (768, 360), (256, 360), in micro-pixels.
    assert_eq!(b.points.len(), 4);
    assert_eq!((b.points[0].x, b.points[0].y), (256_000_000, 72_000_000));
    assert_eq!((b.points[1].x, b.points[1].y), (768_000_000, 72_000_000));
    assert_eq!((b.points[2].x, b.points[2].y), (768_000_000, 360_000_000));
    assert_eq!((b.points[3].x, b.points[3].y), (256_000_000, 360_000_000));
    assert_eq!(b.confidence, 900_000);
    assert_eq!(b.class, "pokemon_card");
}

#[test]
fn below_threshold_records_yield_empty_ok() {
    // Every confidence below 0.3: an empty list, not an error.
    let mut output = record(100_000, 200_000, 500_000, 600_000, 299_999);
    output.extend(record(0, 0, 1_000_000, 1_000_000, 0));
    output.extend(record(400_000, 400_000, 900_000, 900_000, 150_000));
    let boxes = detect_from_output(1280, 720, &output).unwrap();
    assert!(boxes.is_empty());
}

#[test]
fn mixed_records_keep_only_confident_in_order() {
    let mut output = record(0, 0, 100_000, 100_000, 300_000); // kept: exactly at threshold
    output.extend(record(0, 0, 200_000, 200_000, 299_999)); // dropped
    output.extend(record(0, 0, 300_000, 300_000, 1_000_000)); // kept
    let boxes = detect_from_output(1000, 1000, &output).unwrap();
    assert_eq!(boxes.len(), 2);
    assert_eq!(boxes[0].confidence, 300_000);
    assert_eq!(boxes[0].points[2].x, 100_000_000);
    assert_eq!(boxes[1].confidence, 1_000_000);
    assert_eq!(boxes[1].points[2].x, 300_000_000);
}

#[test]
fn box_coordinates_within_original_bounds() {
    // Extreme normalized coordinates land on the image edges, never beyond.
    let output = record(0, 0, 1_000_000, 1_000_000, 500_000);
    let boxes = detect_from_output(321, 99, &output).unwrap();
    assert_eq!(boxes.len(), 1);
    for p in &boxes[0].points {
        assert!(p.x <= 321 * 1_000_000);
        assert!(p.y <= 99 * 1_000_000);
    }
    assert_eq!(boxes[0].points[2].x, 321_000_000);
    assert_eq!(boxes[0].points[2].y, 99_000_000);
}

#[test]
fn empty_bytes_rejected() {
    assert_eq!(decode_image(&[]).unwrap_err(), DetectError::ImageDecodeError);
    assert_eq!(
        prepare_input(&[]).unwrap_err(),
        DetectError::ImageDecodeError
    );
}

#[test]
fn corrupted_bytes_rejected() {
    let garbage: Vec<u8> = vec![1, 2, 3, 4, 5, 6, 7, 8, 9];
    assert_eq!(
        decode_image(&garbage).unwrap_err(),
        DetectError::ImageDecodeError
    );
    // A PNG signature followed by garbage is corrupt, not merely unknown.
    let mut broken = vec![0x89, b'P', b'N', b'G', 0x0d, 0x0a, 0x1a, 0x0a];
    broken.extend([0xff; 16]);
    assert_eq!(
        decode_image(&broken).unwrap_err(),
        DetectError::ImageDecodeError
    );
}

#[test]
fn decoded_pixels_round_trip() {
    // The decoded grid carries the encoded picture's pixels, not the input
    // bytes: PNG bytes in, raw RGB rows out.
    let bytes = png_bytes(3, 2);
    let img = decode_image(&bytes).unwrap();
    assert_eq!(img.width, 3);
    assert_eq!(img.height, 2);
    assert_eq!(img.pixels.len(), 3 * 3 * 2);
    // Pixel (x=2, y=1) was written as (2, 1, 7).
    let base = 3 * (1 * 3 + 2);
    assert_eq!(&img.pixels[base..base + 3], &[2, 1, 7]);
}

#[test]
fn nearest_resize_samples_expected_pixels() {
    let bytes = png_bytes(2, 2);
    let prepared = prepare_input(&bytes).unwrap();
    let data = &prepared.tensor.data;
    assert_eq!(data.len(), 640 * 640 * 3);
    // Output column x samples source column x*2/640: 0 below 320, 1 from 320.
    // Pixel (0, 0) is (0, 0, 7); pixel (1, 0) is (1, 0, 7).
    assert_eq!(&data[0..3], &[0, 0, 7]);
    let right = 3 * (0 * 640 + 320);
    assert_eq!(&data[right..right + 3], &[1, 0, 7]);
    // Row 320 samples source row 1: pixel (1, 1) is (1, 1, 7).
    let bottom_right = 3 * (320 * 640 + 320);
    assert_eq!(&data[bottom_right..bottom_right + 3], &[1, 1, 7]);
}

#[test]
fn prepare_input_reports_original_dimensions() {
    let bytes = png_bytes(1280, 720);
    let prepared = prepare_input(&bytes).unwrap();
    assert_eq!(prepared.width, 1280);
    assert_eq!(prepared.height, 720);
    assert_eq!(prepared.tensor.data.len(), 640 * 640 * 3);
}

#[test]
fn ragged_output_buffer_is_inference_error() {
    // Not whole six-value records: a shape mismatch at execution time.
    let output = vec![100_000, 200_000, 500_000, 600_000, 900_000];
    assert_eq!(
        detect_from_output(1280, 720, &output).unwrap_err(),
        DetectError::InferenceError
    );
}

#[test]
fn out_of_range_value_is_inference_error() {
    // A coordinate above 1.0 violates the model's output contract.
    let output = record(100_000, 1_000_001, 500_000, 600_000, 900_000);
    assert_eq!(
        detect_from_output(1280, 720, &output).unwrap_err(),
        DetectError::InferenceError
    );
    // The unused sixth slot is not constrained.
    let mut ok = record(100_000, 200_000, 500_000, 600_000, 900_000);
    ok[5] = u64::MAX;
    assert!(detect_from_output(1280, 720, &ok).is_ok());
}

#[test]
fn repeated_calls_identical() {
    let bytes = png_bytes(33, 17);
    let a = prepare_input(&bytes).unwrap();
    let b = prepare_input(&bytes).unwrap();
    assert_eq!(a.width, b.width);
    assert_eq!(a.height, b.height);
    assert_eq!(a.tensor.data, b.tensor.data);

    let output = record(100_000, 200_000, 500_000, 600_000, 900_000);
    let r1 = detect_from_output(33, 17, &output).unwrap();
    let r2 = detect_from_output(33, 17, &output).unwrap();
    assert_eq!(r1.len(), r2.len());
    for (x, y) in r1.iter().zip(r2.iter()) {
        assert_eq!(x.points, y.points);
        assert_eq!(x.confidence, y.confidence);
        assert_eq!(x.class, y.class);
    }
}

#[test]
fn missing_model_is_model_load_error() {
    assert_eq!(require_model(false).unwrap_err(), DetectError::ModelLoadError);
    assert!(require_model(true).is_ok());
}

#[test]
fn error_messages_distinct() {
    let all = [
        DetectError::ImageDecodeError,
        DetectError::ModelLoadError,
        DetectError::ModelBuildError,
        DetectError::InferenceError,
    ];
    for (i, a) in all.iter().enumerate() {
        assert!(!a.message().is_empty());
        for b in &all[i + 1..] {
            assert_ne!(a.message(), b.message());
        }
    }
}
