//! The postprocessing stage: interpret the model's flat output buffer as
//! fixed-size detection records, drop the ones below the confidence
//! threshold, and scale the survivors back into the original image's pixel
//! space.
//!
//! The model emits values in `[0, 1]`; here they are micro-units, integers in
//! `[0, 1_000_000]`. A record is six values `[y1, x1, y2, x2, confidence,
//! unused]`; the sixth slot is reserved and ignored.
use vstd::prelude::*;

verus! {

/// One in micro-units: this many micro-units stand for the value 1.0.
pub const UNIT: u64 = 1_000_000;

/// The confidence threshold (0.3): records strictly below it are dropped.
pub const CONF_THRESHOLD: u64 = 300_000;

/// The class label of this single-class detector.
pub open spec fn class_label() -> Seq<char> {
    "pokemon_card"@
}

/// Slot `j` of detection record `i` of the output buffer.
pub open spec fn record_slot(out: Seq<u64>, i: int, j: int) -> u64 {
    out[6 * i + j]
}

/// How many whole detection records the output buffer holds.
pub open spec fn record_count(out: Seq<u64>) -> int {
    out.len() as int / 6
}

/// The coordinate and confidence slots of every record carry a normalized
/// value: at most one, in micro-units. This is the model's documented output
/// range; the unused sixth slot is unconstrained.
pub open spec fn records_normalized(out: Seq<u64>) -> bool {
    forall|i: int, j: int|
        0 <= i < record_count(out) && 0 <= j < 5 ==> #[trigger] record_slot(out, i, j) <= UNIT
}

/// Whether record `i` survives thresholding.
pub open spec fn record_kept(out: Seq<u64>, i: int) -> bool {
    record_slot(out, i, 4) >= CONF_THRESHOLD
}

/// The mathematical model of one returned box: the two defining corners in
/// micro-pixels of the original image, and the confidence in micro-units.
pub ghost struct BoxModel {
    pub x1: u64,
    pub y1: u64,
    pub x2: u64,
    pub y2: u64,
    pub conf: u64,
}

/// The box that record `i` scales to in an original image of `width` ×
/// `height` pixels: each normalized coordinate times the matching dimension,
/// so the result is in micro-pixels.
pub open spec fn box_at(out: Seq<u64>, i: int, width: u32, height: u32) -> BoxModel {
    BoxModel {
        x1: (record_slot(out, i, 1) * width) as u64,
        y1: (record_slot(out, i, 0) * height) as u64,
        x2: (record_slot(out, i, 3) * width) as u64,
        y2: (record_slot(out, i, 2) * height) as u64,
        conf: record_slot(out, i, 4),
    }
}

/// The boxes of the first `n` records, in buffer order, records below the
/// threshold dropped.
pub open spec fn boxes_upto(out: Seq<u64>, width: u32, height: u32, n: int) -> Seq<BoxModel>
    decreases n,
{
    if n <= 0 {
        Seq::empty()
    } else if record_kept(out, n - 1) {
        boxes_upto(out, width, height, n - 1).push(box_at(out, n - 1, width, height))
    } else {
        boxes_upto(out, width, height, n - 1)
    }
}

/// The boxes of the whole output buffer: what postprocessing returns.
pub open spec fn boxes_of(out: Seq<u64>, width: u32, height: u32) -> Seq<BoxModel> {
    boxes_upto(out, width, height, record_count(out))
}

/// A corner of a bounding box, in micro-pixels of the original image.
#[derive(Clone, Copy, Debug, PartialEq, Eq, Structural)]
pub struct CornerPoint {
    pub x: u64,
    pub y: u64,
}

/// One detection handed back to the caller: the four corners of an
/// axis-aligned quadrilateral in micro-pixels of the original image, ordered
/// top-left, top-right, bottom-right, bottom-left; the confidence in
/// micro-units; and the class label.
#[derive(Debug)]
pub struct BoundingBox {
    pub points: Vec<CornerPoint>,
    pub confidence: u64,
    pub class: String,
}

/// Whether the returned box `b` renders the model box `m`: the four corners
/// in their fixed order, the confidence, and the single class label.
pub open spec fn renders(b: BoundingBox, m: BoxModel) -> bool {
    &&& b.points@ =~= seq![
        CornerPoint { x: m.x1, y: m.y1 },
        CornerPoint { x: m.x2, y: m.y1 },
        CornerPoint { x: m.x2, y: m.y2 },
        CornerPoint { x: m.x1, y: m.y2 },
    ]
    &&& b.confidence == m.conf
    &&& b.class@ == class_label()
}

/// Whether the output buffer passes runtime validation: whole six-value
/// records only, and every coordinate and confidence slot normalized.
pub open spec fn output_valid(out: Seq<u64>) -> bool {
    out.len() % 6 == 0 && records_normalized(out)
}

/// Check at runtime that the output buffer is whole records and that every
/// coordinate and confidence slot is a normalized value.
pub fn check_output(output: &Vec<u64>) -> (r: bool)
    ensures
        r == output_valid(output@),
{
    if output.len() % 6 != 0 {
        return false;
    }
    let n = output.len() / 6;
    let mut i: usize = 0;
    while i < n
        invariant
            i <= n,
            n == record_count(output@),
            output@.len() % 6 == 0,
            output@.len() <= usize::MAX,
            forall|i0: int, j0: int|
                0 <= i0 < i && 0 <= j0 < 5 ==> #[trigger] record_slot(output@, i0, j0) <= UNIT,
        decreases n - i,
    {
        let mut j: usize = 0;
        while j < 5
            invariant
                i < n,
                j <= 5,
                n == record_count(output@),
                output@.len() % 6 == 0,
                output@.len() <= usize::MAX,
                forall|i0: int, j0: int|
                    0 <= i0 < i && 0 <= j0 < 5 ==> #[trigger] record_slot(output@, i0, j0)
                        <= UNIT,
                forall|j0: int|
                    0 <= j0 < j ==> #[trigger] record_slot(output@, i as int, j0) <= UNIT,
            decreases 5 - j,
        {
            if output[6 * i + j] > UNIT {
                proof {
                    assert(record_slot(output@, i as int, j as int) > UNIT);
                    assert(!records_normalized(output@));
                }
                return false;
            }
            proof {
                assert(record_slot(output@, i as int, j as int) <= UNIT);
            }
            j = j + 1;
        }
        i = i + 1;
    }
    true
}

/// Scale the detection records of a validated output buffer into bounding
/// boxes of the original `width` × `height` image: records below the
/// confidence threshold are dropped, the rest are returned in buffer order.
pub fn extract_boxes(width: u32, height: u32, output: &Vec<u64>) -> (boxes: Vec<BoundingBox>)
    requires
        output@.len() % 6 == 0,
        records_normalized(output@),
    ensures
        boxes@.len() == boxes_of(output@, width, height).len(),
        forall|k: int|
            0 <= k < boxes@.len() ==> renders(
                #[trigger] boxes@[k],
                boxes_of(output@, width, height)[k],
            ),
{
    let n = output.len() / 6;
    let mut boxes: Vec<BoundingBox> = Vec::new();
    let mut i: usize = 0;
    while i < n
        invariant
            i <= n,
            n == record_count(output@),
            output@.len() % 6 == 0,
            output@.len() <= usize::MAX,
            records_normalized(output@),
            boxes@.len() == boxes_upto(output@, width, height, i as int).len(),
            forall|k: int|
                0 <= k < boxes@.len() ==> renders(
                    #[trigger] boxes@[k],
                    boxes_upto(output@, width, height, i as int)[k],
                ),
        decreases n - i,
    {
        let conf = output[6 * i + 4];
        proof {
            assert(conf == record_slot(output@, i as int, 4));
        }
        if conf >= CONF_THRESHOLD {
            proof {
                assert(record_slot(output@, i as int, 0) <= UNIT);
                assert(record_slot(output@, i as int, 1) <= UNIT);
                assert(record_slot(output@, i as int, 2) <= UNIT);
                assert(record_slot(output@, i as int, 3) <= UNIT);
                lemma_scale_bounded(record_slot(output@, i as int, 0), height);
                lemma_scale_bounded(record_slot(output@, i as int, 1), width);
                lemma_scale_bounded(record_slot(output@, i as int, 2), height);
                lemma_scale_bounded(record_slot(output@, i as int, 3), width);
            }
            let y1: u64 = output[6 * i] * (height as u64);
            let x1: u64 = output[6 * i + 1] * (width as u64);
            let y2: u64 = output[6 * i + 2] * (height as u64);
            let x2: u64 = output[6 * i + 3] * (width as u64);
            let mut points: Vec<CornerPoint> = Vec::new();
            points.push(CornerPoint { x: x1, y: y1 });
            points.push(CornerPoint { x: x2, y: y1 });
            points.push(CornerPoint { x: x2, y: y2 });
            points.push(CornerPoint { x: x1, y: y2 });
            let b = BoundingBox { points, confidence: conf, class: "pokemon_card".to_owned() };
            proof {
                reveal_strlit("pokemon_card");
                assert(renders(b, box_at(output@, i as int, width, height)));
            }
            boxes.push(b);
        }
        i = i + 1;
    }
    boxes
}

/// A normalized value scaled by an image dimension stays within `u64` and
/// within the dimension itself, in micro-pixels.
pub proof fn lemma_scale_bounded(v: u64, dim: u32)
    requires
        v <= UNIT,
    ensures
        v * dim <= (UNIT as int) * (dim as int),
        v * dim <= 0xffff_ffff_ffff_ffffu64,
{
    assert(v * dim <= 1_000_000 * (dim as int) && 1_000_000 * (dim as int) <= 1_000_000
        * 0xffff_ffff) by (nonlinear_arith)
        requires
            v <= 1_000_000u64,
            dim <= 0xffff_ffffu32,
    ;
}

/// Law: every returned box clears the confidence threshold; no box below it
/// ever appears in the output.
pub proof fn lemma_boxes_above_threshold(out: Seq<u64>, width: u32, height: u32)
    ensures
        forall|k: int|
            0 <= k < boxes_of(out, width, height).len() ==> #[trigger] boxes_of(
                out,
                width,
                height,
            )[k].conf >= CONF_THRESHOLD,
{
    lemma_upto_above_threshold(out, width, height, record_count(out));
}

proof fn lemma_upto_above_threshold(out: Seq<u64>, width: u32, height: u32, n: int)
    ensures
        forall|k: int|
            0 <= k < boxes_upto(out, width, height, n).len() ==> #[trigger] boxes_upto(
                out,
                width,
                height,
                n,
            )[k].conf >= CONF_THRESHOLD,
    decreases n,
{
    if n > 0 {
        lemma_upto_above_threshold(out, width, height, n - 1);
        let prev = boxes_upto(out, width, height, n - 1);
        let cur = boxes_upto(out, width, height, n);
        assert forall|k: int| 0 <= k < cur.len() implies cur[k].conf >= CONF_THRESHOLD by {
            if k < prev.len() {
                assert(cur[k] == prev[k]);
            } else {
                assert(record_kept(out, n - 1));
                assert(cur[k] == box_at(out, n - 1, width, height));
            }
        }
    }
}

/// Law: with a normalized output buffer, every corner coordinate of every
/// returned box lies within the original image's pixel rectangle — x in
/// `[0, width]` and y in `[0, height]`, in micro-pixels — never in the
/// model's resized input space.
pub proof fn lemma_boxes_within_image(out: Seq<u64>, width: u32, height: u32)
    requires
        records_normalized(out),
    ensures
        forall|k: int|
            0 <= k < boxes_of(out, width, height).len() ==> box_in_image(
                #[trigger] boxes_of(out, width, height)[k],
                width,
                height,
            ),
{
    lemma_upto_within_image(out, width, height, record_count(out));
}

/// Whether every corner of the box lies in `[0, width] × [0, height]`,
/// both in micro-pixels.
pub open spec fn box_in_image(m: BoxModel, width: u32, height: u32) -> bool {
    &&& m.x1 <= (UNIT as int) * (width as int)
    &&& m.x2 <= (UNIT as int) * (width as int)
    &&& m.y1 <= (UNIT as int) * (height as int)
    &&& m.y2 <= (UNIT as int) * (height as int)
}

proof fn lemma_upto_within_image(out: Seq<u64>, width: u32, height: u32, n: int)
    requires
        records_normalized(out),
        n <= record_count(out),
    ensures
        forall|k: int|
            0 <= k < boxes_upto(out, width, height, n).len() ==> box_in_image(
                #[trigger] boxes_upto(out, width, height, n)[k],
                width,
                height,
            ),
    decreases n,
{
    if n > 0 {
        lemma_upto_within_image(out, width, height, n - 1);
        let prev = boxes_upto(out, width, height, n - 1);
        let cur = boxes_upto(out, width, height, n);
        assert forall|k: int| 0 <= k < cur.len() implies box_in_image(cur[k], width, height) by {
            if k < prev.len() {
                assert(cur[k] == prev[k]);
            } else {
                assert(record_kept(out, n - 1));
                assert(cur[k] == box_at(out, n - 1, width, height));
                lemma_scale_bounded(record_slot(out, n - 1, 0), height);
                lemma_scale_bounded(record_slot(out, n - 1, 1), width);
                lemma_scale_bounded(record_slot(out, n - 1, 2), height);
                lemma_scale_bounded(record_slot(out, n - 1, 3), width);
            }
        }
    }
}

} // verus!
