//! Hand landmark extraction around the pose predictor: what is fed to the
//! predictor and how its output is read.

use vstd::prelude::*;
use crate::fixed::{clamp, div_nearest, div_round, ONE};

verus! {

/// Side length in pixels of the square image that the predictor takes.
pub const INPUT_SIZE: u32 = 224;

/// Number of pixels in one colour plane of the predictor's input.
pub const PLANE: usize = 50_176;

/// Number of bytes in the predictor's input: three colour planes.
pub const TENSOR_LEN: usize = 150_528;

/// Number of landmarks of one hand.
pub const LANDMARK_COUNT: usize = 21;

/// Number of values in a landmark tensor: three per landmark.
pub const LANDMARK_VALUES: usize = 63;

/// A raw `x` or `y` above this, 1.1, is a pixel coordinate of the
/// predictor's input image and not yet normalised.
pub const PIXEL_LIMIT: i32 = 1_100_000;

/// Confidence below which a detection is discarded unless configured
/// otherwise: 0.5.
pub const DEFAULT_THRESHOLD: i32 = 500_000;

/// Landmark index of the tip of the thumb.
pub const THUMB_TIP: usize = 4;

/// Landmark index of the base of the thumb.
pub const THUMB_BASE: usize = 2;

/// Landmark index of the tip of the index finger.
pub const INDEX_TIP: usize = 8;

/// An RGB raster with interleaved 8-bit channels, row by row.
pub struct Frame {
    pub width: u32,
    pub height: u32,
    pub pixels: Vec<u8>,
}

impl Frame {
    /// The buffer holds exactly three bytes for every pixel.
    pub open spec fn wf(&self) -> bool {
        self.pixels@.len() == 3 * self.width * self.height
    }

    /// A frame over `pixels`, or `None` where the buffer does not hold
    /// exactly `3 * width * height` bytes.
    pub fn new(width: u32, height: u32, pixels: Vec<u8>) -> (r: Option<Frame>)
        ensures
            r is Some <==> pixels@.len() == 3 * width * height,
            r matches Some(f) ==> f.wf() && f.width == width && f.height == height && f.pixels@
                == pixels@,
    {
        let w: u128 = 3 * (width as u128);
        let h: u128 = height as u128;
        assert(w * h <= 0x3_0000_0000 * 0x1_0000_0000) by (nonlinear_arith)
            requires
                w <= 0x3_0000_0000,
                h <= 0x1_0000_0000,
        ;
        let need: u128 = w * h;
        assert(need == 3 * width * height) by (nonlinear_arith)
            requires
                need == w * h,
                w == 3 * width,
                h == height,
        ;
        if pixels.len() as u128 == need {
            Some(Frame { width, height, pixels })
        } else {
            None
        }
    }
}

/// The bytes of the 224 x 224 RGB image that linear (triangle) resampling
/// makes of a `width` x `height` RGB image.
pub uninterp spec fn triangle_resized(width: u32, height: u32, pixels: Seq<u8>) -> Seq<u8>;

/// Resamples an RGB image to 224 x 224 with `image::imageops::resize` and the
/// `Triangle` filter, over a buffer view made by `ImageBuffer::from_raw`.
///
/// Trusted: `from_raw` accepts the buffer exactly when it holds at least
/// three bytes per pixel; the resampled image is a function of the image
/// alone and its buffer holds `TENSOR_LEN` bytes. The intermediate image of
/// the resampling holds `4 * 224 * width` 32-bit samples, which must be
/// allocatable.
#[verifier::external_body]
fn resize_rgb(width: u32, height: u32, pixels: &Vec<u8>) -> (out: Option<Vec<u8>>)
    requires
        3584 * width <= isize::MAX,
    ensures
        out is Some <==> pixels@.len() >= 3 * width * height,
        out matches Some(v) ==> v@ == triangle_resized(width, height, pixels@) && v@.len()
            == TENSOR_LEN,
{
    let view = image::ImageBuffer::<image::Rgb<u8>, &[u8]>::from_raw(width, height, pixels.as_slice());
    match view {
        Some(img) => Some(
            image::imageops::resize(&img, 224, 224, image::imageops::FilterType::Triangle).into_raw(),
        ),
        None => None,
    }
}

/// The channel-major rearrangement of an interleaved 224 x 224 RGB image:
/// first every red sample row by row, then every green one, then every blue
/// one.
pub open spec fn planar(rgb: Seq<u8>) -> Seq<u8> {
    Seq::new(TENSOR_LEN as nat, |i: int| rgb[(i % PLANE as int) * 3 + i / PLANE as int])
}

/// Rearranges an interleaved 224 x 224 RGB image into three colour planes.
pub fn to_planar(rgb: &Vec<u8>) -> (out: Vec<u8>)
    requires
        rgb@.len() == TENSOR_LEN,
    ensures
        out@ == planar(rgb@),
{
    let mut out: Vec<u8> = Vec::with_capacity(TENSOR_LEN);
    let mut c: usize = 0;
    while c < 3
        invariant
            c <= 3,
            rgb@.len() == TENSOR_LEN,
            out@.len() == c * PLANE,
            forall|i: int| 0 <= i < out@.len() ==> out@[i] == rgb@[(i % PLANE as int) * 3 + i / PLANE as int],
        decreases 3 - c,
    {
        let mut p: usize = 0;
        while p < PLANE
            invariant
                c < 3,
                p <= PLANE,
                rgb@.len() == TENSOR_LEN,
                out@.len() == c * PLANE + p,
                forall|i: int| 0 <= i < out@.len() ==> out@[i] == rgb@[(i % PLANE as int) * 3 + i / PLANE as int],
            decreases PLANE - p,
        {
            let ghost at: int = out@.len() as int;
            assert(at % PLANE as int == p && at / PLANE as int == c);
            out.push(rgb[p * 3 + c]);
            p = p + 1;
        }
        c = c + 1;
    }
    assert(out@ =~= planar(rgb@));
    out
}

/// One landmark: normalised `x`, `y` and depth `z`, in millionths.
pub type Landmark = (i32, i32, i32);

/// A raw landmark brought to normalised coordinates. Where `x` or `y`
/// exceeds `PIXEL_LIMIT` both are pixel coordinates and are divided by the
/// input size; otherwise they pass through. `z` is never changed.
pub open spec fn normalized(x: i32, y: i32, z: i32) -> Landmark {
    if x > PIXEL_LIMIT || y > PIXEL_LIMIT {
        (div_nearest(x as int, INPUT_SIZE as int) as i32, div_nearest(y as int, INPUT_SIZE as int) as i32, z)
    } else {
        (x, y, z)
    }
}

/// The `i`-th landmark of a landmark tensor.
pub open spec fn landmark_at(data: Seq<i32>, i: int) -> Landmark {
    normalized(data[3 * i], data[3 * i + 1], data[3 * i + 2])
}

/// The confidence recorded with an observation: the reported one limited to
/// `[0, ONE]`, or zero where the predictor reports none.
pub open spec fn recorded_score(confidence: Option<i32>) -> int {
    match confidence {
        Some(c) => clamp(c as int, 0, ONE as int),
        None => 0,
    }
}

/// One observed hand.
#[derive(Debug)]
pub struct HandResult {
    pub index_tip: (i32, i32),
    pub thumb_tip: (i32, i32),
    pub all_landmarks: Vec<Landmark>,
    pub score: i32,
}

impl HandResult {
    /// All 21 landmarks are present, the two tips repeat their landmarks and
    /// the score lies in `[0, ONE]`.
    pub open spec fn wf(&self) -> bool {
        &&& self.all_landmarks@.len() == LANDMARK_COUNT
        &&& self.index_tip == (self.all_landmarks@[INDEX_TIP as int].0, self.all_landmarks@[INDEX_TIP as int].1)
        &&& self.thumb_tip == (self.all_landmarks@[THUMB_TIP as int].0, self.all_landmarks@[THUMB_TIP as int].1)
        &&& 0 <= self.score <= ONE
    }
}

impl Clone for HandResult {
    fn clone(&self) -> (r: HandResult)
        ensures
            r.index_tip == self.index_tip,
            r.thumb_tip == self.thumb_tip,
            r.all_landmarks@ == self.all_landmarks@,
            r.score == self.score,
    {
        let mut all_landmarks: Vec<Landmark> = Vec::with_capacity(self.all_landmarks.len());
        let mut i: usize = 0;
        while i < self.all_landmarks.len()
            invariant
                i <= self.all_landmarks@.len(),
                all_landmarks@ == self.all_landmarks@.take(i as int),
            decreases self.all_landmarks@.len() - i,
        {
            let landmark: Landmark = self.all_landmarks[i];
            all_landmarks.push(landmark);
            assert(all_landmarks@ =~= self.all_landmarks@.take(i + 1));
            i = i + 1;
        }
        assert(all_landmarks@ =~= self.all_landmarks@);
        HandResult {
            index_tip: self.index_tip,
            thumb_tip: self.thumb_tip,
            all_landmarks,
            score: self.score,
        }
    }
}

/// Whether a predictor output yields no observation: a reported confidence
/// below the threshold, or fewer than 63 landmark values.
pub open spec fn rejected(data: Seq<i32>, confidence: Option<i32>, threshold: i32) -> bool {
    ||| (confidence matches Some(c) && c < threshold)
    ||| data.len() < LANDMARK_VALUES
}

/// Prepares the predictor's input and reads its output.
pub struct HandDetector {
    pub threshold: i32,
}

impl HandDetector {
    /// A detector that discards detections with a confidence below
    /// `threshold`.
    pub fn new(threshold: i32) -> (d: HandDetector)
        ensures
            d.threshold == threshold,
    {
        HandDetector { threshold }
    }

    /// The predictor's input for a frame: the frame resampled to 224 x 224,
    /// as three colour planes of bytes. Dividing each byte by 255 gives the
    /// normalised tensor of shape 1 x 3 x 224 x 224.
    pub fn input_tensor(&self, frame: &Frame) -> (out: Vec<u8>)
        requires
            frame.wf(),
            3584 * frame.width <= isize::MAX,
        ensures
            out@ == planar(triangle_resized(frame.width, frame.height, frame.pixels@)),
            out@.len() == TENSOR_LEN,
    {
        match resize_rgb(frame.width, frame.height, &frame.pixels) {
            Some(rgb) => to_planar(&rgb),
            None => Vec::new(),
        }
    }

    /// Reads the predictor's output: the landmark tensor and the confidence
    /// where one is reported. Gives no observation where the confidence is
    /// below the threshold or the tensor holds fewer than 63 values.
    pub fn detect(&self, data: &Vec<i32>, confidence: Option<i32>) -> (r: Option<HandResult>)
        ensures
            r is None <==> rejected(data@, confidence, self.threshold),
            r matches Some(h) ==> {
                &&& h.wf()
                &&& h.score == recorded_score(confidence)
                &&& forall|i: int| 0 <= i < LANDMARK_COUNT ==> h.all_landmarks@[i] == landmark_at(data@, i)
            },
    {
        let mut score: i32 = 0;
        if let Some(c) = confidence {
            if c < self.threshold {
                return None;
            }
            score = if c < 0 {
                0
            } else if c > ONE {
                ONE
            } else {
                c
            };
        }
        if data.len() < LANDMARK_VALUES {
            return None;
        }
        let mut all_landmarks: Vec<Landmark> = Vec::with_capacity(LANDMARK_COUNT);
        let mut i: usize = 0;
        while i < LANDMARK_COUNT
            invariant
                i <= LANDMARK_COUNT,
                data@.len() >= LANDMARK_VALUES,
                all_landmarks@.len() == i,
                forall|k: int| 0 <= k < i ==> all_landmarks@[k] == landmark_at(data@, k),
            decreases LANDMARK_COUNT - i,
        {
            let idx: usize = i * 3;
            all_landmarks.push(normalize(data[idx], data[idx + 1], data[idx + 2]));
            i = i + 1;
        }
        let tip: Landmark = all_landmarks[INDEX_TIP];
        let thumb: Landmark = all_landmarks[THUMB_TIP];
        Some(HandResult { index_tip: (tip.0, tip.1), thumb_tip: (thumb.0, thumb.1), all_landmarks, score })
    }
}

/// Computes `normalized`.
pub fn normalize(x: i32, y: i32, z: i32) -> (r: Landmark)
    ensures
        r == normalized(x, y, z),
{
    if x > PIXEL_LIMIT || y > PIXEL_LIMIT {
        let nx: i64 = div_round(x as i64, INPUT_SIZE as i64);
        let ny: i64 = div_round(y as i64, INPUT_SIZE as i64);
        (nx as i32, ny as i32, z)
    } else {
        (x, y, z)
    }
}

} // verus!
