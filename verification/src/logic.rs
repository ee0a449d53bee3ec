//! Temporal smoothing and coordinate mapping.

use vstd::prelude::*;
use crate::app::ScreenConfig;
use crate::fixed::{clamp, div_nearest, div_round, div_toward_zero, saturate, saturate_i128, ONE};

verus! {

/// One step of the exponential moving average: the weighted mean
/// `alpha * input + (1 - alpha) * previous`, with `alpha` in millionths,
/// rounded to the nearest integer.
pub open spec fn blend(alpha: int, input: int, previous: int) -> int {
    div_nearest(alpha * input + (ONE - alpha) * previous, ONE as int)
}

/// Exponential moving average over a two-dimensional position.
pub struct SmoothFilter {
    alpha: i32,
    last_x: i32,
    last_y: i32,
    is_initialized: bool,
}

impl SmoothFilter {
    #[verifier::type_invariant]
    spec fn inv(&self) -> bool {
        0 <= self.alpha <= ONE
    }

    /// The smoothing factor in millionths, between 0 and `ONE`.
    pub closed spec fn alpha(&self) -> int {
        self.alpha as int
    }

    /// Whether a first sample has been taken.
    pub closed spec fn initialized(&self) -> bool {
        self.is_initialized
    }

    /// The most recent output.
    pub closed spec fn last(&self) -> (int, int) {
        (self.last_x as int, self.last_y as int)
    }

    /// What the filter returns for the sample `(x, y)`: the sample itself
    /// before any other was taken, else its blend with the last output.
    pub open spec fn output(&self, x: i32, y: i32) -> (int, int) {
        if self.initialized() {
            (blend(self.alpha(), x as int, self.last().0), blend(self.alpha(), y as int, self.last().1))
        } else {
            (x as int, y as int)
        }
    }

    /// A filter that has seen no sample yet; `alpha` is limited to `[0, ONE]`.
    pub fn new(alpha: i32) -> (f: SmoothFilter)
        ensures
            f.alpha() == clamp(alpha as int, 0, ONE as int),
            !f.initialized(),
    {
        let a: i32 = if alpha < 0 {
            0
        } else if alpha > ONE {
            ONE
        } else {
            alpha
        };
        SmoothFilter { alpha: a, last_x: 0, last_y: 0, is_initialized: false }
    }

    /// Feeds one sample. The first sample is returned unchanged; every later
    /// one is blended with the previous output.
    pub fn filter(&mut self, x: i32, y: i32) -> (out: (i32, i32))
        ensures
            final(self).alpha() == old(self).alpha(),
            final(self).initialized(),
            final(self).last() == (out.0 as int, out.1 as int),
            (out.0 as int, out.1 as int) == old(self).output(x, y),
    {
        proof {
            use_type_invariant(&*self);
        }
        if !self.is_initialized {
            self.last_x = x;
            self.last_y = y;
            self.is_initialized = true;
            return (x, y);
        }
        let sx: i32 = blend_exec(self.alpha, x, self.last_x);
        let sy: i32 = blend_exec(self.alpha, y, self.last_y);
        self.last_x = sx;
        self.last_y = sy;
        (sx, sy)
    }
}

/// Computes `blend` with machine integers.
fn blend_exec(alpha: i32, input: i32, previous: i32) -> (r: i32)
    requires
        0 <= alpha <= ONE,
    ensures
        r == blend(alpha as int, input as int, previous as int),
{
    let a: i64 = alpha as i64;
    let b: i64 = (ONE - alpha) as i64;
    let x: i64 = input as i64;
    let p: i64 = previous as i64;
    proof {
        lemma_blend_between(alpha as int, input as int, previous as int);
        assert(-1_000_000 * 0x8000_0000 <= a * x <= 1_000_000 * 0x8000_0000) by (nonlinear_arith)
            requires
                0 <= a <= 1_000_000,
                -0x8000_0000 <= x <= 0x8000_0000,
        ;
        assert(-1_000_000 * 0x8000_0000 <= b * p <= 1_000_000 * 0x8000_0000) by (nonlinear_arith)
            requires
                0 <= b <= 1_000_000,
                -0x8000_0000 <= p <= 0x8000_0000,
        ;
    }
    let acc: i64 = a * x + b * p;
    let q: i64 = div_round(acc, ONE as i64);
    q as i32
}

/// A blend never leaves the interval spanned by its two arguments.
pub proof fn lemma_blend_between(alpha: int, input: int, previous: int)
    requires
        0 <= alpha <= ONE,
    ensures
        input <= previous ==> input <= blend(alpha, input, previous) <= previous,
        previous <= input ==> previous <= blend(alpha, input, previous) <= input,
{
    let acc = alpha * input + (ONE - alpha) * previous;
    let lo = if input <= previous { input } else { previous };
    let hi = if input <= previous { previous } else { input };
    assert(1_000_000 * lo <= acc <= 1_000_000 * hi) by (nonlinear_arith)
        requires
            acc == alpha * input + (1_000_000 - alpha) * previous,
            0 <= alpha <= 1_000_000,
            lo <= input <= hi,
            lo <= previous <= hi,
    ;
    assert(lo <= (2 * acc + 1_000_000) / 2_000_000 <= hi);
}

/// Lower edge of the active zone on either axis: 0.2 of the camera frame.
pub const ZONE_MIN: i32 = 200_000;

/// Upper edge of the active zone on either axis: 0.8 of the camera frame.
pub const ZONE_MAX: i32 = 800_000;

/// Width of the active zone: 0.6 of the camera frame.
pub const ZONE_SPAN: i32 = 600_000;

/// Where a normalised coordinate lies within the active zone, counted from
/// the zone's lower edge and limited to the zone: 0 at or below `ZONE_MIN`,
/// `ZONE_SPAN` at or above `ZONE_MAX`.
pub open spec fn zone_position(v: int) -> int {
    clamp(v - ZONE_MIN, 0, ZONE_SPAN as int)
}

/// A zone position stretched over `extent` pixels: the fraction
/// `position / ZONE_SPAN` of the extent, rounded toward zero.
pub open spec fn zone_scale(position: int, extent: int) -> int {
    div_toward_zero(position * extent, ZONE_SPAN as int)
}

/// Horizontal pixel distance from the screen's left edge for a normalised
/// camera `x`. The axis is mirrored: the zone's lower edge is the right of
/// the screen.
pub open spec fn screen_dx(x: int, width: int) -> int {
    zone_scale(ZONE_SPAN - zone_position(x), width)
}

/// Vertical pixel distance from the screen's top edge for a normalised
/// camera `y`.
pub open spec fn screen_dy(y: int, height: int) -> int {
    zone_scale(zone_position(y), height)
}

/// The screen position of a normalised camera point before the sensitivity
/// boost: the scaled zone position plus the configured offset.
pub open spec fn base_position(x: int, y: int, screen: ScreenConfig) -> (int, int) {
    (screen.x_offset + screen_dx(x, screen.width as int), screen.y_offset + screen_dy(y, screen.height as int))
}

/// A screen coordinate multiplied by one and a half times the sensitivity
/// (in millionths), rounded toward zero and limited to the range of `i32`.
pub open spec fn boosted(coordinate: int, sensitivity: int) -> int {
    saturate(div_toward_zero(coordinate * sensitivity * 3, 2 * ONE))
}

/// An absolute pointer position in screen pixels.
#[derive(Clone, Copy, Debug, PartialEq, Eq, Structural)]
pub struct PointerTarget {
    pub x: i32,
    pub y: i32,
}

/// Computes `zone_scale(position, extent)` for a position inside the zone.
fn zone_scale_exec(position: i32, extent: i32) -> (r: i64)
    requires
        0 <= position <= ZONE_SPAN,
    ensures
        r == zone_scale(position as int, extent as int),
        extent >= 0 ==> 0 <= r <= extent,
        extent <= 0 ==> extent <= r <= 0,
{
    let p: i64 = position as i64;
    let e: i64 = extent as i64;
    proof {
        lemma_zone_scale_between(position as int, extent as int);
        assert(-600_000 * 0x8000_0000 <= p * e <= 600_000 * 0x8000_0000) by (nonlinear_arith)
            requires
                0 <= p <= 600_000,
                -0x8000_0000 <= e <= 0x8000_0000,
        ;
    }
    (p * e) / (ZONE_SPAN as i64)
}

/// A scaled zone position lies between 0 and the extent.
pub proof fn lemma_zone_scale_between(position: int, extent: int)
    requires
        0 <= position <= ZONE_SPAN,
    ensures
        extent >= 0 ==> 0 <= zone_scale(position, extent) <= extent,
        extent <= 0 ==> extent <= zone_scale(position, extent) <= 0,
        zone_scale(0, extent) == 0,
        zone_scale(ZONE_SPAN as int, extent) == extent,
{
    let n = position * extent;
    if extent >= 0 {
        assert(0 <= n <= 600_000 * extent) by (nonlinear_arith)
            requires
                n == position * extent,
                0 <= position <= 600_000,
                extent >= 0,
        ;
        assert(0 <= n / 600_000 <= extent);
    } else {
        assert(600_000 * extent <= n <= 0) by (nonlinear_arith)
            requires
                n == position * extent,
                0 <= position <= 600_000,
                extent <= 0,
        ;
        assert(0 <= (-n) / 600_000 <= -extent);
    }
    assert(0 * extent == 0);
    assert((600_000 * extent) / 600_000 == extent);
    assert((-(600_000 * extent)) / 600_000 == -extent);
}

/// The screen position of a normalised camera point before the sensitivity
/// boost.
pub fn base_target(x: i32, y: i32, screen: &ScreenConfig) -> (r: (i64, i64))
    ensures
        (r.0 as int, r.1 as int) == base_position(x as int, y as int, *screen),
{
    let px: i32 = zone_position_exec(x);
    let py: i32 = zone_position_exec(y);
    let dx: i64 = zone_scale_exec(ZONE_SPAN - px, screen.width);
    let dy: i64 = zone_scale_exec(py, screen.height);
    (screen.x_offset as i64 + dx, screen.y_offset as i64 + dy)
}

/// Computes `zone_position`.
fn zone_position_exec(v: i32) -> (r: i32)
    ensures
        r == zone_position(v as int),
        0 <= r <= ZONE_SPAN,
{
    if v <= ZONE_MIN {
        0
    } else if v >= ZONE_MAX {
        ZONE_SPAN
    } else {
        v - ZONE_MIN
    }
}

/// Computes `boosted`.
fn boost_exec(coordinate: i64, sensitivity: i32) -> (r: i32)
    requires
        -0x1_0000_0000 <= coordinate <= 0x1_0000_0000,
    ensures
        r == boosted(coordinate as int, sensitivity as int),
{
    let c: i128 = coordinate as i128;
    let s: i128 = sensitivity as i128;
    proof {
        assert(-0x1_0000_0000 * 0x8000_0000 <= c * s <= 0x1_0000_0000 * 0x8000_0000) by (nonlinear_arith)
            requires
                -0x1_0000_0000 <= c <= 0x1_0000_0000,
                -0x8000_0000 <= s <= 0x8000_0000,
        ;
    }
    let n: i128 = c * s * 3;
    saturate_i128(n / 2_000_000)
}

/// Maps a smoothed, normalised camera point to the pointer target: active
/// zone crop, horizontal mirror, scale to the screen, offset, then the
/// sensitivity boost on the final coordinates.
pub fn map_active_zone(x: i32, y: i32, screen: &ScreenConfig, sensitivity: i32) -> (t: PointerTarget)
    ensures
        t.x == boosted(base_position(x as int, y as int, *screen).0, sensitivity as int),
        t.y == boosted(base_position(x as int, y as int, *screen).1, sensitivity as int),
{
    let base: (i64, i64) = base_target(x, y, screen);
    proof {
        lemma_zone_scale_between(ZONE_SPAN - zone_position(x as int), screen.width as int);
        lemma_zone_scale_between(zone_position(y as int), screen.height as int);
    }
    PointerTarget { x: boost_exec(base.0, sensitivity), y: boost_exec(base.1, sensitivity) }
}

/// With a smoothing factor of zero the output never changes after the first
/// sample: whatever is fed to an initialised filter, it returns its last
/// output again.
pub proof fn lemma_alpha_zero_holds(f: SmoothFilter, x: i32, y: i32)
    requires
        f.alpha() == 0,
        f.initialized(),
    ensures
        f.output(x, y) == f.last(),
{
    lemma_blend_zero(x as int, f.last().0);
    lemma_blend_zero(y as int, f.last().1);
}

/// With a smoothing factor of one the output always equals the latest
/// input, whatever the filter held before.
pub proof fn lemma_alpha_one_follows(f: SmoothFilter, x: i32, y: i32)
    requires
        f.alpha() == ONE,
    ensures
        f.output(x, y) == (x as int, y as int),
{
    lemma_blend_one(x as int, f.last().0);
    lemma_blend_one(y as int, f.last().1);
}

/// A blend with weight zero is the previous value.
proof fn lemma_blend_zero(input: int, previous: int)
    ensures
        blend(0, input, previous) == previous,
{
    assert(0 * input == 0);
    assert((ONE - 0) * previous == 1_000_000 * previous);
}

/// A blend with weight one is the input.
proof fn lemma_blend_one(input: int, previous: int)
    ensures
        blend(ONE as int, input, previous) == input,
{
    assert((ONE - ONE) * previous == 0);
    assert(ONE * input == 1_000_000 * input);
}

/// Smoothing never overshoots: on each axis the output lies between the
/// last output and the new input.
pub proof fn lemma_output_between(f: SmoothFilter, x: i32, y: i32)
    requires
        0 <= f.alpha() <= ONE,
        f.initialized(),
    ensures
        x <= f.last().0 ==> x <= f.output(x, y).0 <= f.last().0,
        f.last().0 <= x ==> f.last().0 <= f.output(x, y).0 <= x,
        y <= f.last().1 ==> y <= f.output(x, y).1 <= f.last().1,
        f.last().1 <= y ==> f.last().1 <= f.output(x, y).1 <= y,
{
    lemma_blend_between(f.alpha(), x as int, f.last().0);
    lemma_blend_between(f.alpha(), y as int, f.last().1);
}

/// The centre of the active zone, (0.5, 0.5), lands on the centre of the
/// screen rectangle: half the width and half the height away from its
/// origin.
pub proof fn lemma_zone_center(screen: ScreenConfig)
    ensures
        screen_dx(500_000, screen.width as int) == div_toward_zero(screen.width as int, 2),
        screen_dy(500_000, screen.height as int) == div_toward_zero(screen.height as int, 2),
        base_position(500_000, 500_000, screen) == (
            screen.x_offset + div_toward_zero(screen.width as int, 2),
            screen.y_offset + div_toward_zero(screen.height as int, 2),
        ),
{
    lemma_half_extent(screen.width as int);
    lemma_half_extent(screen.height as int);
}

/// Half the zone span scales an extent to half of it.
proof fn lemma_half_extent(extent: int)
    ensures
        zone_scale(300_000, extent) == div_toward_zero(extent, 2),
{
    let a = if extent >= 0 { extent } else { -extent };
    let q = a / 2;
    let r = a % 2;
    assert(300_000 * a == 600_000 * q + 300_000 * r);
    assert((300_000 * a) / 600_000 == q);
    assert(300_000 * extent == if extent >= 0 { 300_000 * a } else { -(300_000 * a) });
}

/// A point at or beyond an edge of the active zone lands exactly on the
/// matching screen edge, and no point at all leaves the screen rectangle:
/// for a screen of non-negative size the scaled position stays within
/// `[0, width]` and `[0, height]`.
pub proof fn lemma_zone_clamps(x: int, y: int, screen: ScreenConfig)
    requires
        screen.width >= 0,
        screen.height >= 0,
    ensures
        0 <= screen_dx(x, screen.width as int) <= screen.width,
        0 <= screen_dy(y, screen.height as int) <= screen.height,
        screen.x_offset <= base_position(x, y, screen).0 <= screen.x_offset + screen.width,
        screen.y_offset <= base_position(x, y, screen).1 <= screen.y_offset + screen.height,
        x <= ZONE_MIN ==> screen_dx(x, screen.width as int) == screen.width,
        x >= ZONE_MAX ==> screen_dx(x, screen.width as int) == 0,
        y <= ZONE_MIN ==> screen_dy(y, screen.height as int) == 0,
        y >= ZONE_MAX ==> screen_dy(y, screen.height as int) == screen.height,
{
    lemma_zone_scale_between(ZONE_SPAN - zone_position(x), screen.width as int);
    lemma_zone_scale_between(zone_position(y), screen.height as int);
}

/// The horizontal axis is mirrored: the lower edge of the active zone maps
/// to the right edge of the screen and the upper edge to the left edge.
pub proof fn lemma_zone_mirror(width: int)
    ensures
        screen_dx(ZONE_MIN as int, width) == width,
        screen_dx(ZONE_MAX as int, width) == 0,
{
    lemma_zone_scale_between(ZONE_SPAN as int, width);
    lemma_zone_scale_between(0, width);
}

/// Pixel column on the screen for a camera column: the camera frame is
/// mirrored and stretched over the screen width, rounded toward zero.
pub open spec fn frame_to_screen_x(cam_x: int, cam_width: int, screen_width: int) -> int {
    saturate(div_toward_zero((cam_width - cam_x) * screen_width, cam_width))
}

/// Pixel row on the screen for a camera row: the camera frame is stretched
/// over the screen height, rounded toward zero.
pub open spec fn frame_to_screen_y(cam_y: int, cam_height: int, screen_height: int) -> int {
    saturate(div_toward_zero(cam_y * screen_height, cam_height))
}

/// Maps whole camera frames onto a screen of another resolution.
pub struct CoordinateMapper {
    cam_width: i32,
    cam_height: i32,
    screen_width: i32,
    screen_height: i32,
}

impl CoordinateMapper {
    #[verifier::type_invariant]
    spec fn inv(&self) -> bool {
        self.cam_width > 0 && self.cam_height > 0
    }

    /// Camera frame size in pixels.
    pub closed spec fn camera(&self) -> (int, int) {
        (self.cam_width as int, self.cam_height as int)
    }

    /// Screen size in pixels.
    pub closed spec fn screen(&self) -> (int, int) {
        (self.screen_width as int, self.screen_height as int)
    }

    /// A mapper from a camera frame of positive size to a screen.
    pub fn new(cam_w: i32, cam_h: i32, screen_w: i32, screen_h: i32) -> (m: CoordinateMapper)
        requires
            cam_w > 0,
            cam_h > 0,
        ensures
            m.camera() == (cam_w as int, cam_h as int),
            m.screen() == (screen_w as int, screen_h as int),
    {
        CoordinateMapper {
            cam_width: cam_w,
            cam_height: cam_h,
            screen_width: screen_w,
            screen_height: screen_h,
        }
    }

    /// The screen pixel for a camera pixel, mirrored horizontally.
    pub fn map_to_screen(&self, cam_x: i32, cam_y: i32) -> (r: (i32, i32))
        ensures
            r.0 == frame_to_screen_x(cam_x as int, self.camera().0, self.screen().0),
            r.1 == frame_to_screen_y(cam_y as int, self.camera().1, self.screen().1),
    {
        proof {
            use_type_invariant(self);
        }
        let mx: i128 = self.cam_width as i128 - cam_x as i128;
        let sw: i128 = self.screen_width as i128;
        let my: i128 = cam_y as i128;
        let sh: i128 = self.screen_height as i128;
        proof {
            assert(-0x1_0000_0000 * 0x8000_0000 <= mx * sw <= 0x1_0000_0000 * 0x8000_0000) by (nonlinear_arith)
                requires
                    -0x1_0000_0000 <= mx <= 0x1_0000_0000,
                    -0x8000_0000 <= sw <= 0x8000_0000,
            ;
            assert(-0x1_0000_0000 * 0x8000_0000 <= my * sh <= 0x1_0000_0000 * 0x8000_0000) by (nonlinear_arith)
                requires
                    -0x1_0000_0000 <= my <= 0x1_0000_0000,
                    -0x8000_0000 <= sh <= 0x8000_0000,
            ;
        }
        let sx: i128 = (mx * sw) / (self.cam_width as i128);
        let sy: i128 = (my * sh) / (self.cam_height as i128);
        (saturate_i128(sx), saturate_i128(sy))
    }
}

} // verus!
