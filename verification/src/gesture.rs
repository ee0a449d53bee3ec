//! The click gesture: an edge-triggered latch driven by landmark geometry.

use vstd::prelude::*;
use crate::vision::{HandResult, THUMB_BASE};

verus! {

/// Squared distance between the tips of thumb and index finger below which
/// they count as pinched: 0.003, in millionths squared.
pub const PINCH_LIMIT: i64 = 3_000_000_000;

/// How far the tip of the thumb must stand above its base to count as
/// raised: 0.04, in millionths.
pub const THUMB_RAISE: i32 = 40_000;

/// Which hand pose triggers a click.
#[derive(Clone, Copy, Debug, PartialEq, Eq, Structural)]
pub enum GestureKind {
    /// Tips of thumb and index finger brought together.
    Pinch,
    /// Thumb raised above its base; the pointer is held still meanwhile.
    ThumbsUp,
}

/// Squared Euclidean distance between two points.
pub open spec fn distance_squared(a: (i32, i32), b: (i32, i32)) -> int {
    (a.0 - b.0) * (a.0 - b.0) + (a.1 - b.1) * (a.1 - b.1)
}

/// The pinch condition: the two tips are closer than the pinch limit.
pub open spec fn pinched(hand: HandResult) -> bool {
    distance_squared(hand.index_tip, hand.thumb_tip) < PINCH_LIMIT
}

/// The thumbs-up condition: the thumb tip lies above the thumb base by more
/// than `THUMB_RAISE` (image `y` grows downwards).
pub open spec fn thumb_raised(hand: HandResult) -> bool {
    hand.thumb_tip.1 < hand.all_landmarks@[THUMB_BASE as int].1 - THUMB_RAISE
}

/// Whether a hand shows the triggering pose of the given kind.
pub open spec fn triggered(kind: GestureKind, hand: HandResult) -> bool {
    match kind {
        GestureKind::Pinch => pinched(hand),
        GestureKind::ThumbsUp => thumb_raised(hand),
    }
}

/// The latch's transition: from whether it was clicking and whether the
/// trigger condition holds now, to whether it is clicking afterwards and
/// whether a click fires.
pub open spec fn latch_step(was_clicking: bool, active: bool) -> (bool, bool) {
    (active, active && !was_clicking)
}

/// What the gesture asks of the pointer for one frame.
#[derive(Clone, Copy, Debug, PartialEq, Eq, Structural)]
pub struct GestureOutput {
    /// A click fires on this frame.
    pub click: bool,
    /// The pointer must not move on this frame.
    pub freeze: bool,
}

/// Two-state click latch: idle or clicking.
#[derive(Clone, Copy, Debug, PartialEq, Eq, Structural)]
pub struct GestureStateMachine {
    pub kind: GestureKind,
    pub is_clicking: bool,
}

impl GestureStateMachine {
    /// An idle latch for the given kind of gesture.
    pub fn new(kind: GestureKind) -> (g: GestureStateMachine)
        ensures
            g.kind == kind,
            !g.is_clicking,
    {
        GestureStateMachine { kind, is_clicking: false }
    }

    /// Whether `hand` shows the triggering pose.
    pub fn is_triggered(&self, hand: &HandResult) -> (active: bool)
        requires
            hand.wf(),
        ensures
            active == triggered(self.kind, *hand),
    {
        match self.kind {
            GestureKind::Pinch => {
                let dx: i128 = hand.index_tip.0 as i128 - hand.thumb_tip.0 as i128;
                let dy: i128 = hand.index_tip.1 as i128 - hand.thumb_tip.1 as i128;
                proof {
                    assert(0 <= dx * dx <= 0x1_0000_0000 * 0x1_0000_0000) by (nonlinear_arith)
                        requires
                            -0x1_0000_0000 <= dx <= 0x1_0000_0000,
                    ;
                    assert(0 <= dy * dy <= 0x1_0000_0000 * 0x1_0000_0000) by (nonlinear_arith)
                        requires
                            -0x1_0000_0000 <= dy <= 0x1_0000_0000,
                    ;
                }
                dx * dx + dy * dy < PINCH_LIMIT as i128
            },
            GestureKind::ThumbsUp => {
                let base: i64 = hand.all_landmarks[THUMB_BASE].1 as i64;
                (hand.thumb_tip.1 as i64) < base - THUMB_RAISE as i64
            },
        }
    }

    /// Advances the latch by one frame on which the trigger condition is
    /// `active`. A click fires only on the frame that turns the latch on;
    /// the latch turns off as soon as the condition ceases.
    pub fn latch(&mut self, active: bool) -> (out: GestureOutput)
        ensures
            final(self).kind == old(self).kind,
            final(self).is_clicking == latch_step(old(self).is_clicking, active).0,
            out.click == latch_step(old(self).is_clicking, active).1,
            out.freeze == (active && old(self).kind == GestureKind::ThumbsUp),
    {
        let click: bool = active && !self.is_clicking;
        self.is_clicking = active;
        let freeze: bool = match self.kind {
            GestureKind::Pinch => false,
            GestureKind::ThumbsUp => active,
        };
        GestureOutput { click, freeze }
    }

    /// Advances the latch by one observed hand.
    pub fn update(&mut self, hand: &HandResult) -> (out: GestureOutput)
        requires
            hand.wf(),
        ensures
            final(self).kind == old(self).kind,
            final(self).is_clicking == triggered(old(self).kind, *hand),
            out.click == (triggered(old(self).kind, *hand) && !old(self).is_clicking),
            out.freeze == (triggered(old(self).kind, *hand) && old(self).kind == GestureKind::ThumbsUp),
    {
        let active: bool = self.is_triggered(hand);
        self.latch(active)
    }
}

/// A click fires exactly on the transition from idle to clicking.
pub proof fn lemma_click_on_rising_edge(was_clicking: bool, active: bool)
    ensures
        latch_step(was_clicking, active).1 <==> (!was_clicking && latch_step(was_clicking, active).0),
{
}

/// While the trigger condition keeps holding no further click fires,
/// whatever the state before.
pub proof fn lemma_no_repeated_click(was_clicking: bool)
    ensures
        !latch_step(latch_step(was_clicking, true).0, true).1,
{
}

/// The latch returns to idle as soon as the condition ceases, so the next
/// activation fires again.
pub proof fn lemma_release_rearms(was_clicking: bool)
    ensures
        !latch_step(was_clicking, false).0,
        !latch_step(was_clicking, false).1,
        latch_step(latch_step(was_clicking, false).0, true).1,
{
}

} // verus!
