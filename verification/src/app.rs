//! The per-frame orchestration of the tracking pipeline.
//!
//! The surrounding program captures a frame, runs the predictor and reports
//! what came of it as a `FrameEvent`; `AppContext::step` decides what to do
//! next and carries the smoother, the gesture latch and the pointer anchor
//! from one frame to the next.

use vstd::prelude::*;
use crate::gesture::{triggered, GestureKind, GestureStateMachine};
use crate::input::MouseManager;
use crate::logic::{base_position, boosted, map_active_zone, PointerTarget, SmoothFilter};
use crate::vision::HandResult;

verus! {

/// Smoothing factor of the pipeline's filter: 0.2.
pub const DEFAULT_ALPHA: i32 = 200_000;

/// Sensitivity used where none is configured: 1.5.
pub const DEFAULT_SENSITIVITY: i32 = 1_500_000;

/// Pause after a failed capture before the next attempt, in milliseconds.
pub const CAPTURE_BACKOFF_MS: u64 = 100;

/// The screen rectangle that the pointer is mapped onto, in pixels.
#[derive(Clone, Copy, Debug, PartialEq, Eq, Structural)]
pub struct ScreenConfig {
    pub width: i32,
    pub height: i32,
    pub x_offset: i32,
    pub y_offset: i32,
}

impl Default for ScreenConfig {
    /// A 1920 x 1080 screen at the origin.
    fn default() -> (screen: ScreenConfig)
        ensures
            screen == (ScreenConfig { width: 1920, height: 1080, x_offset: 0, y_offset: 0 }),
    {
        ScreenConfig { width: 1920, height: 1080, x_offset: 0, y_offset: 0 }
    }
}

/// What came of one attempt to capture and read a frame.
#[derive(Debug)]
pub enum FrameEvent {
    /// The frame source failed.
    CaptureFailed,
    /// The predictor failed or returned malformed output.
    InferenceFailed,
    /// The frame was read and shows no hand.
    NoHand,
    /// The frame was read and shows this hand.
    Hand(HandResult),
}

/// What the pointer is to do for one observed hand.
#[derive(Clone, Copy, Debug, PartialEq, Eq)]
pub struct FramePlan {
    /// Where to move the pointer, unless it is held still.
    pub target: Option<PointerTarget>,
    /// Whether a left click follows the move.
    pub click: bool,
}

/// What the surrounding loop is to do before the next frame.
#[derive(Clone, Copy, Debug, PartialEq, Eq)]
pub enum LoopAction {
    /// Sleep for this many milliseconds, then try again.
    Backoff(u64),
    /// Go on to the next frame; the pointer stays where it is.
    Skip,
    /// Move and click as planned, then go on to the next frame.
    Act(FramePlan),
}

/// The state that one iteration of the pipeline hands to the next.
pub struct AppContext {
    pub filter: SmoothFilter,
    pub gesture: GestureStateMachine,
    pub mouse: MouseManager,
    pub sensitivity: i32,
    pub screen_config: ScreenConfig,
    pub frame_count: u64,
}

/// The pointer target for a hand: its index tip smoothed by the context's
/// filter, mapped through the active zone onto the screen and boosted.
pub open spec fn planned_target(ctx: AppContext, hand: HandResult) -> PointerTarget {
    let smoothed = ctx.filter.output(hand.index_tip.0, hand.index_tip.1);
    let base = base_position(smoothed.0, smoothed.1, ctx.screen_config);
    PointerTarget {
        x: boosted(base.0, ctx.sensitivity as int) as i32,
        y: boosted(base.1, ctx.sensitivity as int) as i32,
    }
}

/// The plan for a hand: a click on the frame where the gesture sets in, and
/// the target unless a thumbs-up holds the pointer still.
pub open spec fn planned(ctx: AppContext, hand: HandResult) -> FramePlan {
    let active = triggered(ctx.gesture.kind, hand);
    FramePlan {
        target: if active && ctx.gesture.kind == GestureKind::ThumbsUp {
            None
        } else {
            Some(planned_target(ctx, hand))
        },
        click: active && !ctx.gesture.is_clicking,
    }
}

impl AppContext {
    /// A fresh context: nothing smoothed yet, the latch idle, the pointer
    /// without an anchor, no frame counted.
    pub fn new(sensitivity: i32, screen_config: ScreenConfig, kind: GestureKind) -> (ctx: AppContext)
        ensures
            ctx.filter.alpha() == DEFAULT_ALPHA,
            !ctx.filter.initialized(),
            ctx.gesture == (GestureStateMachine { kind, is_clicking: false }),
            ctx.mouse.anchor() is None,
            ctx.sensitivity == sensitivity,
            ctx.screen_config == screen_config,
            ctx.frame_count == 0,
    {
        AppContext {
            filter: SmoothFilter::new(DEFAULT_ALPHA),
            gesture: GestureStateMachine::new(kind),
            mouse: MouseManager::new(),
            sensitivity,
            screen_config,
            frame_count: 0,
        }
    }

    /// Counts one loop iteration. Once a second or more has passed since the
    /// last report it returns the number of iterations counted, this one
    /// included, and starts counting anew.
    pub fn heartbeat(&mut self, elapsed_secs: u64) -> (report: Option<u64>)
        requires
            old(self).frame_count < u64::MAX,
        ensures
            report == if elapsed_secs >= 1 {
                Some((old(self).frame_count + 1) as u64)
            } else {
                None
            },
            final(self).frame_count == if elapsed_secs >= 1 {
                0
            } else {
                old(self).frame_count + 1
            },
            final(self).filter == old(self).filter,
            final(self).gesture == old(self).gesture,
            final(self).mouse == old(self).mouse,
            final(self).sensitivity == old(self).sensitivity,
            final(self).screen_config == old(self).screen_config,
    {
        self.frame_count = self.frame_count + 1;
        if elapsed_secs >= 1 {
            let count: u64 = self.frame_count;
            self.frame_count = 0;
            Some(count)
        } else {
            None
        }
    }

    /// Runs one observed hand through smoothing, mapping and the gesture
    /// latch, in this order, and says what the pointer is to do.
    pub fn process_current_frame(&mut self, hand: &HandResult) -> (plan: FramePlan)
        requires
            hand.wf(),
        ensures
            plan == planned(*old(self), *hand),
            final(self).filter.alpha() == old(self).filter.alpha(),
            final(self).filter.initialized(),
            final(self).filter.last() == old(self).filter.output(hand.index_tip.0, hand.index_tip.1),
            final(self).gesture == (GestureStateMachine {
                kind: old(self).gesture.kind,
                is_clicking: triggered(old(self).gesture.kind, *hand),
            }),
            final(self).mouse == old(self).mouse,
            final(self).sensitivity == old(self).sensitivity,
            final(self).screen_config == old(self).screen_config,
            final(self).frame_count == old(self).frame_count,
    {
        let smoothed: (i32, i32) = self.filter.filter(hand.index_tip.0, hand.index_tip.1);
        let target: PointerTarget = map_active_zone(
            smoothed.0,
            smoothed.1,
            &self.screen_config,
            self.sensitivity,
        );
        let gesture = self.gesture.update(hand);
        FramePlan { target: if gesture.freeze { None } else { Some(target) }, click: gesture.click }
    }

    /// Decides what follows one attempt to capture and read a frame. A
    /// failed capture asks for a pause; a failed inference and a frame
    /// without a hand change nothing; a hand is processed.
    pub fn step(&mut self, event: &FrameEvent) -> (action: LoopAction)
        requires
            event matches FrameEvent::Hand(h) ==> h.wf(),
        ensures
            match *event {
                FrameEvent::CaptureFailed => action == LoopAction::Backoff(CAPTURE_BACKOFF_MS)
                    && *final(self) == *old(self),
                FrameEvent::InferenceFailed => action == LoopAction::Skip && *final(self) == *old(self),
                FrameEvent::NoHand => action == LoopAction::Skip && *final(self) == *old(self),
                FrameEvent::Hand(hand) => {
                    &&& action == LoopAction::Act(planned(*old(self), hand))
                    &&& final(self).filter.alpha() == old(self).filter.alpha()
                    &&& final(self).filter.initialized()
                    &&& final(self).filter.last() == old(self).filter.output(
                        hand.index_tip.0,
                        hand.index_tip.1,
                    )
                    &&& final(self).gesture == (GestureStateMachine {
                        kind: old(self).gesture.kind,
                        is_clicking: triggered(old(self).gesture.kind, hand),
                    })
                    &&& final(self).mouse == old(self).mouse
                    &&& final(self).sensitivity == old(self).sensitivity
                    &&& final(self).screen_config == old(self).screen_config
                    &&& final(self).frame_count == old(self).frame_count
                },
            },
    {
        match event {
            FrameEvent::CaptureFailed => LoopAction::Backoff(CAPTURE_BACKOFF_MS),
            FrameEvent::InferenceFailed => LoopAction::Skip,
            FrameEvent::NoHand => LoopAction::Skip,
            FrameEvent::Hand(hand) => LoopAction::Act(self.process_current_frame(hand)),
        }
    }
}

} // verus!
