use air_link::app::{AppContext, FrameEvent, FramePlan, LoopAction, ScreenConfig, CAPTURE_BACKOFF_MS};
use air_link::cli::TrackingMode;
use air_link::gesture::{GestureKind, GestureOutput, GestureStateMachine};
use air_link::input::{InputEvent, MouseManager};
use air_link::logic::PointerTarget;
use air_link::vision::{HandDetector, HandResult, DEFAULT_THRESHOLD};

fn hand(index: (i32, i32), thumb: (i32, i32), thumb_base_y: i32) -> HandResult {
    let mut data: Vec<i32> = vec![0; 63];
    data[3 * 8] = index.0;
    data[3 * 8 + 1] = index.1;
    data[3 * 4] = thumb.0;
    data[3 * 4 + 1] = thumb.1;
    data[3 * 2 + 1] = thumb_base_y;
    HandDetector::new(DEFAULT_THRESHOLD).detect(&data, None).unwrap()
}

fn full_hd() -> ScreenConfig {
    ScreenConfig { width: 1920, height: 1080, x_offset: 0, y_offset: 0 }
}

#[test]
fn pinch_clicks_once_per_activation() {
    let mut latch = GestureStateMachine::new(GestureKind::Pinch);
    let near = hand((500_000, 500_000), (540_000, 520_000), 0);
    let far = hand((500_000, 500_000), (600_000, 500_000), 0);

    assert_eq!(latch.update(&near), GestureOutput { click: true, freeze: false });
    assert!(latch.is_clicking);
    assert_eq!(latch.update(&near), GestureOutput { click: false, freeze: false });
    assert_eq!(latch.update(&near), GestureOutput { click: false, freeze: false });
    assert!(latch.is_clicking);
    assert_eq!(latch.update(&far), GestureOutput { click: false, freeze: false });
    assert!(!latch.is_clicking);
    assert_eq!(latch.update(&near), GestureOutput { click: true, freeze: false });
}

#[test]
fn pinch_limit_is_exclusive() {
    let latch = GestureStateMachine::new(GestureKind::Pinch);
    assert!(latch.is_triggered(&hand((0, 0), (54_772, 0), 0)));
    assert!(!latch.is_triggered(&hand((0, 0), (54_773, 0), 0)));
    assert!(latch.is_triggered(&hand((0, 0), (0, -54_772), 0)));
    assert!(!latch.is_triggered(&hand((0, 0), (30_000, 46_000), 0)));
    assert!(latch.is_triggered(&hand((7, 7), (7, 7), 0)));
}

#[test]
fn pinch_distance_does_not_overflow() {
    let latch = GestureStateMachine::new(GestureKind::Pinch);
    assert!(!latch.is_triggered(&hand((i32::MIN, i32::MIN), (i32::MAX, i32::MAX), 0)));
}

#[test]
fn thumbs_up_clicks_and_holds_the_pointer() {
    let mut latch = GestureStateMachine::new(GestureKind::ThumbsUp);
    let raised = hand((500_000, 500_000), (500_000, 400_000), 450_000);
    let level = hand((500_000, 500_000), (500_000, 400_000), 440_000);

    assert_eq!(latch.update(&level), GestureOutput { click: false, freeze: false });
    assert_eq!(latch.update(&raised), GestureOutput { click: true, freeze: true });
    assert_eq!(latch.update(&raised), GestureOutput { click: false, freeze: true });
    assert_eq!(latch.update(&level), GestureOutput { click: false, freeze: false });
    assert!(!latch.is_clicking);
}

#[test]
fn thumbs_up_ignores_the_pinch_distance() {
    let latch = GestureStateMachine::new(GestureKind::ThumbsUp);
    assert!(!latch.is_triggered(&hand((0, 0), (0, 0), 0)));
    assert!(latch.is_triggered(&hand((0, 0), (900_000, -40_001), 0)));
    assert!(!latch.is_triggered(&hand((0, 0), (900_000, -40_000), 0)));
}

#[test]
fn latch_follows_the_condition() {
    let mut latch = GestureStateMachine::new(GestureKind::Pinch);
    assert_eq!(latch.latch(false), GestureOutput { click: false, freeze: false });
    assert_eq!(latch.latch(true), GestureOutput { click: true, freeze: false });
    assert_eq!(latch.latch(true), GestureOutput { click: false, freeze: false });
    assert_eq!(latch.latch(false), GestureOutput { click: false, freeze: false });
    assert_eq!(latch.latch(true), GestureOutput { click: true, freeze: false });
    assert_eq!(latch.kind, GestureKind::Pinch);
}

#[test]
fn repeated_target_emits_nothing() {
    let mut mouse = MouseManager::new();
    assert_eq!(mouse.position(), None);
    assert_eq!(mouse.move_to(10, 10), Vec::new());
    assert_eq!(mouse.position(), Some((10, 10)));
    assert_eq!(mouse.move_to(10, 10), Vec::new());
    assert_eq!(mouse.position(), Some((10, 10)));
}

#[test]
fn new_target_emits_one_relative_motion() {
    let mut mouse = MouseManager::new();
    assert_eq!(mouse.move_to(10, 10), Vec::new());
    assert_eq!(
        mouse.move_to(15, 12),
        vec![InputEvent::RelativeX(5), InputEvent::RelativeY(2), InputEvent::Synchronize]
    );
    assert_eq!(mouse.position(), Some((15, 12)));
    assert_eq!(
        mouse.move_to(15, 2),
        vec![InputEvent::RelativeX(0), InputEvent::RelativeY(-10), InputEvent::Synchronize]
    );
}

#[test]
fn planned_motion_leaves_the_anchor() {
    let mut mouse = MouseManager::new();
    assert_eq!(mouse.motion_events(3, 4), Vec::new());
    assert_eq!(mouse.position(), None);
    mouse.move_to(3, 4);
    assert_eq!(
        mouse.motion_events(0, 0),
        vec![InputEvent::RelativeX(-3), InputEvent::RelativeY(-4), InputEvent::Synchronize]
    );
    assert_eq!(mouse.position(), Some((3, 4)));
}

#[test]
fn displacement_must_fit_the_event_value() {
    let mut mouse = MouseManager::new();
    assert!(mouse.can_reach(i32::MAX, i32::MIN));
    mouse.move_to(-1, 0);
    assert!(mouse.can_reach(i32::MAX - 1, i32::MIN));
    assert!(!mouse.can_reach(i32::MAX, 0));
    mouse.move_to(0, 1);
    assert!(!mouse.can_reach(0, i32::MIN));
    assert!(mouse.can_reach(i32::MIN, i32::MIN + 2));
}

#[test]
fn click_is_press_then_release() {
    let mouse = MouseManager::new();
    assert_eq!(
        mouse.click_left(),
        vec![
            InputEvent::LeftButton(true),
            InputEvent::Synchronize,
            InputEvent::LeftButton(false),
            InputEvent::Synchronize,
        ]
    );
}

#[test]
fn failed_capture_asks_for_a_pause() {
    let mut ctx = AppContext::new(1_500_000, full_hd(), GestureKind::Pinch);
    assert_eq!(CAPTURE_BACKOFF_MS, 100);
    assert_eq!(ctx.step(&FrameEvent::CaptureFailed), LoopAction::Backoff(100));
    assert_eq!(ctx.step(&FrameEvent::CaptureFailed), LoopAction::Backoff(100));
}

#[test]
fn failed_inference_and_no_hand_leave_the_state() {
    let mut ctx = AppContext::new(1_500_000, full_hd(), GestureKind::Pinch);
    let pinched = hand((500_000, 500_000), (510_000, 500_000), 0);
    let first = ctx.step(&FrameEvent::Hand(pinched.clone()));
    assert_eq!(
        first,
        LoopAction::Act(FramePlan { target: Some(PointerTarget { x: 2160, y: 1215 }), click: true })
    );
    assert_eq!(ctx.step(&FrameEvent::InferenceFailed), LoopAction::Skip);
    assert_eq!(ctx.step(&FrameEvent::NoHand), LoopAction::Skip);
    assert!(ctx.gesture.is_clicking);
    let again = ctx.step(&FrameEvent::Hand(pinched));
    assert_eq!(
        again,
        LoopAction::Act(FramePlan { target: Some(PointerTarget { x: 2160, y: 1215 }), click: false })
    );
}

#[test]
fn hand_is_smoothed_then_mapped() {
    let mut ctx = AppContext::new(1_500_000, full_hd(), GestureKind::Pinch);
    let center = hand((500_000, 500_000), (900_000, 900_000), 0);
    let right = hand((800_000, 500_000), (100_000, 100_000), 0);
    assert_eq!(
        ctx.process_current_frame(&center),
        FramePlan { target: Some(PointerTarget { x: 2160, y: 1215 }), click: false }
    );
    assert_eq!(
        ctx.process_current_frame(&right),
        FramePlan { target: Some(PointerTarget { x: 1728, y: 1215 }), click: false }
    );
}

#[test]
fn thumbs_up_plan_has_no_target() {
    let mut ctx = AppContext::new(1_000_000, full_hd(), GestureKind::ThumbsUp);
    let raised = hand((500_000, 500_000), (500_000, 400_000), 450_000);
    let level = hand((500_000, 500_000), (500_000, 450_000), 450_000);
    assert_eq!(ctx.process_current_frame(&raised), FramePlan { target: None, click: true });
    assert_eq!(ctx.process_current_frame(&raised), FramePlan { target: None, click: false });
    assert_eq!(
        ctx.process_current_frame(&level),
        FramePlan { target: Some(PointerTarget { x: 1440, y: 810 }), click: false }
    );
}

#[test]
fn heartbeat_reports_once_a_second() {
    let mut ctx = AppContext::new(1_500_000, full_hd(), GestureKind::Pinch);
    assert_eq!(ctx.heartbeat(0), None);
    assert_eq!(ctx.heartbeat(0), None);
    assert_eq!(ctx.frame_count, 2);
    assert_eq!(ctx.heartbeat(1), Some(3));
    assert_eq!(ctx.frame_count, 0);
    assert_eq!(ctx.heartbeat(5), Some(1));
    assert_eq!(ctx.heartbeat(0), None);
}

#[test]
fn default_screen_is_full_hd_at_the_origin() {
    assert_eq!(ScreenConfig::default(), full_hd());
    assert_eq!(air_link::app::DEFAULT_SENSITIVITY, 1_500_000);
    assert_eq!(air_link::app::DEFAULT_ALPHA, 200_000);
}

#[test]
fn tracking_modes_are_ordered() {
    assert!(TrackingMode::Color < TrackingMode::Ai);
    assert_eq!(TrackingMode::Ai, TrackingMode::Ai);
    assert_ne!(TrackingMode::Ai, TrackingMode::Color);
}
