use inkplate_touch::engine::{
    GestureEngine, TouchEventState, TouchInput, DISTANCE_THRESHOLD, HOLD_TIMEOUT_MS,
    LONG_TIMEOUT_MS, PINCH_THRESHOLD, RELEASE_TIMEOUT_MS,
};
use inkplate_touch::event::{TouchEvent, TouchEventKind};
use inkplate_touch::fixed::ONE;
use inkplate_touch::position::{RawSample, Tracking1Position, Tracking2Position};
use inkplate_touch::transform::{CoordTransform, Rotation};

fn engine(display: (u16, u16), sensor: (u16, u16)) -> GestureEngine {
    let transform =
        CoordTransform::new(display.0, display.1, sensor.0, sensor.1, Rotation::Rotate270)
            .unwrap();
    GestureEngine::new(transform)
}

fn panel() -> GestureEngine {
    engine((1024, 758), (1000, 1000))
}

fn unscaled() -> GestureEngine {
    engine((1000, 1000), (1000, 1000))
}

fn one(x: u16, y: u16) -> TouchInput {
    TouchInput::Sample(RawSample { num_fingers: 1, x: [x, 0], y: [y, 0] })
}

fn two(a: (u16, u16), b: (u16, u16)) -> TouchInput {
    TouchInput::Sample(RawSample { num_fingers: 2, x: [a.0, b.0], y: [a.1, b.1] })
}

fn lift() -> TouchInput {
    TouchInput::Sample(RawSample { num_fingers: 0, x: [0, 0], y: [0, 0] })
}

fn fingers(count: u8) -> TouchInput {
    TouchInput::Sample(RawSample { num_fingers: count, x: [700, 800], y: [700, 800] })
}

fn event(kind: TouchEventKind) -> Option<TouchEvent> {
    Some(TouchEvent { kind, x: 0, y: 0, dist: 0 })
}

#[test]
fn starts_idle_with_the_long_timeout() {
    let e = panel();
    assert_eq!(e.state(), TouchEventState::Idle);
    assert_eq!(e.timeout_ms(), 100_000);
    assert_eq!(LONG_TIMEOUT_MS, 100_000);
    assert_eq!(HOLD_TIMEOUT_MS, 500);
    assert_eq!(RELEASE_TIMEOUT_MS, 1000);
    assert_eq!(DISTANCE_THRESHOLD, 30 * ONE);
    assert_eq!(PINCH_THRESHOLD, ONE);
}

#[test]
fn tap_at_the_scaled_point() {
    let mut e = panel();
    assert_eq!(e.step(one(500, 500)), None);
    assert_eq!(
        e.state(),
        TouchEventState::WaitNext { track1: Tracking1Position { x: 33_554_432, y: 24_838_144 } }
    );
    assert_eq!(e.timeout_ms(), 500);
    assert_eq!(
        e.step(lift()),
        Some(TouchEvent { kind: TouchEventKind::Tap, x: 512, y: 379, dist: 0 })
    );
    assert_eq!(e.state(), TouchEventState::Idle);
    assert_eq!(e.timeout_ms(), 100_000);
}

#[test]
fn tap_rounds_the_pixel_down() {
    let mut e = panel();
    assert_eq!(e.step(one(333, 333)), None);
    assert_eq!(
        e.state(),
        TouchEventState::WaitNext { track1: Tracking1Position { x: 22_347_251, y: 16_542_203 } }
    );
    assert_eq!(
        e.step(lift()),
        Some(TouchEvent { kind: TouchEventKind::Tap, x: 340, y: 252, dist: 0 })
    );
}

#[test]
fn tap_survives_small_moves() {
    let mut e = unscaled();
    assert_eq!(e.step(one(100, 100)), None);
    assert_eq!(e.timeout_ms(), 500);
    assert_eq!(e.step(one(110, 100)), None);
    assert_eq!(e.timeout_ms(), 100_000);
    assert_eq!(e.step(one(118, 124)), None);
    assert_eq!(
        e.state(),
        TouchEventState::WaitNext {
            track1: Tracking1Position { x: 100 * ONE, y: 100 * ONE }
        }
    );
    assert_eq!(
        e.step(lift()),
        Some(TouchEvent { kind: TouchEventKind::Tap, x: 100, y: 100, dist: 0 })
    );
}

#[test]
fn move_of_exactly_the_threshold_is_no_swipe() {
    let mut e = unscaled();
    e.step(one(100, 100));
    assert_eq!(e.step(one(130, 100)), None);
    assert_eq!(
        e.state(),
        TouchEventState::WaitNext {
            track1: Tracking1Position { x: 100 * ONE, y: 100 * ONE }
        }
    );
    assert_eq!(e.step(one(118, 124)), None);
    assert!(matches!(e.state(), TouchEventState::WaitNext { .. }));
    assert_eq!(e.step(one(131, 100)), None);
    assert_eq!(
        e.state(),
        TouchEventState::Swiping {
            track2: Tracking2Position { x: [100 * ONE, 131 * ONE], y: [100 * ONE, 100 * ONE] }
        }
    );
}

#[test]
fn swipe_right_on_lift() {
    let mut e = panel();
    assert_eq!(e.step(one(500, 500)), None);
    assert_eq!(e.step(one(540, 500)), None);
    assert_eq!(
        e.state(),
        TouchEventState::Swiping {
            track2: Tracking2Position {
                x: [33_554_432, 36_238_786],
                y: [24_838_144, 24_838_144]
            }
        }
    );
    assert_eq!(e.timeout_ms(), 100_000);
    assert_eq!(e.step(lift()), event(TouchEventKind::SwipeRight));
    assert_eq!(e.state(), TouchEventState::Idle);
    assert_eq!(e.timeout_ms(), 100_000);
}

#[test]
fn swipe_left_on_lift() {
    let mut e = panel();
    e.step(one(500, 500));
    assert_eq!(e.step(one(400, 500)), None);
    assert_eq!(e.step(lift()), event(TouchEventKind::SwipeLeft));
    assert_eq!(e.state(), TouchEventState::Idle);
}

#[test]
fn swipe_straight_up_counts_as_left() {
    let mut e = unscaled();
    e.step(one(500, 500));
    assert_eq!(e.step(one(500, 100)), None);
    assert!(matches!(e.state(), TouchEventState::Swiping { .. }));
    assert_eq!(e.step(lift()), event(TouchEventKind::SwipeLeft));
}

#[test]
fn swipe_direction_goes_by_the_last_point() {
    let mut e = unscaled();
    e.step(one(500, 500));
    assert_eq!(e.step(one(600, 500)), None);
    assert_eq!(e.step(one(700, 520)), None);
    assert_eq!(e.step(one(450, 480)), None);
    assert_eq!(
        e.state(),
        TouchEventState::Swiping {
            track2: Tracking2Position { x: [500 * ONE, 450 * ONE], y: [500 * ONE, 480 * ONE] }
        }
    );
    assert_eq!(e.step(lift()), event(TouchEventKind::SwipeLeft));
}

#[test]
fn swipe_fires_on_timeout() {
    let mut e = unscaled();
    e.step(one(500, 500));
    e.step(one(560, 500));
    assert_eq!(e.step(TouchInput::Timeout), event(TouchEventKind::SwipeRight));
    assert_eq!(e.state(), TouchEventState::Idle);
    assert_eq!(e.timeout_ms(), 100_000);

    e.step(one(500, 500));
    e.step(one(440, 500));
    assert_eq!(e.step(TouchInput::Timeout), event(TouchEventKind::SwipeLeft));
    assert_eq!(e.state(), TouchEventState::Idle);
}

#[test]
fn pinch_enlarge_unscaled() {
    let mut e = unscaled();
    assert_eq!(e.step(two((100, 500), (300, 500))), None);
    assert_eq!(e.state(), TouchEventState::Pinching { dist: 200 * ONE });
    assert_eq!(e.timeout_ms(), 100_000);
    assert_eq!(
        e.step(two((100, 500), (360, 500))),
        Some(TouchEvent { kind: TouchEventKind::PinchEnlarge, x: 0, y: 0, dist: 60 * ONE })
    );
    assert_eq!(e.state(), TouchEventState::Pinching { dist: 260 * ONE });
    assert_eq!(e.timeout_ms(), 100_000);
}

#[test]
fn pinch_enlarge_scaled() {
    let mut e = panel();
    assert_eq!(e.step(two((100, 500), (300, 500))), None);
    assert_eq!(e.state(), TouchEventState::Pinching { dist: 13_421_773 });
    assert_eq!(
        e.step(two((100, 500), (360, 500))),
        Some(TouchEvent { kind: TouchEventKind::PinchEnlarge, x: 0, y: 0, dist: 4_026_532 })
    );
    assert_eq!(e.state(), TouchEventState::Pinching { dist: 17_448_305 });
}

#[test]
fn pinch_measures_the_diagonal() {
    let mut e = panel();
    assert_eq!(e.step(two((100, 100), (400, 500))), None);
    assert_eq!(e.state(), TouchEventState::Pinching { dist: 28_287_123 });
    let mut f = unscaled();
    assert_eq!(f.step(two((400, 500), (100, 100))), None);
    assert_eq!(f.state(), TouchEventState::Pinching { dist: 500 * ONE });
}

#[test]
fn pinch_reduce() {
    let mut e = unscaled();
    e.step(two((100, 500), (300, 500)));
    assert_eq!(
        e.step(two((150, 500), (250, 500))),
        Some(TouchEvent { kind: TouchEventKind::PinchReduce, x: 0, y: 0, dist: 100 * ONE })
    );
    assert_eq!(e.state(), TouchEventState::Pinching { dist: 100 * ONE });
}

#[test]
fn pinch_ignores_changes_up_to_the_threshold() {
    let mut e = unscaled();
    e.step(two((100, 500), (300, 500)));
    assert_eq!(e.step(two((100, 500), (301, 500))), None);
    assert_eq!(e.state(), TouchEventState::Pinching { dist: 200 * ONE });
    assert_eq!(e.step(two((100, 500), (299, 500))), None);
    assert_eq!(e.state(), TouchEventState::Pinching { dist: 200 * ONE });
    assert_eq!(e.step(two((101, 500), (301, 500))), None);
    assert_eq!(e.state(), TouchEventState::Pinching { dist: 200 * ONE });
    assert_eq!(e.timeout_ms(), 100_000);
    // measured against the remembered spread, not the last one seen
    assert_eq!(
        e.step(two((100, 500), (302, 500))),
        Some(TouchEvent { kind: TouchEventKind::PinchEnlarge, x: 0, y: 0, dist: 2 * ONE })
    );
    assert_eq!(e.state(), TouchEventState::Pinching { dist: 202 * ONE });
}

#[test]
fn pinch_ends_with_release() {
    let mut e = unscaled();
    e.step(two((100, 500), (300, 500)));
    assert_eq!(e.step(lift()), event(TouchEventKind::Release));
    assert_eq!(e.state(), TouchEventState::Idle);
    assert_eq!(e.timeout_ms(), 100_000);

    e.step(two((100, 500), (300, 500)));
    assert_eq!(e.step(TouchInput::Timeout), event(TouchEventKind::Release));
    assert_eq!(e.state(), TouchEventState::Idle);
    assert_eq!(e.timeout_ms(), 100_000);
}

#[test]
fn pinch_ignores_a_single_finger() {
    let mut e = unscaled();
    e.step(two((100, 500), (300, 500)));
    assert_eq!(e.step(one(100, 500)), None);
    assert_eq!(e.state(), TouchEventState::Pinching { dist: 200 * ONE });
    assert_eq!(e.timeout_ms(), 100_000);
}

#[test]
fn hold_then_release_by_timeout() {
    let mut e = panel();
    assert_eq!(e.step(one(500, 500)), None);
    assert_eq!(e.timeout_ms(), 500);
    assert_eq!(e.step(TouchInput::Timeout), event(TouchEventKind::Hold));
    assert_eq!(e.state(), TouchEventState::Holding);
    assert_eq!(e.timeout_ms(), 1000);
    assert_eq!(e.step(TouchInput::Timeout), event(TouchEventKind::Release));
    assert_eq!(e.state(), TouchEventState::Idle);
    assert_eq!(e.timeout_ms(), 100_000);
    assert_eq!(e.step(TouchInput::Timeout), None);
}

#[test]
fn hold_then_release_by_lift() {
    let mut e = panel();
    e.step(one(500, 500));
    assert_eq!(e.step(TouchInput::Timeout), event(TouchEventKind::Hold));
    assert_eq!(e.step(lift()), event(TouchEventKind::Release));
    assert_eq!(e.state(), TouchEventState::Idle);
    assert_eq!(e.timeout_ms(), 100_000);
}

#[test]
fn hold_stays_while_a_finger_is_down() {
    let mut e = panel();
    e.step(one(500, 500));
    e.step(TouchInput::Timeout);
    assert_eq!(e.step(one(900, 900)), None);
    assert_eq!(e.state(), TouchEventState::Holding);
    assert_eq!(e.timeout_ms(), 1000);
    assert_eq!(e.step(two((100, 100), (900, 900))), None);
    assert_eq!(e.state(), TouchEventState::Holding);
    assert_eq!(e.timeout_ms(), 1000);
    assert_eq!(e.step(TouchInput::Timeout), event(TouchEventKind::Release));
}

#[test]
fn second_finger_turns_any_gesture_into_a_pinch() {
    let mut e = unscaled();
    e.step(one(100, 100));
    assert_eq!(e.step(two((100, 100), (100, 400))), None);
    assert_eq!(e.state(), TouchEventState::Pinching { dist: 300 * ONE });
    assert_eq!(e.timeout_ms(), 100_000);

    let mut e = unscaled();
    e.step(one(100, 100));
    e.step(one(200, 100));
    assert!(matches!(e.state(), TouchEventState::Swiping { .. }));
    assert_eq!(e.step(two((30, 40), (0, 0))), None);
    assert_eq!(e.state(), TouchEventState::Pinching { dist: 50 * ONE });
    assert_eq!(e.timeout_ms(), 100_000);
}

#[test]
fn idle_ignores_lifts_and_timeouts() {
    let mut e = panel();
    assert_eq!(e.step(lift()), None);
    assert_eq!(e.state(), TouchEventState::Idle);
    assert_eq!(e.timeout_ms(), 100_000);
    assert_eq!(e.step(TouchInput::Timeout), None);
    assert_eq!(e.state(), TouchEventState::Idle);
    assert_eq!(e.timeout_ms(), 100_000);
}

#[test]
fn more_than_two_fingers_change_nothing() {
    let mut e = unscaled();
    assert_eq!(e.step(fingers(3)), None);
    assert_eq!(e.state(), TouchEventState::Idle);

    e.step(one(100, 100));
    let waiting = e.state();
    assert_eq!(e.step(fingers(3)), None);
    assert_eq!(e.state(), waiting);
    assert_eq!(e.timeout_ms(), 100_000);

    e.step(one(200, 100));
    let swiping = e.state();
    assert!(matches!(swiping, TouchEventState::Swiping { .. }));
    assert_eq!(e.step(fingers(255)), None);
    assert_eq!(e.state(), swiping);

    e.step(two((0, 0), (0, 10)));
    assert_eq!(e.step(fingers(4)), None);
    assert_eq!(e.state(), TouchEventState::Pinching { dist: 10 * ONE });
}

#[test]
fn rotation_does_not_change_the_tap() {
    let rotations = [
        Rotation::Rotate0,
        Rotation::Rotate90,
        Rotation::Rotate180,
        Rotation::Rotate270,
    ];
    for rotation in rotations {
        let transform = CoordTransform::new(1024, 758, 1000, 1000, rotation).unwrap();
        let mut e = GestureEngine::new(transform);
        e.step(one(250, 750));
        assert_eq!(
            e.step(lift()),
            Some(TouchEvent { kind: TouchEventKind::Tap, x: 256, y: 568, dist: 0 })
        );
    }
}

#[test]
fn largest_readings_under_the_largest_scale() {
    let mut e = engine((65535, 65535), (1, 1));
    assert_eq!(e.step(one(65535, 65535)), None);
    assert_eq!(
        e.state(),
        TouchEventState::WaitNext {
            track1: Tracking1Position { x: 281_466_386_841_600, y: 281_466_386_841_600 }
        }
    );
    assert_eq!(
        e.step(lift()),
        Some(TouchEvent { kind: TouchEventKind::Tap, x: 4_294_836_225, y: 4_294_836_225, dist: 0 })
    );
    assert_eq!(e.step(two((0, 0), (65535, 65535))), None);
    assert_eq!(e.state(), TouchEventState::Pinching { dist: 398_053_581_623_542 });
    e.step(lift());
    e.step(one(0, 0));
    assert_eq!(e.step(one(65535, 65535)), None);
    assert!(matches!(e.state(), TouchEventState::Swiping { .. }));
    assert_eq!(e.step(lift()), event(TouchEventKind::SwipeRight));
}

#[test]
fn at_most_one_event_per_input() {
    let inputs = vec![
        lift(),
        one(500, 500),
        one(505, 500),
        lift(),
        TouchInput::Timeout,
        one(100, 100),
        TouchInput::Timeout,
        one(100, 100),
        TouchInput::Timeout,
        two((100, 100), (200, 200)),
        two((100, 100), (300, 300)),
        two((100, 100), (300, 300)),
        one(100, 100),
        lift(),
        one(100, 100),
        one(900, 100),
        one(50, 100),
        TouchInput::Timeout,
    ];
    let mut e = panel();
    let mut kinds: Vec<TouchEventKind> = Vec::new();
    for input in inputs.iter() {
        if let Some(ev) = e.step(*input) {
            kinds.push(ev.kind);
        }
    }
    assert!(kinds.len() <= inputs.len());
    assert_eq!(
        kinds,
        vec![
            TouchEventKind::Tap,
            TouchEventKind::Hold,
            TouchEventKind::Release,
            TouchEventKind::PinchEnlarge,
            TouchEventKind::Release,
            TouchEventKind::SwipeLeft,
        ]
    );
    assert_eq!(e.state(), TouchEventState::Idle);
}
