//! What the recognizer guarantees about whole gestures.

use vstd::prelude::*;
use crate::engine::{
    finger_point, finger_spread, tap_event, travel, GestureEngineView, TouchEventState,
    TouchInput, DISTANCE_THRESHOLD, LONG_TIMEOUT_MS, PINCH_THRESHOLD, RELEASE_TIMEOUT_MS,
};
use crate::event::{TouchEvent, TouchEventKind};
use crate::fixed::{abs_diff_spec, dist_sq, lemma_dist_sq_fits, lemma_isqrt_is_root, ONE};
use crate::position::{
    lemma_transformed_reading_in_range, RawSample, Tracking1Position, Tracking2Position,
};
use crate::trace::{lemma_run_concat, lemma_run_one, samples};
use crate::transform::CoordTransformView;

verus! {

/// The input ends the gesture in progress: the last finger is lifted, or the
/// armed timeout runs out.
pub open spec fn ends_gesture(input: TouchInput) -> bool {
    match input {
        TouchInput::Sample(sample) => sample.num_fingers == 0,
        TouchInput::Timeout => true,
    }
}

/// The input makes the recognizer in the given state report an event: it
/// ends a gesture in progress, or it is a two-finger sample whose spread
/// differs from the one the pinch remembers by more than the threshold.
pub open spec fn completes_gesture(
    t: CoordTransformView,
    state: TouchEventState,
    input: TouchInput,
) -> bool {
    ||| state !is Idle && ends_gesture(input)
    ||| {
        &&& state matches TouchEventState::Pinching { dist }
        &&& input matches TouchInput::Sample(sample)
        &&& sample.num_fingers == 2
        &&& abs_diff_spec(dist as int, finger_spread(t, sample) as u64 as int) > PINCH_THRESHOLD
    }
}

/// Every sample shows one finger no further than the swipe threshold from
/// `track1`.
pub open spec fn rests_near(
    t: CoordTransformView,
    track1: Tracking1Position,
    moves: Seq<RawSample>,
) -> bool {
    forall|i: int|
        0 <= i < moves.len() ==> (#[trigger] moves[i]).num_fingers == 1 && travel(
            track1,
            finger_point(t, moves[i]),
        ) <= DISTANCE_THRESHOLD
}

/// Every sample shows exactly one finger.
pub open spec fn one_finger_each(moves: Seq<RawSample>) -> bool {
    forall|i: int| 0 <= i < moves.len() ==> (#[trigger] moves[i]).num_fingers == 1
}

/// Every sample shows at least one finger.
pub open spec fn no_lift(moves: Seq<RawSample>) -> bool {
    forall|i: int| 0 <= i < moves.len() ==> (#[trigger] moves[i]).num_fingers != 0
}

/// The recognizer reports an event exactly on the inputs that complete a
/// gesture, and stays silent on every other input.
pub proof fn lemma_reports_exactly_completed_gestures(e: GestureEngineView, input: TouchInput)
    ensures
        e.emitted(input) is Some <==> completes_gesture(e.transform, e.state, input),
{
}

/// While one finger rests near the point where it came down, the recognizer
/// keeps waiting at that point and reports nothing.
pub proof fn lemma_resting_finger_is_silent(
    e: GestureEngineView,
    track1: Tracking1Position,
    moves: Seq<RawSample>,
)
    requires
        e.state == (TouchEventState::WaitNext { track1 }),
        rests_near(e.transform, track1, moves),
    ensures
        e.after(samples(moves)).state == e.state,
        e.after(samples(moves)).transform == e.transform,
        moves.len() > 0 ==> e.after(samples(moves)).timeout_ms == LONG_TIMEOUT_MS,
        moves.len() == 0 ==> e.after(samples(moves)) == e,
        e.events(samples(moves)) == Seq::<TouchEvent>::empty(),
    decreases moves.len(),
{
    if moves.len() > 0 {
        let before = moves.drop_last();
        lemma_resting_finger_is_silent(e, track1, before);
        assert(samples(moves).drop_last() =~= samples(before));
        assert(samples(moves).last() == TouchInput::Sample(moves.last()));
    }
}

/// Tap: one finger that comes down, never moves further than the swipe
/// threshold from where it came down, and lifts before any timeout runs out
/// makes exactly one event, the tap at the point where it came down, and
/// leaves the recognizer at rest.
pub proof fn lemma_tap(
    e: GestureEngineView,
    down: RawSample,
    moves: Seq<RawSample>,
    lift: RawSample,
)
    requires
        e.state is Idle,
        down.num_fingers == 1,
        rests_near(e.transform, finger_point(e.transform, down), moves),
        lift.num_fingers == 0,
    ensures
        ({
            let inputs = seq![TouchInput::Sample(down)] + samples(moves) + seq![
                TouchInput::Sample(lift),
            ];
            &&& e.events(inputs) == seq![tap_event(finger_point(e.transform, down))]
            &&& e.after(inputs) == GestureEngineView::initial(e.transform)
        }),
{
    let track1 = finger_point(e.transform, down);
    let start = seq![TouchInput::Sample(down)];
    let e1 = e.next(TouchInput::Sample(down));
    lemma_run_one(e, TouchInput::Sample(down));
    lemma_resting_finger_is_silent(e1, track1, moves);
    lemma_run_concat(e, start, samples(moves));
    let resting = start + samples(moves);
    lemma_run_concat(e, resting, seq![TouchInput::Sample(lift)]);
    lemma_run_one(e.after(resting), TouchInput::Sample(lift));
    assert(e.events(resting) =~= Seq::<TouchEvent>::empty());
    assert(e.events(resting + seq![TouchInput::Sample(lift)]) =~= seq![tap_event(track1)]);
}

/// The tap of a finger lies at the pixel that the exact scale factors give
/// for the sensor reading, rounded down.
pub proof fn lemma_tap_pixel(t: CoordTransformView, down: RawSample)
    requires
        t.wf(),
    ensures
        tap_event(finger_point(t, down)).x == down.x[0] * t.display_width / t.sensor_width,
        tap_event(finger_point(t, down)).y == down.y[0] * t.display_height / t.sensor_height,
        tap_event(finger_point(t, down)).kind == TouchEventKind::Tap,
        tap_event(finger_point(t, down)).dist == 0,
{
    lemma_transformed_reading_in_range(t, down.x[0] as int);
    lemma_transformed_reading_in_range(t, down.y[0] as int);
    lemma_scaled_reading_in_pixels(down.x[0] as int, t.display_width, t.sensor_width);
    lemma_scaled_reading_in_pixels(down.y[0] as int, t.display_height, t.sensor_height);
}

proof fn lemma_scaled_reading_in_pixels(reading: int, display: int, sensor: int)
    requires
        0 <= reading,
        0 < display,
        0 < sensor,
    ensures
        (reading * ONE * display / sensor) / (ONE as int) == reading * display / sensor,
{
    let whole = reading * display;
    assert(reading * ONE * display == whole * ONE) by (nonlinear_arith)
        requires
            whole == reading * display,
    ;
    assert(0 <= whole) by (nonlinear_arith)
        requires
            whole == reading * display,
            0 <= reading,
            0 < display,
    ;
    // (whole * ONE / sensor) / ONE == whole * ONE / (sensor * ONE) == whole / sensor
    vstd::arithmetic::div_mod::lemma_div_denominator(whole * ONE, sensor, ONE as int);
    vstd::arithmetic::div_mod::lemma_div_multiples_vanish_quotient(ONE as int, whole, sensor);
    assert(sensor * ONE == ONE * sensor) by (nonlinear_arith);
    assert(whole * ONE == ONE * whole) by (nonlinear_arith);
}

/// Hold, then release: one finger that comes down and rests until the
/// timeout runs out makes exactly one hold, after which the release timeout
/// is armed. Whatever samples follow while a finger stays down are silent.
/// The next timeout, or the lift of the finger if it comes first, makes
/// exactly one release and leaves the recognizer at rest.
pub proof fn lemma_hold_then_release(
    e: GestureEngineView,
    down: RawSample,
    moves: Seq<RawSample>,
    kept: Seq<RawSample>,
    end: TouchInput,
)
    requires
        e.state is Idle,
        down.num_fingers == 1,
        rests_near(e.transform, finger_point(e.transform, down), moves),
        no_lift(kept),
        ends_gesture(end),
    ensures
        ({
            let held = seq![TouchInput::Sample(down)] + samples(moves) + seq![TouchInput::Timeout];
            let all = held + samples(kept) + seq![end];
            &&& e.events(held) == seq![TouchEvent::of_kind(TouchEventKind::Hold)]
            &&& e.after(held).state is Holding
            &&& e.after(held).timeout_ms == RELEASE_TIMEOUT_MS
            &&& e.events(all) == seq![
                TouchEvent::of_kind(TouchEventKind::Hold),
                TouchEvent::of_kind(TouchEventKind::Release),
            ]
            &&& e.after(all) == GestureEngineView::initial(e.transform)
        }),
{
    let track1 = finger_point(e.transform, down);
    let start = seq![TouchInput::Sample(down)];
    let e1 = e.next(TouchInput::Sample(down));
    lemma_run_one(e, TouchInput::Sample(down));
    lemma_resting_finger_is_silent(e1, track1, moves);
    lemma_run_concat(e, start, samples(moves));
    let resting = start + samples(moves);
    let held = resting + seq![TouchInput::Timeout];
    lemma_run_concat(e, resting, seq![TouchInput::Timeout]);
    lemma_run_one(e.after(resting), TouchInput::Timeout);
    assert(e.events(resting) =~= Seq::<TouchEvent>::empty());
    assert(e.events(held) =~= seq![TouchEvent::of_kind(TouchEventKind::Hold)]);
    let e2 = e.after(held);
    lemma_kept_finger_is_silent(e2, kept);
    lemma_run_concat(e, held, samples(kept));
    let holding = held + samples(kept);
    lemma_run_concat(e, holding, seq![end]);
    lemma_run_one(e.after(holding), end);
    assert(e.events(holding) =~= seq![TouchEvent::of_kind(TouchEventKind::Hold)]);
    assert(e.events(holding + seq![end]) =~= seq![
        TouchEvent::of_kind(TouchEventKind::Hold),
        TouchEvent::of_kind(TouchEventKind::Release),
    ]);
}

/// During a hold, samples that show a finger change nothing but the armed
/// timeout and are silent.
pub proof fn lemma_kept_finger_is_silent(e: GestureEngineView, kept: Seq<RawSample>)
    requires
        e.state is Holding,
        no_lift(kept),
    ensures
        e.after(samples(kept)).state is Holding,
        e.after(samples(kept)).transform == e.transform,
        kept.len() > 0 ==> e.after(samples(kept)).timeout_ms == RELEASE_TIMEOUT_MS,
        kept.len() == 0 ==> e.after(samples(kept)) == e,
        e.events(samples(kept)) == Seq::<TouchEvent>::empty(),
    decreases kept.len(),
{
    if kept.len() > 0 {
        let before = kept.drop_last();
        lemma_kept_finger_is_silent(e, before);
        assert(samples(kept).drop_last() =~= samples(before));
        assert(samples(kept).last() == TouchInput::Sample(kept.last()));
    }
}

/// During a swipe, one-finger samples are silent; the track keeps its first
/// point and ends at the point of the latest sample.
pub proof fn lemma_swipe_follows_finger(
    e: GestureEngineView,
    track2: Tracking2Position,
    onward: Seq<RawSample>,
)
    requires
        e.state == (TouchEventState::Swiping { track2 }),
        one_finger_each(onward),
    ensures
        e.after(samples(onward)).transform == e.transform,
        e.after(samples(onward)).state matches TouchEventState::Swiping { track2: now } && {
            &&& now.x[0] == track2.x[0]
            &&& now.y[0] == track2.y[0]
            &&& now.x[1] == if onward.len() == 0 {
                track2.x[1]
            } else {
                finger_point(e.transform, onward.last()).x
            }
            &&& now.y[1] == if onward.len() == 0 {
                track2.y[1]
            } else {
                finger_point(e.transform, onward.last()).y
            }
        },
        e.events(samples(onward)) == Seq::<TouchEvent>::empty(),
    decreases onward.len(),
{
    if onward.len() > 0 {
        let before = onward.drop_last();
        lemma_swipe_follows_finger(e, track2, before);
        assert(samples(onward).drop_last() =~= samples(before));
        assert(samples(onward).last() == TouchInput::Sample(onward.last()));
    }
}

/// Swipe direction: one finger that comes down, moves further than the
/// swipe threshold from where it came down, and goes on moving makes no
/// event until the gesture ends, by a lift or by the timeout. It then makes
/// exactly one swipe: to the right if the last point it was seen at lies
/// right of where it came down, to the left otherwise.
pub proof fn lemma_swipe_direction(
    e: GestureEngineView,
    down: RawSample,
    moves: Seq<RawSample>,
    away: RawSample,
    onward: Seq<RawSample>,
    end: TouchInput,
)
    requires
        e.state is Idle,
        down.num_fingers == 1,
        rests_near(e.transform, finger_point(e.transform, down), moves),
        away.num_fingers == 1,
        travel(finger_point(e.transform, down), finger_point(e.transform, away))
            > DISTANCE_THRESHOLD,
        one_finger_each(onward),
        ends_gesture(end),
    ensures
        ({
            let inputs = seq![TouchInput::Sample(down)] + samples(moves) + seq![
                TouchInput::Sample(away),
            ] + samples(onward) + seq![end];
            let first = finger_point(e.transform, down);
            let last = finger_point(
                e.transform,
                if onward.len() == 0 {
                    away
                } else {
                    onward.last()
                },
            );
            &&& e.events(inputs) == seq![
                TouchEvent::of_kind(
                    if last.x > first.x {
                        TouchEventKind::SwipeRight
                    } else {
                        TouchEventKind::SwipeLeft
                    },
                ),
            ]
            &&& e.after(inputs) == GestureEngineView::initial(e.transform)
        }),
{
    let first = finger_point(e.transform, down);
    let start = seq![TouchInput::Sample(down)];
    let e1 = e.next(TouchInput::Sample(down));
    lemma_run_one(e, TouchInput::Sample(down));
    lemma_resting_finger_is_silent(e1, first, moves);
    lemma_run_concat(e, start, samples(moves));
    let resting = start + samples(moves);
    assert(e.events(resting) =~= Seq::<TouchEvent>::empty());
    let broke = resting + seq![TouchInput::Sample(away)];
    lemma_run_concat(e, resting, seq![TouchInput::Sample(away)]);
    lemma_run_one(e.after(resting), TouchInput::Sample(away));
    assert(e.events(broke) =~= Seq::<TouchEvent>::empty());
    let e2 = e.after(broke);
    let second = finger_point(e.transform, away);
    let track2 = Tracking2Position { x: [first.x, second.x], y: [first.y, second.y] };
    assert(e2.state == (TouchEventState::Swiping { track2 }));
    lemma_swipe_follows_finger(e2, track2, onward);
    lemma_run_concat(e, broke, samples(onward));
    let swiping = broke + samples(onward);
    assert(e.events(swiping) =~= Seq::<TouchEvent>::empty());
    lemma_run_concat(e, swiping, seq![end]);
    lemma_run_one(e.after(swiping), end);
    let last = finger_point(
        e.transform,
        if onward.len() == 0 {
            away
        } else {
            onward.last()
        },
    );
    assert(e.events(swiping + seq![end]) =~= seq![
        TouchEvent::of_kind(
            if last.x > first.x {
                TouchEventKind::SwipeRight
            } else {
                TouchEventKind::SwipeLeft
            },
        ),
    ]);
}

/// The spread of the two fingers of any sample is a distance that fits a
/// stored value.
pub proof fn lemma_finger_spread_fits(t: CoordTransformView, sample: RawSample)
    requires
        t.wf(),
    ensures
        0 <= finger_spread(t, sample) <= u64::MAX,
{
    lemma_transformed_reading_in_range(t, sample.x[0] as int);
    lemma_transformed_reading_in_range(t, sample.y[0] as int);
    lemma_transformed_reading_in_range(t, sample.x[1] as int);
    lemma_transformed_reading_in_range(t, sample.y[1] as int);
    let p = Tracking2Position::of_sample(sample).transformed(t);
    let n = dist_sq(p.x[0] as int, p.y[0] as int, p.x[1] as int, p.y[1] as int);
    lemma_dist_sq_fits(p.x[0] as int, p.y[0] as int, p.x[1] as int, p.y[1] as int);
    lemma_isqrt_is_root(n);
    let r = finger_spread(t, sample);
    if r > u64::MAX {
        assert(0x1_0000_0000_0000_0000 * 0x1_0000_0000_0000_0000 <= r * r) by (nonlinear_arith)
            requires
                0x1_0000_0000_0000_0000 <= r,
        ;
    }
}

/// Pinch: while two fingers are down, a sample whose spread differs from the
/// remembered one by no more than the threshold is silent and leaves the
/// remembered spread as it is. A sample whose spread differs by more makes
/// one event, which carries the magnitude of the change and says enlarge if
/// the spread grew and reduce otherwise; the new spread is then the
/// remembered one.
pub proof fn lemma_pinch(e: GestureEngineView, dist: u64, sample: RawSample)
    requires
        e.transform.wf(),
        e.state == (TouchEventState::Pinching { dist }),
        sample.num_fingers == 2,
    ensures
        ({
            let this_dist = finger_spread(e.transform, sample);
            let change = abs_diff_spec(dist as int, this_dist);
            &&& change <= PINCH_THRESHOLD ==> e.emitted(TouchInput::Sample(sample)) is None && e.next(
                TouchInput::Sample(sample),
            ).state == e.state
            &&& change > PINCH_THRESHOLD ==> {
                &&& e.emitted(TouchInput::Sample(sample)) matches Some(event)
                &&& event.kind == if this_dist > dist {
                    TouchEventKind::PinchEnlarge
                } else {
                    TouchEventKind::PinchReduce
                }
                &&& event.dist == change
                &&& event.x == 0
                &&& event.y == 0
                &&& e.next(TouchInput::Sample(sample)).state matches TouchEventState::Pinching {
                    dist: remembered,
                }
                &&& remembered == this_dist
            }
            &&& e.next(TouchInput::Sample(sample)).timeout_ms == LONG_TIMEOUT_MS
        }),
{
    lemma_finger_spread_fits(e.transform, sample);
}

} // verus!
