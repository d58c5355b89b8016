//! The gesture state machine.
//!
//! The recognizer consumes one input at a time, a sensor sample or the
//! expiry of the armed timeout, and answers each with at most one event and
//! with the timeout to arm before the next wait.

use vstd::prelude::*;
use crate::event::{TouchEvent, TouchEventKind};
use crate::fixed::{abs_diff, abs_diff_spec, distance, distance_spec, lemma_dist_sq_fits, ONE};
use crate::position::{
    lemma_transformed_reading_in_range, RawSample, Tracking1Position, Tracking2Position, COORD_MAX,
};
use crate::transform::{CoordTransform, CoordTransformView};

verus! {

/// How long one finger has to rest before it counts as a hold.
pub const HOLD_TIMEOUT_MS: u32 = 500;

/// How long a hold lasts before it is released by itself.
pub const RELEASE_TIMEOUT_MS: u32 = 1000;

/// The timeout armed while no gesture has a deadline.
pub const LONG_TIMEOUT_MS: u32 = 100_000;

/// this is distance where we go from tap or hold to swipe
pub const DISTANCE_THRESHOLD: u64 = 1_966_080;

/// A pinch is reported only when the finger spread changes by more than
/// this.
pub const PINCH_THRESHOLD: u64 = 65_536;

/// the state of the fsm
#[derive(Debug, Copy, Clone, PartialEq, Eq)]
pub enum TouchEventState {
    /// No finger is down.
    Idle,
    /// One finger is down and has stayed near `track1`.
    WaitNext { track1: Tracking1Position },
    /// One finger has rested long enough for a hold.
    Holding,
    /// One finger went from the first point of `track2` to its second.
    Swiping { track2: Tracking2Position },
    /// Two fingers are down, `dist` apart when last reported.
    Pinching { dist: u64 },
}

/// What the recognizer is woken with.
#[derive(Debug, Copy, Clone, PartialEq, Eq)]
pub enum TouchInput {
    /// The sensor reported a new sample.
    Sample(RawSample),
    /// The armed timeout ran out before the sensor reported anything.
    Timeout,
}

/// The outcome of one input: the state afterwards, the event to report, and
/// the timeout to arm for the next wait.
pub struct Transition {
    pub state: TouchEventState,
    pub event: Option<TouchEvent>,
    pub timeout_ms: u32,
}

impl TouchEventState {
    /// The tracked points are ones that transformed sensor readings can be.
    pub open spec fn wf(self) -> bool {
        match self {
            TouchEventState::WaitNext { track1 } => track1.in_range(),
            TouchEventState::Swiping { track2 } => {
                &&& track2.x[0] <= COORD_MAX
                &&& track2.x[1] <= COORD_MAX
                &&& track2.y[0] <= COORD_MAX
                &&& track2.y[1] <= COORD_MAX
            },
            _ => true,
        }
    }
}

/// Where the display shows the first finger of a sample.
pub open spec fn finger_point(t: CoordTransformView, sample: RawSample) -> Tracking1Position {
    Tracking1Position::of_sample(sample).transformed(t)
}

/// How far apart the display shows the two fingers of a sample.
pub open spec fn finger_spread(t: CoordTransformView, sample: RawSample) -> int {
    let p = Tracking2Position::of_sample(sample).transformed(t);
    distance_spec(p.x[0] as int, p.y[0] as int, p.x[1] as int, p.y[1] as int)
}

/// How far the display point `to` lies from `from`.
pub open spec fn travel(from: Tracking1Position, to: Tracking1Position) -> int {
    distance_spec(from.x as int, from.y as int, to.x as int, to.y as int)
}

/// The tap at a tracked point, in whole pixels.
pub open spec fn tap_event(track1: Tracking1Position) -> TouchEvent {
    TouchEvent {
        kind: TouchEventKind::Tap,
        x: (track1.x / ONE) as u32,
        y: (track1.y / ONE) as u32,
        dist: 0,
    }
}

/// The swipe along a track: to the right when the track ends right of where
/// it began, to the left otherwise.
pub open spec fn swipe_event(track2: Tracking2Position) -> TouchEvent {
    TouchEvent::of_kind(
        if track2.x[0] < track2.x[1] {
            TouchEventKind::SwipeRight
        } else {
            TouchEventKind::SwipeLeft
        },
    )
}

/// The pinch from a finger spread of `dist` to one of `this_dist`.
pub open spec fn pinch_event(dist: u64, this_dist: u64) -> TouchEvent {
    TouchEvent {
        kind: if dist < this_dist {
            TouchEventKind::PinchEnlarge
        } else {
            TouchEventKind::PinchReduce
        },
        x: 0,
        y: 0,
        dist: abs_diff_spec(dist as int, this_dist as int) as u64,
    }
}

/// The transition on a sensor sample.
pub open spec fn on_sample(
    t: CoordTransformView,
    state: TouchEventState,
    sample: RawSample,
) -> Transition {
    let fingers = sample.num_fingers;
    let pinching = TouchEventState::Pinching { dist: finger_spread(t, sample) as u64 };
    match state {
        TouchEventState::Idle => {
            if fingers == 1 {
                Transition {
                    state: TouchEventState::WaitNext { track1: finger_point(t, sample) },
                    event: None,
                    timeout_ms: HOLD_TIMEOUT_MS,
                }
            } else if fingers == 2 {
                Transition { state: pinching, event: None, timeout_ms: LONG_TIMEOUT_MS }
            } else {
                Transition { state, event: None, timeout_ms: LONG_TIMEOUT_MS }
            }
        },
        TouchEventState::WaitNext { track1 } => {
            if fingers == 0 {
                Transition {
                    state: TouchEventState::Idle,
                    event: Some(tap_event(track1)),
                    timeout_ms: LONG_TIMEOUT_MS,
                }
            } else if fingers == 1 {
                let track1new = finger_point(t, sample);
                if travel(track1, track1new) > DISTANCE_THRESHOLD {
                    Transition {
                        state: TouchEventState::Swiping {
                            track2: Tracking2Position {
                                x: [track1.x, track1new.x],
                                y: [track1.y, track1new.y],
                            },
                        },
                        event: None,
                        timeout_ms: LONG_TIMEOUT_MS,
                    }
                } else {
                    Transition { state, event: None, timeout_ms: LONG_TIMEOUT_MS }
                }
            } else if fingers == 2 {
                Transition { state: pinching, event: None, timeout_ms: LONG_TIMEOUT_MS }
            } else {
                Transition { state, event: None, timeout_ms: LONG_TIMEOUT_MS }
            }
        },
        TouchEventState::Holding => {
            if fingers == 0 {
                Transition {
                    state: TouchEventState::Idle,
                    event: Some(TouchEvent::of_kind(TouchEventKind::Release)),
                    timeout_ms: LONG_TIMEOUT_MS,
                }
            } else {
                Transition { state, event: None, timeout_ms: RELEASE_TIMEOUT_MS }
            }
        },
        TouchEventState::Swiping { track2 } => {
            if fingers == 0 {
                Transition {
                    state: TouchEventState::Idle,
                    event: Some(swipe_event(track2)),
                    timeout_ms: LONG_TIMEOUT_MS,
                }
            } else if fingers == 1 {
                let track1new = finger_point(t, sample);
                Transition {
                    state: TouchEventState::Swiping {
                        track2: Tracking2Position {
                            x: [track2.x[0], track1new.x],
                            y: [track2.y[0], track1new.y],
                        },
                    },
                    event: None,
                    timeout_ms: LONG_TIMEOUT_MS,
                }
            } else if fingers == 2 {
                Transition { state: pinching, event: None, timeout_ms: LONG_TIMEOUT_MS }
            } else {
                Transition { state, event: None, timeout_ms: LONG_TIMEOUT_MS }
            }
        },
        TouchEventState::Pinching { dist } => {
            if fingers == 0 {
                Transition {
                    state: TouchEventState::Idle,
                    event: Some(TouchEvent::of_kind(TouchEventKind::Release)),
                    timeout_ms: LONG_TIMEOUT_MS,
                }
            } else if fingers == 2 {
                let this_dist = finger_spread(t, sample) as u64;
                if abs_diff_spec(dist as int, this_dist as int) > PINCH_THRESHOLD {
                    Transition {
                        state: TouchEventState::Pinching { dist: this_dist },
                        event: Some(pinch_event(dist, this_dist)),
                        timeout_ms: LONG_TIMEOUT_MS,
                    }
                } else {
                    Transition { state, event: None, timeout_ms: LONG_TIMEOUT_MS }
                }
            } else {
                Transition { state, event: None, timeout_ms: LONG_TIMEOUT_MS }
            }
        },
    }
}

/// The transition when the armed timeout runs out.
pub open spec fn on_timeout(state: TouchEventState) -> Transition {
    match state {
        TouchEventState::Idle => Transition { state, event: None, timeout_ms: LONG_TIMEOUT_MS },
        TouchEventState::WaitNext { track1 } => Transition {
            state: TouchEventState::Holding,
            event: Some(TouchEvent::of_kind(TouchEventKind::Hold)),
            timeout_ms: RELEASE_TIMEOUT_MS,
        },
        TouchEventState::Holding => Transition {
            state: TouchEventState::Idle,
            event: Some(TouchEvent::of_kind(TouchEventKind::Release)),
            timeout_ms: LONG_TIMEOUT_MS,
        },
        TouchEventState::Swiping { track2 } => Transition {
            state: TouchEventState::Idle,
            event: Some(swipe_event(track2)),
            timeout_ms: LONG_TIMEOUT_MS,
        },
        TouchEventState::Pinching { dist } => Transition {
            state: TouchEventState::Idle,
            event: Some(TouchEvent::of_kind(TouchEventKind::Release)),
            timeout_ms: LONG_TIMEOUT_MS,
        },
    }
}

/// The transition on any input.
pub open spec fn transition(
    t: CoordTransformView,
    state: TouchEventState,
    input: TouchInput,
) -> Transition {
    match input {
        TouchInput::Sample(sample) => on_sample(t, state, sample),
        TouchInput::Timeout => on_timeout(state),
    }
}

/// The gesture recognizer: the coordinate transform it was set up with, the
/// state of the gesture in progress, and the timeout to arm for the next
/// wait.
#[derive(Debug, Copy, Clone)]
pub struct GestureEngine {
    transform: CoordTransform,
    state: TouchEventState,
    timeout_ms: u32,
}

/// The mathematical content of a [`GestureEngine`].
pub struct GestureEngineView {
    pub transform: CoordTransformView,
    pub state: TouchEventState,
    pub timeout_ms: u32,
}

impl GestureEngineView {
    /// The recognizer at rest: no finger down, the long timeout armed.
    pub open spec fn initial(transform: CoordTransformView) -> GestureEngineView {
        GestureEngineView { transform, state: TouchEventState::Idle, timeout_ms: LONG_TIMEOUT_MS }
    }

    /// The scale factors are positive and the tracked points are ones that
    /// transformed sensor readings can be.
    pub open spec fn wf(self) -> bool {
        self.transform.wf() && self.state.wf()
    }

    /// The recognizer after one input.
    pub open spec fn next(self, input: TouchInput) -> GestureEngineView {
        let outcome = transition(self.transform, self.state, input);
        GestureEngineView {
            transform: self.transform,
            state: outcome.state,
            timeout_ms: outcome.timeout_ms,
        }
    }

    /// The event that one input makes the recognizer report.
    pub open spec fn emitted(self, input: TouchInput) -> Option<TouchEvent> {
        transition(self.transform, self.state, input).event
    }
}

impl View for GestureEngine {
    type V = GestureEngineView;

    closed spec fn view(&self) -> GestureEngineView {
        GestureEngineView {
            transform: self.transform@,
            state: self.state,
            timeout_ms: self.timeout_ms,
        }
    }
}

/// Reads the first finger of a sample and maps it to display space.
fn track_finger(transform: &CoordTransform, pos: RawSample) -> (track1: Tracking1Position)
    ensures
        track1 == finger_point(transform@, pos),
        track1.in_range(),
{
    let mut track1 = Tracking1Position::from(pos);
    proof {
        use_type_invariant(transform);
        lemma_transformed_reading_in_range(transform@, pos.x[0] as int);
        lemma_transformed_reading_in_range(transform@, pos.y[0] as int);
    }
    track1.transform_coord(transform);
    track1
}

/// Reads both fingers of a sample, maps them to display space and measures
/// how far apart they are.
fn measure_spread(transform: &CoordTransform, pos: RawSample) -> (dist: u64)
    ensures
        dist == finger_spread(transform@, pos),
{
    let mut track2 = Tracking2Position::from(pos);
    proof {
        use_type_invariant(transform);
        lemma_transformed_reading_in_range(transform@, pos.x[0] as int);
        lemma_transformed_reading_in_range(transform@, pos.y[0] as int);
        lemma_transformed_reading_in_range(transform@, pos.x[1] as int);
        lemma_transformed_reading_in_range(transform@, pos.y[1] as int);
    }
    track2.transform_coord(transform);
    proof {
        lemma_dist_sq_fits(
            track2.x[0] as int,
            track2.y[0] as int,
            track2.x[1] as int,
            track2.y[1] as int,
        );
    }
    distance(track2.x[0], track2.y[0], track2.x[1], track2.y[1])
}

impl GestureEngine {
    #[verifier::type_invariant]
    pub open spec fn inv(self) -> bool {
        self@.state.wf()
    }

    /// A recognizer at rest: no finger down, the long timeout armed.
    pub fn new(transform: CoordTransform) -> (engine: Self)
        ensures
            engine@ == GestureEngineView::initial(transform@),
    {
        GestureEngine { transform, state: TouchEventState::Idle, timeout_ms: LONG_TIMEOUT_MS }
    }

    /// The state of the gesture in progress.
    pub fn state(&self) -> (state: TouchEventState)
        ensures
            state == self@.state,
            state.wf(),
    {
        proof {
            use_type_invariant(self);
        }
        self.state
    }

    /// The timeout, in milliseconds, to arm for the next wait.
    pub fn timeout_ms(&self) -> (timeout_ms: u32)
        ensures
            timeout_ms == self@.timeout_ms,
    {
        self.timeout_ms
    }

    /// Feeds one input to the recognizer. Returns the event to report, if
    /// the input completes a gesture; the state and the timeout to arm move
    /// on as the transition table says, and the transform stays.
    pub fn step(&mut self, input: TouchInput) -> (event: Option<TouchEvent>)
        ensures
            final(self)@ == old(self)@.next(input),
            event == old(self)@.emitted(input),
    {
        match input {
            TouchInput::Sample(pos) => self.sample(pos),
            TouchInput::Timeout => self.timeout(),
        }
    }

    fn sample(&mut self, pos: RawSample) -> (sent: Option<TouchEvent>)
        ensures
            final(self)@.transform == old(self)@.transform,
            final(self)@.state == on_sample(old(self)@.transform, old(self)@.state, pos).state,
            final(self)@.timeout_ms == on_sample(
                old(self)@.transform,
                old(self)@.state,
                pos,
            ).timeout_ms,
            sent == on_sample(old(self)@.transform, old(self)@.state, pos).event,
    {
        proof {
            use_type_invariant(&*self);
        }
        let mut sent: Option<TouchEvent> = None;
        match self.state {
            TouchEventState::Idle => {
                self.timeout_ms = LONG_TIMEOUT_MS;
                if pos.num_fingers == 1 {
                    let track1 = track_finger(&self.transform, pos);
                    self.timeout_ms = HOLD_TIMEOUT_MS;
                    self.state = TouchEventState::WaitNext { track1 };
                } else if pos.num_fingers == 2 {
                    let dist = measure_spread(&self.transform, pos);
                    self.state = TouchEventState::Pinching { dist };
                }
            },
            TouchEventState::WaitNext { track1 } => {
                if pos.num_fingers == 0 {
                    // got a tap
                    let mut event = TouchEvent::new(TouchEventKind::Tap);
                    event.x = (track1.x / ONE) as u32;
                    event.y = (track1.y / ONE) as u32;
                    sent = Some(event);
                    self.state = TouchEventState::Idle;
                } else if pos.num_fingers == 1 {
                    let track1new = track_finger(&self.transform, pos);
                    proof {
                        lemma_dist_sq_fits(
                            track1.x as int,
                            track1.y as int,
                            track1new.x as int,
                            track1new.y as int,
                        );
                    }
                    let dist = distance(track1.x, track1.y, track1new.x, track1new.y);
                    if dist > DISTANCE_THRESHOLD {
                        let track2 = Tracking2Position {
                            x: [track1.x, track1new.x],
                            y: [track1.y, track1new.y],
                        };
                        self.state = TouchEventState::Swiping { track2 };
                    }
                } else if pos.num_fingers == 2 {
                    let dist = measure_spread(&self.transform, pos);
                    self.state = TouchEventState::Pinching { dist };
                }
                self.timeout_ms = LONG_TIMEOUT_MS;
            },
            TouchEventState::Holding => {
                if pos.num_fingers == 0 {
                    sent = Some(TouchEvent::new(TouchEventKind::Release));
                    self.state = TouchEventState::Idle;
                    self.timeout_ms = LONG_TIMEOUT_MS;
                } else {
                    // a finger that stays down keeps the hold alive
                    self.timeout_ms = RELEASE_TIMEOUT_MS;
                }
            },
            TouchEventState::Swiping { track2 } => {
                if pos.num_fingers == 0 {
                    let mut event = TouchEvent::new(TouchEventKind::SwipeLeft);
                    if track2.x[0] < track2.x[1] {
                        event.kind = TouchEventKind::SwipeRight;
                    }
                    sent = Some(event);
                    self.state = TouchEventState::Idle;
                } else if pos.num_fingers == 1 {
                    let track1new = track_finger(&self.transform, pos);
                    let track2 = Tracking2Position {
                        x: [track2.x[0], track1new.x],
                        y: [track2.y[0], track1new.y],
                    };
                    self.state = TouchEventState::Swiping { track2 };
                } else if pos.num_fingers == 2 {
                    let dist = measure_spread(&self.transform, pos);
                    self.state = TouchEventState::Pinching { dist };
                }
                self.timeout_ms = LONG_TIMEOUT_MS;
            },
            TouchEventState::Pinching { dist } => {
                if pos.num_fingers == 0 {
                    sent = Some(TouchEvent::new(TouchEventKind::Release));
                    self.state = TouchEventState::Idle;
                } else if pos.num_fingers == 2 {
                    let this_dist = measure_spread(&self.transform, pos);
                    let new_dist_diff = abs_diff(dist, this_dist);
                    if new_dist_diff > PINCH_THRESHOLD {
                        let mut event = TouchEvent::new(TouchEventKind::PinchReduce);
                        if dist < this_dist {
                            event.kind = TouchEventKind::PinchEnlarge;
                        }
                        event.dist = new_dist_diff;
                        sent = Some(event);
                        self.state = TouchEventState::Pinching { dist: this_dist };
                    }
                }
                self.timeout_ms = LONG_TIMEOUT_MS;
            },
        }
        sent
    }

    fn timeout(&mut self) -> (sent: Option<TouchEvent>)
        ensures
            final(self)@.transform == old(self)@.transform,
            final(self)@.state == on_timeout(old(self)@.state).state,
            final(self)@.timeout_ms == on_timeout(old(self)@.state).timeout_ms,
            sent == on_timeout(old(self)@.state).event,
    {
        proof {
            use_type_invariant(&*self);
        }
        let mut sent: Option<TouchEvent> = None;
        match self.state {
            TouchEventState::WaitNext { track1: _ } => {
                sent = Some(TouchEvent::new(TouchEventKind::Hold));
                self.timeout_ms = RELEASE_TIMEOUT_MS;
                self.state = TouchEventState::Holding;
            },
            TouchEventState::Holding => {
                sent = Some(TouchEvent::new(TouchEventKind::Release));
                self.timeout_ms = LONG_TIMEOUT_MS;
                self.state = TouchEventState::Idle;
            },
            TouchEventState::Pinching { dist: _ } => {
                sent = Some(TouchEvent::new(TouchEventKind::Release));
                self.timeout_ms = LONG_TIMEOUT_MS;
                self.state = TouchEventState::Idle;
            },
            TouchEventState::Swiping { track2 } => {
                let mut event = TouchEvent::new(TouchEventKind::SwipeLeft);
                if track2.x[0] < track2.x[1] {
                    event.kind = TouchEventKind::SwipeRight;
                }
                sent = Some(event);
                self.timeout_ms = LONG_TIMEOUT_MS;
                self.state = TouchEventState::Idle;
            },
            TouchEventState::Idle => {
                self.timeout_ms = LONG_TIMEOUT_MS;
            },
        }
        sent
    }
}

} // verus!
