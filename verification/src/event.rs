//! The gestures reported to the application.

use vstd::prelude::*;

verus! {

/// Event kind
#[derive(Debug, Copy, Clone, PartialEq, Eq, Structural)]
pub enum TouchEventKind {
    /// No gesture.
    NoEvent,
    Tap,
    Hold,
    SwipeLeft,
    SwipeRight,
    PinchEnlarge,
    PinchReduce,
    Release,
}

/// The touch event.
///
/// `x` and `y` are whole display pixels and carry the tapped point of a
/// `Tap`. `dist` is a fixed-point display distance and carries the change of
/// the finger spread of a `PinchEnlarge` or `PinchReduce`. All three are zero
/// for the other kinds.
#[derive(Debug, Copy, Clone, PartialEq, Eq, Structural)]
pub struct TouchEvent {
    pub kind: TouchEventKind,
    pub x: u32,
    pub y: u32,
    pub dist: u64,
}

impl TouchEvent {
    /// The event of the given kind with no position and no distance.
    pub open spec fn of_kind(kind: TouchEventKind) -> TouchEvent {
        TouchEvent { kind, x: 0, y: 0, dist: 0 }
    }

    /// create a new touch event
    pub fn new(kind: TouchEventKind) -> (event: Self)
        ensures
            event == Self::of_kind(kind),
    {
        Self { kind, x: 0, y: 0, dist: 0 }
    }
}

} // verus!
