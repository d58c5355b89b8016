//! What woke the polling loop, and what the loop owes the sensor for it.

use vstd::prelude::*;

verus! {

/// The notification value with which the sensor interrupt announces a new
/// sample.
pub const TOUCH_NOTIFICATION: u32 = 1;

/// Why a wait for the sensor ended.
#[derive(Debug, Copy, Clone, PartialEq, Eq, Structural)]
pub enum Wake {
    /// The sensor interrupt announced a new sample: read it and feed it to
    /// the recognizer.
    Touch,
    /// A notification that announces no sample: nothing is read and the
    /// recognizer is left alone.
    Spurious,
    /// The armed timeout ran out: feed a timeout to the recognizer.
    TimedOut,
}

impl Wake {
    /// The wake that a wait result stands for.
    pub open spec fn of_notification(notification: Option<u32>) -> Wake {
        match notification {
            Some(value) => if value == TOUCH_NOTIFICATION {
                Wake::Touch
            } else {
                Wake::Spurious
            },
            None => Wake::TimedOut,
        }
    }

    /// Tells what the result of a wait means: the value of the notification
    /// that ended it, or `None` when the timeout ended it.
    pub fn classify(notification: Option<u32>) -> (wake: Wake)
        ensures
            wake == Self::of_notification(notification),
    {
        match notification {
            Some(value) => {
                if value == TOUCH_NOTIFICATION {
                    Wake::Touch
                } else {
                    // this is spurious wake up branch
                    Wake::Spurious
                }
            },
            None => Wake::TimedOut,
        }
    }

    /// Whether the sensor interrupt has to be enabled again before the next
    /// wait: after every notification, and never after a timeout.
    pub fn rearms_interrupt(self) -> (rearm: bool)
        ensures
            rearm <==> self != Wake::TimedOut,
    {
        match self {
            Wake::Touch => true,
            Wake::Spurious => true,
            Wake::TimedOut => false,
        }
    }
}

} // verus!
