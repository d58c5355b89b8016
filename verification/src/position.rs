//! Touch samples as the sensor reports them, and the tracked points the
//! recognizer derives from them.

use vstd::prelude::*;
use crate::fixed::ONE;
use crate::transform::{CoordTransform, CoordTransformView, Rotation};

verus! {

/// The largest stored coordinate that the transform of a sensor reading can
/// produce: the largest reading under the largest scale factor.
pub const COORD_MAX: u64 = 0xfffe_0001_0000;

/// One reading of the touch sensor: how many fingers touch the panel, and
/// where the first two of them are, in sensor units.
#[derive(Debug, Copy, Clone, PartialEq, Eq)]
pub struct RawSample {
    pub num_fingers: u8,
    pub x: [u16; 2],
    pub y: [u16; 2],
}

/// Track a single point. The coordinates are fixed-point values.
#[derive(Debug, Copy, Clone, PartialEq, Eq, Structural)]
pub struct Tracking1Position {
    pub x: u64,
    pub y: u64,
}

/// Track a start and an end point, or the points of two fingers. The
/// coordinates are fixed-point values.
#[derive(Debug, Copy, Clone, PartialEq, Eq)]
pub struct Tracking2Position {
    pub x: [u64; 2],
    pub y: [u64; 2],
}

impl Tracking1Position {
    /// The first finger of a sample, in sensor units.
    pub open spec fn of_sample(sample: RawSample) -> Tracking1Position {
        Tracking1Position { x: (sample.x[0] * ONE) as u64, y: (sample.y[0] * ONE) as u64 }
    }

    /// The point with each coordinate multiplied by the scale factor of its
    /// axis. The rotation has no part in it.
    pub open spec fn transformed(self, t: CoordTransformView) -> Tracking1Position {
        Tracking1Position { x: t.scale_x(self.x as int) as u64, y: t.scale_y(self.y as int) as u64 }
    }

    /// Both coordinates are ones that a transformed sensor reading can have.
    pub open spec fn in_range(self) -> bool {
        self.x <= COORD_MAX && self.y <= COORD_MAX
    }

    /// transform the touch sensor coordinates to user coordinates
    pub fn transform_coord(&mut self, txfm: &CoordTransform)
        requires
            txfm@.scale_x(old(self).x as int) <= u64::MAX,
            txfm@.scale_y(old(self).y as int) <= u64::MAX,
        ensures
            *final(self) == old(self).transformed(txfm@),
    {
        self.x = txfm.scale_x(self.x);
        self.y = txfm.scale_y(self.y);
        match txfm.rotation() {
            Rotation::Rotate0 => {},
            Rotation::Rotate90 => {},
            Rotation::Rotate180 => {},
            Rotation::Rotate270 => {},
        }
    }
}

impl Tracking2Position {
    /// The first two fingers of a sample, in sensor units.
    pub open spec fn of_sample(sample: RawSample) -> Tracking2Position {
        Tracking2Position {
            x: [(sample.x[0] * ONE) as u64, (sample.x[1] * ONE) as u64],
            y: [(sample.y[0] * ONE) as u64, (sample.y[1] * ONE) as u64],
        }
    }

    /// The two points with each coordinate multiplied by the scale factor of
    /// its axis. The rotation has no part in it.
    pub open spec fn transformed(self, t: CoordTransformView) -> Tracking2Position {
        Tracking2Position {
            x: [t.scale_x(self.x[0] as int) as u64, t.scale_x(self.x[1] as int) as u64],
            y: [t.scale_y(self.y[0] as int) as u64, t.scale_y(self.y[1] as int) as u64],
        }
    }

    /// transform the touch sensor coordinates to user coordinates
    pub fn transform_coord(&mut self, txfm: &CoordTransform)
        requires
            txfm@.scale_x(old(self).x[0] as int) <= u64::MAX,
            txfm@.scale_x(old(self).x[1] as int) <= u64::MAX,
            txfm@.scale_y(old(self).y[0] as int) <= u64::MAX,
            txfm@.scale_y(old(self).y[1] as int) <= u64::MAX,
        ensures
            *final(self) == old(self).transformed(txfm@),
    {
        let x0 = txfm.scale_x(self.x[0]);
        let y0 = txfm.scale_y(self.y[0]);
        let x1 = txfm.scale_x(self.x[1]);
        let y1 = txfm.scale_y(self.y[1]);
        self.x = [x0, x1];
        self.y = [y0, y1];
        match txfm.rotation() {
            Rotation::Rotate0 => {},
            Rotation::Rotate90 => {},
            Rotation::Rotate180 => {},
            Rotation::Rotate270 => {},
        }
    }
}

/// A sensor reading multiplied by any pair of positive scale factors stays
/// within the coordinate range.
pub proof fn lemma_transformed_reading_in_range(t: CoordTransformView, reading: int)
    requires
        t.wf(),
        0 <= reading <= u16::MAX,
    ensures
        0 <= t.scale_x(reading * ONE) <= COORD_MAX,
        0 <= t.scale_y(reading * ONE) <= COORD_MAX,
{
    let v = reading * ONE;
    assert(0 <= v * t.display_width <= 0xffff_0000 * 0xffff) by (nonlinear_arith)
        requires
            0 <= v <= 0xffff_0000,
            0 < t.display_width <= 0xffff,
    ;
    assert(0 <= v * t.display_height <= 0xffff_0000 * 0xffff) by (nonlinear_arith)
        requires
            0 <= v <= 0xffff_0000,
            0 < t.display_height <= 0xffff,
    ;
    vstd::arithmetic::div_mod::lemma_div_nonincreasing(v * t.display_width, t.sensor_width);
    vstd::arithmetic::div_mod::lemma_div_nonincreasing(v * t.display_height, t.sensor_height);
    vstd::arithmetic::div_mod::lemma_div_pos_is_pos(v * t.display_width, t.sensor_width);
    vstd::arithmetic::div_mod::lemma_div_pos_is_pos(v * t.display_height, t.sensor_height);
}

impl From<RawSample> for Tracking1Position {
    fn from(tsp: RawSample) -> (track: Tracking1Position) {
        Tracking1Position { x: (tsp.x[0] as u64) * ONE, y: (tsp.y[0] as u64) * ONE }
    }
}

impl vstd::std_specs::convert::FromSpecImpl<RawSample> for Tracking1Position {
    open spec fn obeys_from_spec() -> bool {
        true
    }

    open spec fn from_spec(tsp: RawSample) -> Tracking1Position {
        Tracking1Position::of_sample(tsp)
    }
}

impl From<RawSample> for Tracking2Position {
    fn from(tsp: RawSample) -> (track: Tracking2Position) {
        Tracking2Position {
            x: [(tsp.x[0] as u64) * ONE, (tsp.x[1] as u64) * ONE],
            y: [(tsp.y[0] as u64) * ONE, (tsp.y[1] as u64) * ONE],
        }
    }
}

impl vstd::std_specs::convert::FromSpecImpl<RawSample> for Tracking2Position {
    open spec fn obeys_from_spec() -> bool {
        true
    }

    open spec fn from_spec(tsp: RawSample) -> Tracking2Position {
        Tracking2Position::of_sample(tsp)
    }
}

} // verus!
