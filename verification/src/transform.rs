//! The mapping from the touch sensor's coordinate range to the display's.

use vstd::prelude::*;
use crate::fixed::ONE;

verus! {

/// Orientation of the display relative to the touch sensor.
#[derive(Debug, Copy, Clone, PartialEq, Eq, Structural)]
pub enum Rotation {
    Rotate0,
    Rotate90,
    Rotate180,
    Rotate270,
}

/// Per-axis scale factors from sensor space to display space, kept as the
/// exact ratios `display_width / sensor_width` and
/// `display_height / sensor_height`, together with the display rotation.
#[derive(Debug, Copy, Clone)]
pub struct CoordTransform {
    display_width: u16,
    display_height: u16,
    sensor_width: u16,
    sensor_height: u16,
    rotation: Rotation,
}

/// The mathematical content of a [`CoordTransform`].
pub struct CoordTransformView {
    pub display_width: int,
    pub display_height: int,
    pub sensor_width: int,
    pub sensor_height: int,
    pub rotation: Rotation,
}

impl CoordTransformView {
    /// Both scale factors are positive.
    pub open spec fn wf(self) -> bool {
        &&& 0 < self.display_width <= u16::MAX
        &&& 0 < self.display_height <= u16::MAX
        &&& 0 < self.sensor_width <= u16::MAX
        &&& 0 < self.sensor_height <= u16::MAX
    }

    /// A horizontal quantity multiplied by the horizontal scale factor,
    /// rounded down.
    pub open spec fn scale_x(self, v: int) -> int {
        v * self.display_width / self.sensor_width
    }

    /// A vertical quantity multiplied by the vertical scale factor, rounded
    /// down.
    pub open spec fn scale_y(self, v: int) -> int {
        v * self.display_height / self.sensor_height
    }
}

impl View for CoordTransform {
    type V = CoordTransformView;

    closed spec fn view(&self) -> CoordTransformView {
        CoordTransformView {
            display_width: self.display_width as int,
            display_height: self.display_height as int,
            sensor_width: self.sensor_width as int,
            sensor_height: self.sensor_height as int,
            rotation: self.rotation,
        }
    }
}

impl CoordTransform {
    #[verifier::type_invariant]
    pub open spec fn inv(self) -> bool {
        self@.wf()
    }

    /// Builds the transform for a display of `display_width` by
    /// `display_height` pixels under a sensor that reports coordinates in
    /// `sensor_width` by `sensor_height`. There is no transform when one of
    /// the four extents is zero.
    pub fn new(
        display_width: u16,
        display_height: u16,
        sensor_width: u16,
        sensor_height: u16,
        rotation: Rotation,
    ) -> (r: Option<CoordTransform>)
        ensures
            r is Some <==> display_width > 0 && display_height > 0 && sensor_width > 0
                && sensor_height > 0,
            r matches Some(t) ==> t@ == (CoordTransformView {
                display_width: display_width as int,
                display_height: display_height as int,
                sensor_width: sensor_width as int,
                sensor_height: sensor_height as int,
                rotation,
            }),
    {
        if display_width == 0 || display_height == 0 || sensor_width == 0 || sensor_height == 0 {
            None
        } else {
            Some(CoordTransform { display_width, display_height, sensor_width, sensor_height, rotation })
        }
    }

    /// The display rotation this transform was built with.
    pub fn rotation(&self) -> (r: Rotation)
        ensures
            r == self@.rotation,
    {
        self.rotation
    }

    /// Multiplies a horizontal quantity by the horizontal scale factor.
    pub fn scale_x(&self, v: u64) -> (r: u64)
        requires
            self@.scale_x(v as int) <= u64::MAX,
        ensures
            r == self@.scale_x(v as int),
    {
        proof {
            use_type_invariant(self);
        }
        mul_div(v, self.display_width, self.sensor_width)
    }

    /// Multiplies a vertical quantity by the vertical scale factor.
    pub fn scale_y(&self, v: u64) -> (r: u64)
        requires
            self@.scale_y(v as int) <= u64::MAX,
        ensures
            r == self@.scale_y(v as int),
    {
        proof {
            use_type_invariant(self);
        }
        mul_div(v, self.display_height, self.sensor_height)
    }
}

proof fn lemma_floor_quotient(product: int, den: int)
    requires
        0 < den,
    ensures
        (product / den) * den <= product < (product / den + 1) * den,
{
    vstd::arithmetic::div_mod::lemma_fundamental_div_mod(product, den);
    vstd::arithmetic::div_mod::lemma_mod_bound(product, den);
    assert((product / den + 1) * den == (product / den) * den + den) by (nonlinear_arith);
    assert((product / den) * den == den * (product / den)) by (nonlinear_arith);
}

/// The transform is proportional: a display coordinate stands to the display
/// extent as the sensor reading stands to the sensor extent. With both
/// ratios cross-multiplied, the stored display coordinate is short of the
/// exact one by less than one stored unit.
pub proof fn lemma_transform_proportional(t: CoordTransformView, reading: int)
    requires
        t.wf(),
        0 <= reading,
    ensures
        t.scale_x(reading * ONE) * t.sensor_width <= reading * ONE * t.display_width,
        reading * ONE * t.display_width < (t.scale_x(reading * ONE) + 1) * t.sensor_width,
        t.scale_y(reading * ONE) * t.sensor_height <= reading * ONE * t.display_height,
        reading * ONE * t.display_height < (t.scale_y(reading * ONE) + 1) * t.sensor_height,
{
    lemma_floor_quotient(reading * ONE * t.display_width, t.sensor_width);
    lemma_floor_quotient(reading * ONE * t.display_height, t.sensor_height);
}

/// A reading within the sensor's extent maps to a coordinate within the
/// display's extent.
pub proof fn lemma_transform_stays_on_display(t: CoordTransformView, reading: int)
    requires
        t.wf(),
        0 <= reading,
    ensures
        reading <= t.sensor_width ==> 0 <= t.scale_x(reading * ONE) <= t.display_width * ONE,
        reading <= t.sensor_height ==> 0 <= t.scale_y(reading * ONE) <= t.display_height * ONE,
{
    lemma_scaled_within(reading, t.display_width, t.sensor_width);
    lemma_scaled_within(reading, t.display_height, t.sensor_height);
}

proof fn lemma_scaled_within(reading: int, display: int, sensor: int)
    requires
        0 <= reading,
        0 < display,
        0 < sensor,
    ensures
        reading <= sensor ==> 0 <= reading * ONE * display / sensor <= display * ONE,
{
    let product = reading * ONE * display;
    assert(0 <= product) by (nonlinear_arith)
        requires
            product == reading * ONE * display,
            0 <= reading,
            0 < display,
    ;
    vstd::arithmetic::div_mod::lemma_div_pos_is_pos(product, sensor);
    if reading <= sensor {
        assert(product <= (display * ONE) * sensor) by (nonlinear_arith)
            requires
                product == reading * ONE * display,
                0 <= reading <= sensor,
                0 < display,
        ;
        vstd::arithmetic::div_mod::lemma_div_is_ordered(product, (display * ONE) * sensor, sensor);
        vstd::arithmetic::div_mod::lemma_div_multiples_vanish(display * ONE, sensor);
    }
}

/// The rotation has no part in the transform: two transforms that differ in
/// nothing but their rotation scale every quantity alike.
pub proof fn lemma_rotation_is_not_applied(t: CoordTransformView, rotation: Rotation, v: int)
    ensures
        (CoordTransformView { rotation, ..t }).scale_x(v) == t.scale_x(v),
        (CoordTransformView { rotation, ..t }).scale_y(v) == t.scale_y(v),
{
}

/// Computes `v * num / den`, rounded down, without losing the high bits of
/// the product.
fn mul_div(v: u64, num: u16, den: u16) -> (r: u64)
    requires
        den > 0,
        v * num / (den as int) <= u64::MAX,
    ensures
        r == v * num / (den as int),
{
    assert(v * num <= 0xffff_ffff_ffff_ffff * 0xffff) by (nonlinear_arith)
        requires
            0 <= v <= 0xffff_ffff_ffff_ffff,
            0 <= num <= 0xffff,
    ;
    let product: u128 = (v as u128) * (num as u128);
    (product / (den as u128)) as u64
}

} // verus!
