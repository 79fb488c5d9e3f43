//! Classification of a calibrated accelerometer sample into one of the five
//! physical postures of the laptop.

use vstd::prelude::*;

verus! {

/// Physical posture of the convertible laptop.  Unless the laptop is in
/// normal mode, the keyboard is assumed to be folded away behind the screen.
#[derive(Debug, PartialEq, Eq, Structural, Clone, Copy)]
pub enum LaptopOrientation {
    /// Laptop opened, keyboard horizontal and screen vertical.
    Normal,
    /// From normal mode, the laptop was rotated to the left.
    PortraitLeft,
    /// From normal mode, the laptop was rotated to the right.
    PortraitRight,
    /// Screen upside down facing the user, keyboard folded behind it so the
    /// laptop stands on its edges.
    Tent,
    /// Screen horizontal facing the sky, keyboard folded behind it.
    Tablet,
}

/// Lower bound of the portrait-left band for the x axis, in millionths of a
/// unit: the band `[-11, -5]` of the one-unit scale.
pub const PORTRAIT_LEFT_LO: i64 = -11_000_000;
/// Upper bound of the portrait-left band for the x axis.
pub const PORTRAIT_LEFT_HI: i64 = -5_000_000;
/// Lower bound of the portrait-right band for the x axis: the band `[5, 11]`.
pub const PORTRAIT_RIGHT_LO: i64 = 5_000_000;
/// Upper bound of the portrait-right band for the x axis.
pub const PORTRAIT_RIGHT_HI: i64 = 11_000_000;
/// Lower bound of the tablet band for the z axis: the band `[-11, -7]`.
pub const TABLET_LO: i64 = -11_000_000;
/// Upper bound of the tablet band for the z axis.
pub const TABLET_HI: i64 = -7_000_000;
/// Lower bound of the tent band for the y axis: the band `[7, 11]`.
pub const TENT_LO: i64 = 7_000_000;
/// Upper bound of the tent band for the y axis.
pub const TENT_HI: i64 = 11_000_000;

/// The x axis lies in the portrait-left band.
pub open spec fn in_portrait_left_band(x: int) -> bool {
    PORTRAIT_LEFT_LO <= x <= PORTRAIT_LEFT_HI
}

/// The x axis lies in the portrait-right band.
pub open spec fn in_portrait_right_band(x: int) -> bool {
    PORTRAIT_RIGHT_LO <= x <= PORTRAIT_RIGHT_HI
}

/// The z axis lies in the tablet band (screen horizontal, facing the sky).
pub open spec fn in_tablet_band(z: int) -> bool {
    TABLET_LO <= z <= TABLET_HI
}

/// The y axis lies in the tent band (screen upside down facing the user).
pub open spec fn in_tent_band(y: int) -> bool {
    TENT_LO <= y <= TENT_HI
}

/// Orientation assigned to normalized axis values (in millionths of a unit).
/// The order of the checks is a deliberate tie-break policy: x overrides z,
/// and z overrides y.  Anything outside every band falls back to `Normal`.
pub open spec fn classify(x: int, y: int, z: int) -> LaptopOrientation {
    if in_portrait_left_band(x) {
        LaptopOrientation::PortraitLeft
    } else if in_portrait_right_band(x) {
        LaptopOrientation::PortraitRight
    } else if in_tablet_band(z) {
        LaptopOrientation::Tablet
    } else if in_tent_band(y) {
        LaptopOrientation::Tent
    } else {
        LaptopOrientation::Normal
    }
}

/// A calibrated 3-axis accelerometer sample.  Each field holds a normalized
/// reading in millionths of a unit; nominal gravity is about ten units, so
/// values usually range over roughly `[-10_000_000, 10_000_000]`.  No range
/// invariant is enforced: raw sensor noise is expected.
#[derive(Debug, PartialEq, Eq, Structural, Clone, Copy)]
pub struct Accelerometer {
    pub x: i64,
    pub y: i64,
    pub z: i64,
}

/// Normalization applied by the sensor's analog-to-digital pipeline: the raw
/// value plus the calibration offset, times the calibration scale.  With the
/// inputs in thousandths of a unit the result is in millionths.
pub fn normalize(value: i64, scale: i64, offset: i64) -> (r: i64)
    requires
        i64::MIN <= value + offset <= i64::MAX,
        i64::MIN <= (value + offset) * scale <= i64::MAX,
    ensures
        r == (value + offset) * scale,
{
    (value + offset) * scale
}

impl Accelerometer {
    /// Builds a calibrated sample from raw axis readings and the shared
    /// calibration constants, all in thousandths of a unit.
    pub fn new(x: i64, y: i64, z: i64, scale: i64, offset: i64) -> (a: Accelerometer)
        requires
            i64::MIN <= x + offset <= i64::MAX,
            i64::MIN <= (x + offset) * scale <= i64::MAX,
            i64::MIN <= y + offset <= i64::MAX,
            i64::MIN <= (y + offset) * scale <= i64::MAX,
            i64::MIN <= z + offset <= i64::MAX,
            i64::MIN <= (z + offset) * scale <= i64::MAX,
        ensures
            a.x == (x + offset) * scale,
            a.y == (y + offset) * scale,
            a.z == (z + offset) * scale,
    {
        Accelerometer {
            x: normalize(x, scale, offset),
            y: normalize(y, scale, offset),
            z: normalize(z, scale, offset),
        }
    }

    /// Classifies the sample.  The bands are deliberately wide so that a
    /// rotation in progress is classified as its destination before the user
    /// finishes rotating; the classification is total and never fails.
    pub fn which_orientation(&self) -> (o: LaptopOrientation)
        ensures
            o == classify(self.x as int, self.y as int, self.z as int),
    {
        if PORTRAIT_LEFT_LO <= self.x && self.x <= PORTRAIT_LEFT_HI {
            LaptopOrientation::PortraitLeft
        } else if PORTRAIT_RIGHT_LO <= self.x && self.x <= PORTRAIT_RIGHT_HI {
            LaptopOrientation::PortraitRight
        } else if TABLET_LO <= self.z && self.z <= TABLET_HI {
            LaptopOrientation::Tablet
        } else if TENT_LO <= self.y && self.y <= TENT_HI {
            LaptopOrientation::Tent
        } else {
            LaptopOrientation::Normal
        }
    }
}

/// Law: inside either portrait band the classification is purely x-driven —
/// the y and z axes cannot change it — and the side matches the sign of x:
/// left for negative readings, right for positive ones.
pub proof fn lemma_portrait_band_x_driven(x: int, y1: int, z1: int, y2: int, z2: int)
    requires
        in_portrait_left_band(x) || in_portrait_right_band(x),
    ensures
        classify(x, y1, z1) == classify(x, y2, z2),
        x < 0 ==> classify(x, y1, z1) == LaptopOrientation::PortraitLeft,
        x > 0 ==> classify(x, y1, z1) == LaptopOrientation::PortraitRight,
{
}

/// Law: with x outside both portrait bands and z in the tablet band, the
/// classification is `Tablet` regardless of y.
pub proof fn lemma_tablet_band_ignores_y(x: int, y: int, z: int)
    requires
        !in_portrait_left_band(x),
        !in_portrait_right_band(x),
        in_tablet_band(z),
    ensures
        classify(x, y, z) == LaptopOrientation::Tablet,
{
}

/// Law: with x and z outside their bands and y in the tent band, the
/// classification is `Tent`.
pub proof fn lemma_tent_band(x: int, y: int, z: int)
    requires
        !in_portrait_left_band(x),
        !in_portrait_right_band(x),
        !in_tablet_band(z),
        in_tent_band(y),
    ensures
        classify(x, y, z) == LaptopOrientation::Tent,
{
}

/// Law: any reading outside every band classifies as `Normal`; the fallback
/// is total, so classification never fails.
pub proof fn lemma_normal_fallback(x: int, y: int, z: int)
    requires
        !in_portrait_left_band(x),
        !in_portrait_right_band(x),
        !in_tablet_band(z),
        !in_tent_band(y),
    ensures
        classify(x, y, z) == LaptopOrientation::Normal,
{
}

} // verus!
