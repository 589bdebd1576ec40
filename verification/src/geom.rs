//! Fixed-point geometry and colour values shared by the whole library.

use vstd::prelude::*;

verus! {

/// A position or direction in world space, with each coordinate in
/// thousandths of a world unit (so `x == 1000` is one unit along x).
#[derive(Clone, Copy, PartialEq, Eq, Structural, Debug)]
pub struct Vec3Milli {
    pub x: i64,
    pub y: i64,
    pub z: i64,
}

impl Vec3Milli {
    /// True when every coordinate is at least `margin` away from the limits
    /// of `i64`, so that a bounded translation cannot overflow.
    pub open spec fn within(self, margin: int) -> bool {
        &&& i64::MIN + margin <= self.x <= i64::MAX - margin
        &&& i64::MIN + margin <= self.y <= i64::MAX - margin
        &&& i64::MIN + margin <= self.z <= i64::MAX - margin
    }

    /// True when every coordinate lies within one world unit of zero, as the
    /// components of a (scaled) unit direction vector do.
    pub open spec fn unit_bounded(self) -> bool {
        &&& -1000 <= self.x <= 1000
        &&& -1000 <= self.y <= 1000
        &&& -1000 <= self.z <= 1000
    }
}

/// An RGBA colour with each channel in thousandths of full intensity
/// (0 = none, 1000 = full).
#[derive(Clone, Copy, PartialEq, Eq, Structural, Debug)]
pub struct ColorMilli {
    pub r: u32,
    pub g: u32,
    pub b: u32,
    pub a: u32,
}

/// The opaque white used for every instance record and for the batch-wide
/// colour modifier.
pub open spec fn white() -> ColorMilli {
    ColorMilli { r: 1000, g: 1000, b: 1000, a: 1000 }
}

/// The fixed background grey the 3D context is cleared to each frame
/// (a quarter intensity on each colour channel).
pub open spec fn clear_grey() -> ColorMilli {
    ColorMilli { r: 250, g: 250, b: 250, a: 1000 }
}

} // verus!
