//! Single-precision values carried by their IEEE-754 bit pattern.
//!
//! The game measures the sheet in `f32` metres.  The rules only ever *compare*
//! such values (is the stone past the hog line, is it closer to the button than
//! the opponent's stone, ...).  A `Scalar` holds the raw bits of an `f32`; the
//! comparisons below follow IEEE-754 exactly: a NaN compares false with
//! everything, `-0.0` equals `+0.0`, and otherwise the order is the order of
//! the sign-magnitude integer that the bits encode.
use vstd::prelude::*;

verus! {

/// The sign bit of a single-precision value.
pub const SIGN_BIT: u32 = 0x8000_0000;

/// The magnitude bits of positive infinity; larger magnitudes are NaNs.
pub const INFINITY_MAGNITUDE: u32 = 0x7f80_0000;

/// An `f32` held by its bit pattern (`f32::to_bits`).
#[derive(Clone, Copy, PartialEq, Eq, Debug, Structural)]
pub struct Scalar {
    pub bits: u32,
}

impl Scalar {
    /// The magnitude bits (everything but the sign).
    pub open spec fn magnitude(self) -> int {
        (self.bits % SIGN_BIT) as int
    }

    /// Whether the sign bit is set.
    pub open spec fn sign_set(self) -> bool {
        self.bits >= SIGN_BIT
    }

    /// Whether the bits encode a NaN.
    pub open spec fn nan(self) -> bool {
        self.magnitude() > INFINITY_MAGNITUDE
    }

    /// The integer whose order is the order of the encoded value
    /// (meaningful for non-NaN values; both zeros map to 0).
    pub open spec fn order_key(self) -> int {
        if self.sign_set() {
            -self.magnitude()
        } else {
            self.magnitude()
        }
    }

    /// Wraps raw `f32` bits.
    pub fn from_bits(bits: u32) -> (r: Scalar)
        ensures
            r.bits == bits,
    {
        Scalar { bits }
    }

    /// Whether this value is a NaN.
    pub fn is_nan(self) -> (r: bool)
        ensures
            r == self.nan(),
    {
        self.bits % SIGN_BIT > INFINITY_MAGNITUDE
    }

    fn key(self) -> (k: i64)
        ensures
            k == self.order_key(),
    {
        let m: i64 = (self.bits % SIGN_BIT) as i64;
        if self.bits >= SIGN_BIT {
            -m
        } else {
            m
        }
    }

    /// `self < other` as `f32`.
    pub fn lt(self, other: Scalar) -> (r: bool)
        ensures
            r == real_lt(self, other),
    {
        !self.is_nan() && !other.is_nan() && self.key() < other.key()
    }

    /// `self <= other` as `f32`.
    pub fn le(self, other: Scalar) -> (r: bool)
        ensures
            r == real_le(self, other),
    {
        !self.is_nan() && !other.is_nan() && self.key() <= other.key()
    }

    /// `self > other` as `f32`.
    pub fn gt(self, other: Scalar) -> (r: bool)
        ensures
            r == real_lt(other, self),
    {
        other.lt(self)
    }

    /// `self >= other` as `f32`.
    pub fn ge(self, other: Scalar) -> (r: bool)
        ensures
            r == real_le(other, self),
    {
        other.le(self)
    }

    /// `self == other` as `f32` (so `-0.0 == 0.0` and a NaN equals nothing).
    pub fn real_eq(self, other: Scalar) -> (r: bool)
        ensures
            r == real_equal(self, other),
    {
        !self.is_nan() && !other.is_nan() && self.key() == other.key()
    }

    /// `f32::abs`: clears the sign bit.
    pub fn abs(self) -> (r: Scalar)
        ensures
            r.bits == self.magnitude(),
            r.magnitude() == self.magnitude(),
            !r.sign_set(),
    {
        Scalar { bits: self.bits % SIGN_BIT }
    }

    /// Unary minus: flips the sign bit.
    pub fn neg(self) -> (r: Scalar)
        ensures
            r == negated(self),
    {
        if self.bits >= SIGN_BIT {
            Scalar { bits: self.bits - SIGN_BIT }
        } else {
            Scalar { bits: self.bits + SIGN_BIT }
        }
    }

    /// `f32::clamp(self, lo, hi)` for bounds with `lo <= hi`: `hi` when
    /// `self > hi`, `lo` when `self < lo`, else `self` (a NaN stays NaN).
    pub fn clamp(self, lo: Scalar, hi: Scalar) -> (r: Scalar)
        requires
            real_le(lo, hi),
        ensures
            r == clamped(self, lo, hi),
    {
        let mut x = self;
        if x.lt(lo) {
            x = lo;
        }
        if x.gt(hi) {
            x = hi;
        }
        x
    }
}

/// A point on the sheet (metres, far house at positive Y).
#[derive(Clone, Copy, PartialEq, Eq, Debug, Structural)]
pub struct Position {
    pub x: Scalar,
    pub y: Scalar,
}

impl Position {
    /// The point `(x, y)`.
    pub fn new(x: Scalar, y: Scalar) -> (r: Position)
        ensures
            r.x == x,
            r.y == y,
    {
        Position { x, y }
    }
}

/// A point in the 3D scene (metres; Z up from the ice).
#[derive(Clone, Copy, PartialEq, Eq, Debug, Structural)]
pub struct Point3 {
    pub x: Scalar,
    pub y: Scalar,
    pub z: Scalar,
}

/// The value with the given bits.
pub open spec fn of_bits(bits: u32) -> Scalar {
    Scalar { bits }
}

/// `a < b` on the encoded values.
pub open spec fn real_lt(a: Scalar, b: Scalar) -> bool {
    !a.nan() && !b.nan() && a.order_key() < b.order_key()
}

/// `a <= b` on the encoded values.
pub open spec fn real_le(a: Scalar, b: Scalar) -> bool {
    !a.nan() && !b.nan() && a.order_key() <= b.order_key()
}

/// `a == b` on the encoded values.
pub open spec fn real_equal(a: Scalar, b: Scalar) -> bool {
    !a.nan() && !b.nan() && a.order_key() == b.order_key()
}

/// The value with the sign bit flipped.
pub open spec fn negated(a: Scalar) -> Scalar {
    if a.sign_set() {
        Scalar { bits: (a.bits - SIGN_BIT) as u32 }
    } else {
        Scalar { bits: (a.bits + SIGN_BIT) as u32 }
    }
}

/// The result of `f32::clamp`.
pub open spec fn clamped(x: Scalar, lo: Scalar, hi: Scalar) -> Scalar {
    if real_lt(hi, x) {
        hi
    } else if real_lt(x, lo) {
        lo
    } else {
        x
    }
}

} // verus!
