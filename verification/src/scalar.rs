//! Single-precision values as bit patterns, and the small records made of
//! them: points, rectangles and colours.

use vstd::prelude::*;

verus! {

/// Bit pattern of positive infinity; every larger magnitude is a NaN.
pub const INFINITY_BITS: u32 = 0x7F80_0000;

/// Bit pattern of the sign alone, which is also negative zero.
pub const SIGN_BIT: u32 = 0x8000_0000;

/// Bit pattern of `1.0`.
pub const ONE_BITS: u32 = 0x3F80_0000;

/// An IEEE 754 single-precision number, held as its 32 bits.
///
/// The sign is bit 31, the exponent bits 30 to 23 and the fraction bits 22 to 0,
/// so the pattern read as an integer orders the non-negative numbers as the
/// numbers themselves are ordered.
#[derive(Clone, Copy, Debug)]
pub struct Scalar {
    pub bits: u32,
}

impl Scalar {
    /// The pattern with the sign cleared.
    pub open spec fn magnitude(self) -> int {
        if self.bits >= SIGN_BIT {
            self.bits - SIGN_BIT
        } else {
            self.bits as int
        }
    }

    /// Not a number: the exponent is all ones and the fraction is not zero.
    pub open spec fn is_nan_spec(self) -> bool {
        self.magnitude() > INFINITY_BITS
    }

    /// Positive or negative zero.
    pub open spec fn is_zero_spec(self) -> bool {
        self.magnitude() == 0
    }

    /// Strictly greater than zero: positive sign, not zero, not a NaN.
    /// Positive infinity counts.
    pub open spec fn is_positive_spec(self) -> bool {
        0 < self.bits <= INFINITY_BITS
    }

    /// Equality of the numbers rather than of the patterns: a NaN equals
    /// nothing, itself included, and the two zeros equal each other.
    pub open spec fn same_number(self, other: Scalar) -> bool {
        &&& !self.is_nan_spec()
        &&& !other.is_nan_spec()
        &&& (self.bits == other.bits || (self.is_zero_spec() && other.is_zero_spec()))
    }

    pub fn from_bits(bits: u32) -> (s: Scalar)
        ensures
            s.bits == bits,
    {
        Scalar { bits }
    }

    pub fn to_bits(self) -> (bits: u32)
        ensures
            bits == self.bits,
    {
        self.bits
    }

    /// Positive zero.
    pub fn zero() -> (s: Scalar)
        ensures
            s.bits == 0,
    {
        Scalar { bits: 0 }
    }

    #[verifier::when_used_as_spec(is_nan_spec)]
    pub fn is_nan(self) -> (r: bool)
        ensures
            r == self.is_nan_spec(),
    {
        if self.bits >= SIGN_BIT {
            self.bits - SIGN_BIT > INFINITY_BITS
        } else {
            self.bits > INFINITY_BITS
        }
    }

    #[verifier::when_used_as_spec(is_zero_spec)]
    pub fn is_zero(self) -> (r: bool)
        ensures
            r == self.is_zero_spec(),
    {
        self.bits == 0 || self.bits == SIGN_BIT
    }

    #[verifier::when_used_as_spec(is_positive_spec)]
    pub fn is_positive(self) -> (r: bool)
        ensures
            r == self.is_positive_spec(),
    {
        0 < self.bits && self.bits <= INFINITY_BITS
    }

    /// Compares as the numbers compare (see [`Scalar::same_number`]).
    pub fn number_eq(self, other: Scalar) -> (r: bool)
        ensures
            r == self.same_number(other),
    {
        !self.is_nan() && !other.is_nan() && (self.bits == other.bits || (self.is_zero()
            && other.is_zero()))
    }
}

/// A position in the plane.
#[derive(Clone, Copy, Debug)]
pub struct Point {
    pub x: Scalar,
    pub y: Scalar,
}

impl Point {
    pub fn new(x: Scalar, y: Scalar) -> (p: Point)
        ensures
            p == (Point { x, y }),
    {
        Point { x, y }
    }
}

/// An axis-aligned rectangle: its corner of least coordinates and its size.
#[derive(Clone, Copy, Debug)]
pub struct Rect {
    pub x: Scalar,
    pub y: Scalar,
    pub w: Scalar,
    pub h: Scalar,
}

impl Rect {
    pub fn new(x: Scalar, y: Scalar, w: Scalar, h: Scalar) -> (r: Rect)
        ensures
            r == (Rect { x, y, w, h }),
    {
        Rect { x, y, w, h }
    }
}

/// A colour in linear space, ready for blending on the device.
#[derive(Clone, Copy, Debug)]
pub struct LinearColor {
    pub r: Scalar,
    pub g: Scalar,
    pub b: Scalar,
    pub a: Scalar,
}

impl LinearColor {
    pub fn new(r: Scalar, g: Scalar, b: Scalar, a: Scalar) -> (c: LinearColor)
        ensures
            c == (LinearColor { r, g, b, a }),
    {
        LinearColor { r, g, b, a }
    }

    /// Opaque white: every channel is `1.0`.
    pub fn white() -> (c: LinearColor)
        ensures
            c == LinearColor::white_spec(),
    {
        let one = Scalar { bits: ONE_BITS };
        LinearColor { r: one, g: one, b: one, a: one }
    }

    pub open spec fn white_spec() -> LinearColor {
        let one = Scalar { bits: ONE_BITS };
        LinearColor { r: one, g: one, b: one, a: one }
    }

    /// The four channels in the order red, green, blue, alpha.
    pub open spec fn channels(self) -> Seq<Scalar> {
        seq![self.r, self.g, self.b, self.a]
    }

    pub fn to_array(self) -> (a: [Scalar; 4])
        ensures
            a@ == self.channels(),
    {
        [self.r, self.g, self.b, self.a]
    }
}

} // verus!
