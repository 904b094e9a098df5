use vstd::prelude::*;

verus! {

/// A single-precision float held as its IEEE-754 bit pattern.
///
/// The library never computes with these values; it only stores them and
/// classifies them, which the bit pattern decides exactly.
#[derive(Clone, Copy, Debug, PartialEq, Eq, Structural)]
pub struct Float32Bits {
    pub bits: u32,
}

/// Bit pattern of the smallest infinity; every pattern at or above it, with
/// the sign bit clear, is an infinity or a NaN.
pub const POSITIVE_INFINITY_BITS: u32 = 0x7f80_0000;

/// Bit pattern of negative zero.
pub const NEGATIVE_ZERO_BITS: u32 = 0x8000_0000;

/// Bit pattern of `1.0`.
pub const ONE_BITS: u32 = 0x3f80_0000;

impl Float32Bits {
    /// The value is finite and strictly greater than zero.
    pub open spec fn spec_is_finite_positive(self) -> bool {
        0 < self.bits < POSITIVE_INFINITY_BITS
    }

    /// The value is finite and greater than or equal to zero (negative zero
    /// included, since it compares equal to zero).
    pub open spec fn spec_is_finite_non_negative(self) -> bool {
        self.bits < POSITIVE_INFINITY_BITS || self.bits == NEGATIVE_ZERO_BITS
    }

    pub fn from_bits(bits: u32) -> (r: Float32Bits)
        ensures
            r.bits == bits,
    {
        Float32Bits { bits }
    }

    pub fn zero() -> (r: Float32Bits)
        ensures
            r.bits == 0,
    {
        Float32Bits { bits: 0 }
    }

    pub fn one() -> (r: Float32Bits)
        ensures
            r.bits == ONE_BITS,
    {
        Float32Bits { bits: ONE_BITS }
    }

    pub fn is_finite_positive(&self) -> (r: bool)
        ensures
            r == self.spec_is_finite_positive(),
    {
        0 < self.bits && self.bits < POSITIVE_INFINITY_BITS
    }

    pub fn is_finite_non_negative(&self) -> (r: bool)
        ensures
            r == self.spec_is_finite_non_negative(),
    {
        self.bits < POSITIVE_INFINITY_BITS || self.bits == NEGATIVE_ZERO_BITS
    }
}

/// A two-dimensional integer vector.
#[derive(Clone, Copy, Debug, PartialEq, Eq, Structural)]
pub struct V2i {
    pub x: i32,
    pub y: i32,
}

/// A two-dimensional float vector.
#[derive(Clone, Copy, Debug, PartialEq, Eq, Structural)]
pub struct V2f {
    pub x: Float32Bits,
    pub y: Float32Bits,
}

/// An axis-aligned integer rectangle with inclusive corners. A box whose
/// `min` exceeds its `max` on either axis is empty.
#[derive(Clone, Copy, Debug, PartialEq, Eq, Structural)]
pub struct Box2i {
    pub min: V2i,
    pub max: V2i,
}

impl Box2i {
    pub open spec fn spec_is_empty(self) -> bool {
        self.min.x > self.max.x || self.min.y > self.max.y
    }

    /// Number of columns covered, `max.x - min.x + 1`.
    pub open spec fn spec_width(self) -> int {
        self.max.x - self.min.x + 1
    }

    /// Number of rows covered, `max.y - min.y + 1`.
    pub open spec fn spec_height(self) -> int {
        self.max.y - self.min.y + 1
    }

    pub fn new(min_x: i32, min_y: i32, max_x: i32, max_y: i32) -> (r: Box2i)
        ensures
            r.min.x == min_x && r.min.y == min_y,
            r.max.x == max_x && r.max.y == max_y,
    {
        Box2i { min: V2i { x: min_x, y: min_y }, max: V2i { x: max_x, y: max_y } }
    }

    pub fn is_empty(&self) -> (r: bool)
        ensures
            r == self.spec_is_empty(),
    {
        self.min.x > self.max.x || self.min.y > self.max.y
    }

    /// Width of the box, as a wide integer so that it cannot overflow.
    pub fn width(&self) -> (r: i64)
        ensures
            r == self.spec_width(),
    {
        self.max.x as i64 - self.min.x as i64 + 1
    }

    /// Height of the box, as a wide integer so that it cannot overflow.
    pub fn height(&self) -> (r: i64)
        ensures
            r == self.spec_height(),
    {
        self.max.y as i64 - self.min.y as i64 + 1
    }
}

} // verus!
