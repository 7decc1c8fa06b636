//! Gain and position levels, held as the bit pattern of an IEEE-754
//! binary32 value so that a level passes through the library unchanged.
use vstd::prelude::*;

verus! {

/// Bit pattern of `0.0`.
pub const ZERO_BITS: u32 = 0;

/// Bit pattern of `1.0`.
pub const ONE_BITS: u32 = 0x3F80_0000;

/// Bit pattern of the largest magnitude that is not a NaN (the infinities).
pub const INFINITY_MAGNITUDE: u32 = 0x7F80_0000;

/// Bit of the sign.
pub const SIGN_BIT: u32 = 0x8000_0000;

/// A binary32 floating-point value, held as its bits.
#[derive(Clone, Copy, Debug, PartialEq, Eq, Structural)]
pub struct Level {
    pub bits: u32,
}

/// The bits without the sign.
pub open spec fn magnitude(bits: u32) -> int {
    bits as int % SIGN_BIT as int
}

pub open spec fn is_negative(bits: u32) -> bool {
    bits >= SIGN_BIT
}

pub open spec fn is_nan(bits: u32) -> bool {
    magnitude(bits) > INFINITY_MAGNITUDE as int
}

/// Where a value that is not a NaN stands on the number line: binary32
/// values order as these keys do, and `-0.0` and `0.0` share the key 0.
pub open spec fn order_key(bits: u32) -> int {
    if is_negative(bits) {
        -magnitude(bits)
    } else {
        magnitude(bits)
    }
}

/// `v.clamp(0.0, 1.0)`: a NaN stays, below zero gives `0.0`, above one
/// gives `1.0`, anything else (`-0.0` too) is kept.
pub open spec fn clamp_unit(bits: u32) -> u32 {
    if is_nan(bits) {
        bits
    } else if order_key(bits) < 0 {
        ZERO_BITS
    } else if order_key(bits) > ONE_BITS as int {
        ONE_BITS
    } else {
        bits
    }
}

/// `v.max(0.0)`, with a NaN and both zeros giving `0.0`.
pub open spec fn at_least_zero(bits: u32) -> u32 {
    if is_nan(bits) || order_key(bits) <= 0 {
        ZERO_BITS
    } else {
        bits
    }
}

/// The value lies in `[0.0, 1.0]`.
pub open spec fn in_unit(bits: u32) -> bool {
    !is_nan(bits) && 0 <= order_key(bits) <= ONE_BITS as int
}

impl Level {
    pub fn zero() -> (r: Level)
        ensures
            r.bits == ZERO_BITS,
    {
        Level { bits: ZERO_BITS }
    }

    pub fn one() -> (r: Level)
        ensures
            r.bits == ONE_BITS,
    {
        Level { bits: ONE_BITS }
    }

    pub fn from_bits(bits: u32) -> (r: Level)
        ensures
            r.bits == bits,
    {
        Level { bits }
    }

    pub fn to_bits(self) -> (r: u32)
        ensures
            r == self.bits,
    {
        self.bits
    }

    pub fn is_nan(self) -> (r: bool)
        ensures
            r == is_nan(self.bits),
    {
        self.bits % SIGN_BIT > INFINITY_MAGNITUDE
    }

    /// Whether the value is below zero (`-0.0` is not).
    fn is_below_zero(self) -> (r: bool)
        requires
            !is_nan(self.bits),
        ensures
            r == (order_key(self.bits) < 0),
    {
        self.bits > SIGN_BIT
    }

    /// The value clamped to `[0.0, 1.0]`.
    pub fn clamp_unit(self) -> (r: Level)
        ensures
            r.bits == clamp_unit(self.bits),
            !is_nan(self.bits) ==> in_unit(r.bits),
    {
        if self.is_nan() {
            self
        } else if self.is_below_zero() {
            Level::zero()
        } else if self.bits > ONE_BITS && self.bits < SIGN_BIT {
            Level::one()
        } else {
            self
        }
    }

    /// The value, or `0.0` where it is not above zero or is a NaN.
    pub fn at_least_zero(self) -> (r: Level)
        ensures
            r.bits == at_least_zero(self.bits),
            !is_nan(r.bits),
            order_key(r.bits) >= 0,
    {
        if self.is_nan() || self.bits >= SIGN_BIT || self.bits == ZERO_BITS {
            Level::zero()
        } else {
            self
        }
    }
}

} // verus!
