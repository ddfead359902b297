//! Battery fractions held by their place in the order of IEEE 754 doubles.
//!
//! A double is handed to the library by its bit pattern.  `Level::from_bits`
//! turns it into a signed integer key whose order is the order of the
//! doubles (both zeros get the same key), and into no key at all for NaN,
//! which compares with nothing.

use vstd::prelude::*;

verus! {

/// Bits of the exponent field of a double.
pub open spec fn exponent_bits(bits: u64) -> u64 {
    bits & 0x7FF0_0000_0000_0000u64
}

/// Bits of the fraction field of a double.
pub open spec fn fraction_bits(bits: u64) -> u64 {
    bits & 0x000F_FFFF_FFFF_FFFFu64
}

/// The double with these bits is a NaN.
pub open spec fn is_nan_bits(bits: u64) -> bool {
    exponent_bits(bits) == 0x7FF0_0000_0000_0000u64 && fraction_bits(bits) != 0
}

/// The sign bit of the double is set.
pub open spec fn is_negative_bits(bits: u64) -> bool {
    bits >= 0x8000_0000_0000_0000u64
}

/// The bits of the double without its sign.
pub open spec fn magnitude_bits(bits: u64) -> u64 {
    bits & 0x7FFF_FFFF_FFFF_FFFFu64
}

/// The key of a double: its magnitude, negated when the sign bit is set;
/// none for NaN.
pub open spec fn float_key(bits: u64) -> Option<i64> {
    if is_nan_bits(bits) {
        None
    } else if is_negative_bits(bits) {
        Some((-(magnitude_bits(bits) as int)) as i64)
    } else {
        Some(magnitude_bits(bits) as i64)
    }
}

/// The order of IEEE 754 on two doubles given by their bits, as the
/// standard states it: NaN is below and above nothing, the two zeros are
/// equal, a negative number is below a positive one, positive numbers go up
/// and negative numbers go down with their magnitude.
pub open spec fn ieee_less(a: u64, b: u64) -> bool {
    let ma = magnitude_bits(a) as int;
    let mb = magnitude_bits(b) as int;
    &&& !is_nan_bits(a)
    &&& !is_nan_bits(b)
    &&& !(ma == 0 && mb == 0)
    &&& if is_negative_bits(a) && !is_negative_bits(b) {
        true
    } else if !is_negative_bits(a) && is_negative_bits(b) {
        false
    } else if is_negative_bits(a) {
        mb < ma
    } else {
        ma < mb
    }
}

/// A fraction of charge, or a threshold, by its key.
#[derive(Clone, Copy, Debug, PartialEq, Eq, Structural)]
pub struct Level {
    pub key: Option<i64>,
}

impl Level {
    /// The level is an ordinary number (not NaN).
    pub open spec fn ordered(self) -> bool {
        self.key is Some
    }

    /// `self < other` as doubles compare.
    pub open spec fn lt(self, other: Level) -> bool {
        &&& self.key is Some
        &&& other.key is Some
        &&& self.key->0 < other.key->0
    }

    /// `self <= other` as doubles compare.
    pub open spec fn le(self, other: Level) -> bool {
        &&& self.key is Some
        &&& other.key is Some
        &&& self.key->0 <= other.key->0
    }

    /// The level of the double with these bits.
    pub fn from_bits(bits: u64) -> (level: Level)
        ensures
            level.key == float_key(bits),
    {
        let exponent = bits & 0x7FF0_0000_0000_0000u64;
        let fraction = bits & 0x000F_FFFF_FFFF_FFFFu64;
        if exponent == 0x7FF0_0000_0000_0000u64 && fraction != 0 {
            return Level { key: None };
        }
        let magnitude = bits & 0x7FFF_FFFF_FFFF_FFFFu64;
        assert(magnitude <= 0x7FFF_FFFF_FFFF_FFFFu64) by (bit_vector)
            requires
                magnitude == bits & 0x7FFF_FFFF_FFFF_FFFFu64,
        ;
        let m = magnitude as i64;
        if bits >= 0x8000_0000_0000_0000u64 {
            Level { key: Some(-m) }
        } else {
            Level { key: Some(m) }
        }
    }

    /// `self < other` as doubles compare; false when either is NaN.
    pub fn less_than(&self, other: &Level) -> (b: bool)
        ensures
            b == self.lt(*other),
    {
        match (self.key, other.key) {
            (Some(a), Some(b)) => a < b,
            _ => false,
        }
    }
}

/// Levels keep the order of the doubles they come from: for any two bit
/// patterns, the first level is below the second exactly when the first
/// double is below the second in IEEE 754.
pub proof fn lemma_key_order_is_ieee_order(a: u64, b: u64)
    ensures
        (Level { key: float_key(a) }).lt(Level { key: float_key(b) }) == ieee_less(a, b),
{
    let ma = magnitude_bits(a);
    let mb = magnitude_bits(b);
    assert(ma <= 0x7FFF_FFFF_FFFF_FFFFu64) by (bit_vector)
        requires
            ma == a & 0x7FFF_FFFF_FFFF_FFFFu64,
    ;
    assert(mb <= 0x7FFF_FFFF_FFFF_FFFFu64) by (bit_vector)
        requires
            mb == b & 0x7FFF_FFFF_FFFF_FFFFu64,
    ;
}

/// The order of levels is a strict order, and NaN is below and above
/// nothing.
pub proof fn lemma_level_order(a: Level, b: Level, c: Level)
    ensures
        !a.lt(a),
        a.lt(b) ==> !b.lt(a),
        a.lt(b) && b.lt(c) ==> a.lt(c),
        !a.ordered() ==> !a.lt(b) && !b.lt(a),
        a.ordered() && b.ordered() ==> (a.lt(b) || b.lt(a) || a == b),
{
}

} // verus!
