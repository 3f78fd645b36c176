//! Single-precision numbers as their 32 bits.
//!
//! The ball's velocity and sub-pixel position are IEEE 754 binary32 numbers.
//! They cross the wire as their bits and are kept here as their bits. What the
//! game has to know of such a number without rounding anything is computed on
//! the bits: its sign, how it stands to a whole number, and the whole number
//! that it truncates to. Sums and products are the caller's: they need the
//! machine's arithmetic unit.
//!
//! Bit 31 is the sign, bits 30 to 23 the biased exponent, bits 22 to 0 the
//! fraction. A number with exponent `e` between 1 and 254 and fraction `f` is
//! `(2^23 + f) * 2^(e - 150)`, negated where the sign is set.

use vstd::arithmetic::power2::{lemma2_to64, lemma_pow2_unfold, pow2};
use vstd::prelude::*;

verus! {

/// A binary32 number, held as its bits.
#[derive(Debug, Clone, Copy, PartialEq, Eq, Structural)]
pub struct Binary32 {
    pub bits: u32,
}

/// The exponent of the highest power of two that is not above `value`;
/// 0 for values below 2.
pub open spec fn leading_power(value: int) -> nat
    decreases value,
{
    if value < 2 {
        0
    } else {
        1 + leading_power(value / 2)
    }
}

/// `leading_power` is the one exponent whose power of two brackets the value.
pub proof fn lemma_leading_power(value: int, e: nat)
    requires
        pow2(e) <= value < 2 * pow2(e),
    ensures
        leading_power(value) == e,
    decreases e,
{
    lemma2_to64();
    if e == 0 {
    } else {
        lemma_pow2_unfold(e);
        lemma_leading_power(value / 2, (e - 1) as nat);
    }
}

impl Binary32 {
    /// Whether the sign bit is set.
    pub open spec fn sign_set(self) -> bool {
        self.bits >= 0x8000_0000
    }

    /// The biased exponent, 0 to 255.
    pub open spec fn exponent(self) -> int {
        (self.bits as int) / 0x80_0000 % 256
    }

    /// The fraction, below 2^23.
    pub open spec fn fraction(self) -> int {
        (self.bits as int) % 0x80_0000
    }

    /// The bits without the sign.
    pub open spec fn magnitude(self) -> int {
        (self.bits as int) % 0x8000_0000
    }

    /// Whether this is not a number.
    pub open spec fn is_nan(self) -> bool {
        self.magnitude() > 0x7f80_0000
    }

    /// The binary32 number that equals `value`. Every `u16` is one exactly.
    pub open spec fn of_u16(value: u16) -> Binary32 {
        if value == 0 {
            Binary32 { bits: 0 }
        } else {
            let e = leading_power(value as int);
            Binary32 {
                bits: ((127 + e) * 0x80_0000 + (value - pow2(e)) * pow2((23 - e) as nat)) as u32,
            }
        }
    }

    /// What the number is cut down to as a `u16`: its whole part, 0 for a
    /// negative number or none, 65535 for one too large.
    pub open spec fn truncation(self) -> u16 {
        if self.is_nan() || self.sign_set() || self.exponent() < 127 {
            0
        } else if self.exponent() >= 143 {
            65535
        } else {
            ((0x80_0000 + self.fraction()) / (pow2((150 - self.exponent()) as nat) as int)) as u16
        }
    }

    /// The same number with the opposite sign.
    pub open spec fn negation(self) -> Binary32 {
        if self.bits >= 0x8000_0000 {
            Binary32 { bits: (self.bits - 0x8000_0000) as u32 }
        } else {
            Binary32 { bits: (self.bits + 0x8000_0000) as u32 }
        }
    }

    /// Whether the number lies between -1 and 1, both included.
    pub open spec fn unit_bounded(self) -> bool {
        self.magnitude() <= 0x3f80_0000
    }

    /// Whether the number is greater than `limit`.
    pub open spec fn above(self, limit: u16) -> bool {
        !self.is_nan() && !self.sign_set() && self.bits > Self::of_u16(limit).bits
    }

    /// The number with these bits.
    pub fn from_bits(bits: u32) -> (number: Self)
        ensures
            number.bits == bits,
    {
        Binary32 { bits }
    }

    /// The bits of the number.
    pub fn to_bits(self) -> (bits: u32)
        ensures
            bits == self.bits,
    {
        self.bits
    }

    /// The binary32 number that equals `value`.
    pub fn from_u16(value: u16) -> (number: Self)
        ensures
            number == Self::of_u16(value),
    {
        if value == 0 {
            return Binary32 { bits: 0 };
        }
        let mut e: u32 = 0;
        let mut top: u32 = 1;
        let mut scale: u32 = 0x80_0000;
        proof {
            lemma2_to64();
        }
        while 2 * top <= value as u32
            invariant
                e <= 15,
                top == pow2(e as nat),
                scale == pow2((23 - e) as nat),
                top * scale == 0x80_0000,
                top <= value,
            decreases 16 - e,
        {
            proof {
                lemma2_to64();
                lemma_pow2_unfold((e + 1) as nat);
                lemma_pow2_unfold((23 - e) as nat);
                assert(top <= 32767);
                assert(e < 15) by {
                    if e == 15 {
                        assert(top == 32768);
                    }
                }
                assert((2 * top) * (scale / 2) == 0x80_0000) by (nonlinear_arith)
                    requires
                        top * scale == 0x80_0000,
                        scale % 2 == 0,
                ;
            }
            top = 2 * top;
            scale = scale / 2;
            e = e + 1;
        }
        proof {
            lemma_leading_power(value as int, e as nat);
            assert((value - top) * scale < 0x80_0000) by (nonlinear_arith)
                requires
                    top * scale == 0x80_0000,
                    top <= value < 2 * top,
                    scale > 0,
            ;
            assert((value - top) * scale >= 0) by (nonlinear_arith)
                requires
                    top <= value,
                    scale > 0,
            ;
        }
        Binary32 { bits: (127 + e) * 0x80_0000 + (value as u32 - top) * scale }
    }

    /// The number cut down to a `u16`, as the machine's conversion does it.
    pub fn to_u16(self) -> (whole: u16)
        ensures
            whole == self.truncation(),
    {
        let magnitude: u32 = self.bits % 0x8000_0000;
        let exponent: u32 = self.bits / 0x80_0000 % 256;
        let fraction: u32 = self.bits % 0x80_0000;
        if magnitude > 0x7f80_0000 || self.bits >= 0x8000_0000 || exponent < 127 {
            return 0;
        }
        if exponent >= 143 {
            return 65535;
        }
        let mut divisor: u32 = 1;
        let mut k: u32 = 0;
        proof {
            lemma2_to64();
        }
        while k < 150 - exponent
            invariant
                127 <= exponent <= 142,
                k <= 150 - exponent,
                divisor == pow2(k as nat),
                divisor <= 0x80_0000,
            decreases 150 - exponent - k,
        {
            proof {
                lemma2_to64();
                lemma_pow2_unfold((k + 1) as nat);
                vstd::arithmetic::power2::lemma_pow2_strictly_increases(k as nat, 23);
                if k < 22 {
                    vstd::arithmetic::power2::lemma_pow2_strictly_increases((k + 1) as nat, 23);
                }
            }
            divisor = 2 * divisor;
            k = k + 1;
        }
        proof {
            lemma2_to64();
            vstd::arithmetic::power2::lemma_pow2_strictly_increases(7, k as nat);
            assert((0x80_0000 + fraction) as int / (divisor as int) < 65536) by (nonlinear_arith)
                requires
                    divisor >= 256,
                    fraction < 0x80_0000,
            ;
        }
        ((0x80_0000 + fraction) / divisor) as u16
    }

    /// The same number with the opposite sign.
    pub fn negated(self) -> (number: Self)
        ensures
            number == self.negation(),
    {
        if self.bits >= 0x8000_0000 {
            Binary32 { bits: self.bits - 0x8000_0000 }
        } else {
            Binary32 { bits: self.bits + 0x8000_0000 }
        }
    }

    /// Whether the number lies between -1 and 1, both included.
    pub fn is_unit_bounded(self) -> (bounded: bool)
        ensures
            bounded == self.unit_bounded(),
    {
        self.bits % 0x8000_0000 <= 0x3f80_0000
    }

    /// Whether the number is greater than `limit`.
    pub fn is_above(self, limit: u16) -> (greater: bool)
        ensures
            greater == self.above(limit),
    {
        let bound = Self::from_u16(limit);
        self.bits % 0x8000_0000 <= 0x7f80_0000 && self.bits < 0x8000_0000 && self.bits > bound.bits
    }
}

/// A whole number survives the way into binary32 and back: nothing is left
/// over beside it.
pub proof fn lemma_whole_numbers_are_exact(value: u16)
    ensures
        !Binary32::of_u16(value).is_nan(),
        !Binary32::of_u16(value).sign_set(),
        Binary32::of_u16(value).truncation() == value,
{
    lemma2_to64();
    if value != 0 {
        let e = leading_power(value as int);
        lemma_leading_power_bounds(value as int);
        let top = pow2(e) as int;
        let scale = pow2((23 - e) as nat) as int;
        vstd::arithmetic::power2::lemma_pow2_adds(e, (23 - e) as nat);
        assert(top * scale == 0x80_0000);
        vstd::arithmetic::power2::lemma_pow2_pos((23 - e) as nat);
        let f = (value - top) * scale;
        assert(0 <= f < 0x80_0000) by (nonlinear_arith)
            requires
                f == (value - top) * scale,
                top * scale == 0x80_0000,
                top <= value < 2 * top,
                scale > 0,
        ;
        let number = Binary32::of_u16(value);
        assert(number.bits == (127 + e) * 0x80_0000 + f);
        assert(number.exponent() == 127 + e);
        assert(number.fraction() == f);
        assert(0x80_0000 + f == value * scale) by (nonlinear_arith)
            requires
                f == (value - top) * scale,
                top * scale == 0x80_0000,
        ;
        assert((value * scale) / scale == value) by (nonlinear_arith)
            requires
                scale > 0,
        ;
    }
}

/// The leading power of a `u16` is at most 15, and its power of two brackets
/// the value.
pub proof fn lemma_leading_power_bounds(value: int)
    requires
        1 <= value < 65536,
    ensures
        leading_power(value) <= 15,
        pow2(leading_power(value)) <= value < 2 * pow2(leading_power(value)),
{
    lemma2_to64();
    reveal_with_fuel(leading_power, 17);
}

/// Changing the sign changes nothing but the sign, and twice is not at
/// all.
pub proof fn lemma_negation(number: Binary32)
    ensures
        number.negation().sign_set() == !number.sign_set(),
        number.negation().magnitude() == number.magnitude(),
        number.negation().is_nan() == number.is_nan(),
        number.negation().unit_bounded() == number.unit_bounded(),
        number.negation().negation() == number,
{
}

} // verus!
