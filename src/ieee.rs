use vstd::prelude::*;

verus! {

/// The sign bit of an IEEE-754 binary64 bit pattern.
pub const SIGN_BIT: u64 = 0x8000_0000_0000_0000;

/// The magnitude bits of positive infinity; larger magnitudes are NaN.
pub const INFINITY_BITS: u64 = 0x7FF0_0000_0000_0000;

/// The bit pattern of `1.0`.
pub const ONE_BITS: u64 = 0x3FF0_0000_0000_0000;

/// The magnitude bits of a pattern: everything but the sign bit.
pub open spec fn magnitude(bits: u64) -> int {
    if bits >= SIGN_BIT {
        bits - SIGN_BIT
    } else {
        bits as int
    }
}

/// Whether a pattern has its sign bit set.
pub open spec fn sign_set(bits: u64) -> bool {
    bits >= SIGN_BIT
}

/// A real number in the IEEE-754 binary64 encoding, held as its bit pattern.
#[derive(Clone, Copy, Debug, PartialEq, Eq)]
pub struct Real {
    pub bits: u64,
}

impl Real {
    /// Whether the value is a NaN.
    pub open spec fn nan(self) -> bool {
        magnitude(self.bits) > INFINITY_BITS
    }

    /// An integer that orders and negates as the value does: for two values
    /// that are not NaN, `a < b` holds exactly when `a.level() < b.level()`,
    /// they compare equal exactly when their levels are equal (so `-0.0` and
    /// `0.0` share level 0), and `-a` has level `-a.level()`. Finite values
    /// lie strictly between the levels of the two infinities.
    pub open spec fn level(self) -> int {
        if sign_set(self.bits) {
            -magnitude(self.bits)
        } else {
            magnitude(self.bits)
        }
    }

    /// `self < 0.0`
    pub open spec fn negative(self) -> bool {
        !self.nan() && self.level() < 0
    }

    /// `self > 0.0`
    pub open spec fn positive(self) -> bool {
        !self.nan() && self.level() > 0
    }

    /// `self < other`, as IEEE-754 compares them.
    pub open spec fn below(self, other: Real) -> bool {
        !self.nan() && !other.nan() && self.level() < other.level()
    }

    /// The bit pattern of `-self`.
    pub open spec fn negated_bits(bits: u64) -> u64 {
        if bits >= SIGN_BIT {
            (bits - SIGN_BIT) as u64
        } else {
            (bits + SIGN_BIT) as u64
        }
    }

    /// `-self`
    pub open spec fn neg_spec(self) -> Real {
        Real { bits: Self::negated_bits(self.bits) }
    }

    /// The value with the given bit pattern.
    pub fn from_bits(bits: u64) -> (r: Real)
        ensures
            r.bits == bits,
    {
        Real { bits }
    }

    /// `0.0`
    pub fn zero() -> (r: Real)
        ensures
            r.bits == 0,
            r.level() == 0,
            !r.nan(),
    {
        Real { bits: 0 }
    }

    /// `1.0`
    pub fn one() -> (r: Real)
        ensures
            r.bits == ONE_BITS,
            r.positive(),
    {
        Real { bits: ONE_BITS }
    }

    /// Whether the value is a NaN.
    pub fn is_nan(self) -> (r: bool)
        ensures
            r == self.nan(),
    {
        let m: u64 = if self.bits >= SIGN_BIT { self.bits - SIGN_BIT } else { self.bits };
        m > INFINITY_BITS
    }

    /// `-self`: the same magnitude with the sign bit flipped.
    pub fn neg(self) -> (r: Real)
        ensures
            r == self.neg_spec(),
            r.level() == -self.level(),
            r.nan() == self.nan(),
    {
        if self.bits >= SIGN_BIT {
            Real { bits: self.bits - SIGN_BIT }
        } else {
            Real { bits: self.bits + SIGN_BIT }
        }
    }

    /// `self < 0.0`
    pub fn is_negative(self) -> (r: bool)
        ensures
            r == self.negative(),
    {
        !self.is_nan() && self.bits > SIGN_BIT
    }

    /// `self > 0.0`
    pub fn is_positive(self) -> (r: bool)
        ensures
            r == self.positive(),
    {
        !self.is_nan() && self.bits > 0 && self.bits < SIGN_BIT
    }

    /// `self < other`, as IEEE-754 compares them.
    pub fn lt(self, other: Real) -> (r: bool)
        ensures
            r == self.below(other),
    {
        if self.is_nan() || other.is_nan() {
            false
        } else {
            self.level_of() < other.level_of()
        }
    }

    /// The level of the value, as an integer wide enough to hold it.
    pub fn level_of(self) -> (r: i128)
        ensures
            r == self.level(),
    {
        if self.bits >= SIGN_BIT {
            -((self.bits - SIGN_BIT) as i128)
        } else {
            self.bits as i128
        }
    }
}

/// Negation is an involution that reverses the order of values.
pub proof fn lemma_negation_reverses_order(a: Real, b: Real)
    ensures
        a.neg_spec().neg_spec() == a,
        a.neg_spec().level() == -a.level(),
        a.neg_spec().nan() == a.nan(),
        a.below(b) <==> b.neg_spec().below(a.neg_spec()),
        a.negative() <==> a.neg_spec().positive(),
{
}

} // verus!
