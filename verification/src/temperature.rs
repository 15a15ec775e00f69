//! Temperatures as IEEE 754 binary64 values, held by their encoding.
//!
//! A temperature is kept as the 64 bits of a double: one sign bit, eleven
//! exponent bits, fifty-two fraction bits. Comparison is defined on the
//! encoding and shown to agree with the order of the numbers encoded.

use vstd::arithmetic::power2::*;
use vstd::prelude::*;

verus! {

/// The sign bit of the encoding.
pub const SIGN_BIT: u64 = 0x8000_0000_0000_0000;

/// The encoding of positive infinity: every exponent bit set, no fraction bit.
/// Magnitudes below it are finite, magnitudes above it are not numbers.
pub const INFINITY_BITS: u64 = 0x7ff0_0000_0000_0000;

/// Two to the fifty-second: the weight of the lowest exponent bit, and the
/// implicit leading bit of a normal significand.
pub const HIDDEN_BIT: u64 = 0x0010_0000_0000_0000;

/// A temperature in degrees, as the bits of an IEEE 754 binary64 value.
///
/// `==` on this type is identity of encodings: it tells `0.0` from `-0.0` and
/// finds a NaN equal to itself. The numeric comparison is [`Temperature::lt`].
#[derive(Clone, Copy, Debug, PartialEq, Eq, Structural)]
pub struct Temperature {
    pub bits: u64,
}

impl Temperature {
    /// The encoding with its sign bit cleared.
    pub open spec fn magnitude(self) -> nat {
        if self.bits >= SIGN_BIT {
            (self.bits - SIGN_BIT) as nat
        } else {
            self.bits as nat
        }
    }

    /// Whether the sign bit is set.
    pub open spec fn is_sign_negative(self) -> bool {
        self.bits >= SIGN_BIT
    }

    /// Zero, subnormal or normal: neither an infinity nor a NaN.
    pub open spec fn spec_is_finite(&self) -> bool {
        self.magnitude() < INFINITY_BITS
    }

    /// Not a number.
    pub open spec fn spec_is_nan(&self) -> bool {
        self.magnitude() > INFINITY_BITS
    }

    /// The position of the value among all encodings that are numbers: the
    /// magnitude, counted downwards from zero where the sign bit is set. Both
    /// zeros stand at 0.
    pub open spec fn ordinal(self) -> int {
        if self.is_sign_negative() {
            -(self.magnitude() as int)
        } else {
            self.magnitude() as int
        }
    }

    /// IEEE 754 `<`: false as soon as one side is a NaN, else the order of
    /// the ordinals.
    pub open spec fn spec_lt(&self, other: &Temperature) -> bool {
        &&& !self.spec_is_nan()
        &&& !other.spec_is_nan()
        &&& self.ordinal() < other.ordinal()
    }

    /// The biased exponent: the eleven bits under the sign.
    pub open spec fn exponent_field(self) -> nat {
        self.magnitude() / (HIDDEN_BIT as nat)
    }

    /// The fifty-two fraction bits.
    pub open spec fn fraction_field(self) -> nat {
        self.magnitude() % (HIDDEN_BIT as nat)
    }

    /// The absolute value of a finite temperature, in units of 2^-1074
    /// degree. Every finite binary64 value is a whole number of these.
    pub open spec fn scaled_magnitude(self) -> nat {
        if self.exponent_field() == 0 {
            self.fraction_field()
        } else {
            (HIDDEN_BIT as nat + self.fraction_field()) * pow2((self.exponent_field() - 1) as nat)
        }
    }

    /// The value of a finite temperature, in units of 2^-1074 degree.
    pub open spec fn scaled_value(self) -> int {
        if self.is_sign_negative() {
            -(self.scaled_magnitude() as int)
        } else {
            self.scaled_magnitude() as int
        }
    }

    /// The temperature with the given encoding.
    pub fn from_bits(bits: u64) -> (t: Temperature)
        ensures
            t.bits == bits,
    {
        Temperature { bits }
    }

    /// The encoding.
    pub fn to_bits(&self) -> (bits: u64)
        ensures
            bits == self.bits,
    {
        self.bits
    }

    fn magnitude_bits(&self) -> (m: u64)
        ensures
            m == self.magnitude(),
            m < SIGN_BIT,
    {
        if self.bits >= SIGN_BIT {
            self.bits - SIGN_BIT
        } else {
            self.bits
        }
    }

    /// Whether the temperature is a finite number.
    #[verifier::when_used_as_spec(spec_is_finite)]
    pub fn is_finite(&self) -> (finite: bool)
        ensures
            finite == self.spec_is_finite(),
    {
        self.magnitude_bits() < INFINITY_BITS
    }

    /// Whether the temperature is a NaN.
    #[verifier::when_used_as_spec(spec_is_nan)]
    pub fn is_nan(&self) -> (nan: bool)
        ensures
            nan == self.spec_is_nan(),
    {
        self.magnitude_bits() > INFINITY_BITS
    }

    /// Whether this temperature is below `other`, as IEEE 754 compares.
    #[verifier::when_used_as_spec(spec_lt)]
    pub fn lt(&self, other: &Temperature) -> (below: bool)
        ensures
            below == self.spec_lt(other),
    {
        if self.is_nan() || other.is_nan() {
            return false;
        }
        let a: u64 = self.magnitude_bits();
        let b: u64 = other.magnitude_bits();
        if self.bits >= SIGN_BIT {
            if other.bits >= SIGN_BIT {
                b < a
            } else {
                a > 0 || b > 0
            }
        } else {
            if other.bits >= SIGN_BIT {
                false
            } else {
                a < b
            }
        }
    }
}

/// Among finite temperatures, the larger magnitude encodes the larger
/// absolute value.
proof fn lemma_scaled_magnitude_increases(a: Temperature, b: Temperature)
    requires
        a.is_finite(),
        b.is_finite(),
        a.magnitude() < b.magnitude(),
    ensures
        a.scaled_magnitude() < b.scaled_magnitude(),
{
    let h: int = HIDDEN_BIT as int;
    let ea: int = a.exponent_field() as int;
    let eb: int = b.exponent_field() as int;
    let fa: int = a.fraction_field() as int;
    let fb: int = b.fraction_field() as int;
    let ma: int = a.magnitude() as int;
    let mb: int = b.magnitude() as int;
    assert(ma == h * ea + fa && 0 <= fa < h) by {
        vstd::arithmetic::div_mod::lemma_fundamental_div_mod(ma, h);
    }
    assert(mb == h * eb + fb && 0 <= fb < h) by {
        vstd::arithmetic::div_mod::lemma_fundamental_div_mod(mb, h);
    }
    assert(ea <= eb) by {
        vstd::arithmetic::div_mod::lemma_div_is_ordered(ma, mb, h);
    }
    if ea == eb {
        if ea > 0 {
            let p: int = pow2((ea - 1) as nat) as int;
            lemma_pow2_pos((ea - 1) as nat);
            assert((h + fa) * p < (h + fb) * p) by (nonlinear_arith)
                requires
                    fa < fb,
                    p > 0,
            ;
        }
    } else {
        let q: int = pow2((eb - 1) as nat) as int;
        lemma_pow2_pos((eb - 1) as nat);
        assert(h * q <= (h + fb) * q) by (nonlinear_arith)
            requires
                0 <= fb,
                q > 0,
        ;
        if ea == 0 {
            assert(h * 1 <= h * q) by (nonlinear_arith)
                requires
                    h > 0,
                    q >= 1,
            ;
        } else {
            let p: int = pow2((ea - 1) as nat) as int;
            lemma_pow2_pos((ea - 1) as nat);
            lemma_pow2_unfold(ea as nat);
            assert(pow2(ea as nat) <= pow2((eb - 1) as nat)) by {
                if ea < eb - 1 {
                    lemma_pow2_strictly_increases(ea as nat, (eb - 1) as nat);
                }
            }
            assert((h + fa) * p < h * (2 * p)) by (nonlinear_arith)
                requires
                    fa < h,
                    p > 0,
            ;
            assert(h * (2 * p) <= h * q) by (nonlinear_arith)
                requires
                    h > 0,
                    2 * p <= q,
            ;
        }
    }
}

/// For finite temperatures, `lt` is the order of the numbers encoded: `a` is
/// below `b` exactly when the value of `a` is the smaller one. The two zeros
/// encode the same number, and neither is below the other.
pub proof fn lemma_lt_is_numeric_order(a: Temperature, b: Temperature)
    requires
        a.is_finite(),
        b.is_finite(),
    ensures
        a.lt(&b) <==> a.scaled_value() < b.scaled_value(),
{
    let zero = Temperature { bits: 0 };
    assert(zero.scaled_magnitude() == 0);
    if a.magnitude() > 0 {
        lemma_scaled_magnitude_increases(zero, a);
    }
    if b.magnitude() > 0 {
        lemma_scaled_magnitude_increases(zero, b);
    }
    if a.magnitude() < b.magnitude() {
        lemma_scaled_magnitude_increases(a, b);
    } else if b.magnitude() < a.magnitude() {
        lemma_scaled_magnitude_increases(b, a);
    }
}


} // verus!
