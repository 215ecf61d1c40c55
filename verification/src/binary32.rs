//! The 32-bit patterns of single-precision binary floating-point numbers.
//!
//! A pattern is a sign bit, eight exponent bits and twenty-three fraction
//! bits, from the most significant bit down. The smallest step between two
//! finite numbers of this format is `2^-149`; every finite number is a whole
//! multiple of it, and this module measures them in that unit.
use vstd::arithmetic::power2::*;
use vstd::prelude::*;

verus! {

/// What a pattern denotes.
pub enum Number {
    /// Not a number: the exponent bits are all set and the fraction is not zero.
    Nan,
    /// An infinity: the exponent bits are all set and the fraction is zero.
    Infinite { negative: bool },
    /// The rational number `units * 2^-149`. Both zeros are `units == 0`.
    Finite { units: int },
}

/// The pattern of positive zero.
pub const ZERO: u32 = 0;

/// The pattern of the number one.
pub const ONE: u32 = 0x3f80_0000;

/// The pattern of the number minus one.
pub const MINUS_ONE: u32 = 0xbf80_0000;

/// The sign bit alone.
pub const SIGN: u32 = 0x8000_0000;

/// The pattern of positive infinity: the exponent bits alone.
pub const INFINITY: u32 = 0x7f80_0000;

/// Whether the sign bit is set.
pub open spec fn sign(bits: u32) -> bool {
    bits >= 0x8000_0000
}

/// The pattern without its sign bit.
pub open spec fn magnitude(bits: u32) -> nat {
    if sign(bits) {
        (bits - 0x8000_0000) as nat
    } else {
        bits as nat
    }
}

/// The eight exponent bits, as a number below 256.
pub open spec fn exponent(bits: u32) -> nat {
    magnitude(bits) / 0x80_0000
}

/// The twenty-three fraction bits, as a number below `2^23`.
pub open spec fn fraction(bits: u32) -> nat {
    magnitude(bits) % 0x80_0000
}

/// The absolute value of a finite pattern, in units of `2^-149`.
///
/// With exponent bits zero the fraction counts the units directly; otherwise
/// an implicit leading one stands before the fraction and each step of the
/// exponent doubles the value.
pub open spec fn units(bits: u32) -> nat {
    if exponent(bits) == 0 {
        fraction(bits)
    } else {
        (0x80_0000 + fraction(bits)) * pow2((exponent(bits) - 1) as nat)
    }
}

/// The number that a pattern denotes.
pub open spec fn denotes(bits: u32) -> Number {
    if exponent(bits) == 255 {
        if fraction(bits) == 0 {
            Number::Infinite { negative: sign(bits) }
        } else {
            Number::Nan
        }
    } else if sign(bits) {
        Number::Finite { units: -(units(bits) as int) }
    } else {
        Number::Finite { units: units(bits) as int }
    }
}

/// The number zero.
pub open spec fn zero() -> Number {
    Number::Finite { units: 0 }
}

/// The number one, which is `2^149` units.
pub open spec fn one() -> Number {
    Number::Finite { units: pow2(149) as int }
}

/// The number minus one.
pub open spec fn minus_one() -> Number {
    Number::Finite { units: -(pow2(149) as int) }
}

/// Equality of two numbers as the format defines it: a NaN equals nothing,
/// itself included; otherwise two numbers are equal when they are the same
/// number.
pub open spec fn same(a: Number, b: Number) -> bool {
    a !is Nan && a == b
}

/// Whether a number is less than zero. A NaN is not.
pub open spec fn negative(n: Number) -> bool {
    match n {
        Number::Nan => false,
        Number::Infinite { negative } => negative,
        Number::Finite { units } => units < 0,
    }
}

/// The number with the opposite sign. A NaN stays a NaN.
pub open spec fn opposite(n: Number) -> Number {
    match n {
        Number::Nan => Number::Nan,
        Number::Infinite { negative } => Number::Infinite { negative: !negative },
        Number::Finite { units } => Number::Finite { units: -units },
    }
}

/// The pattern with its sign bit inverted.
pub open spec fn flipped(bits: u32) -> u32 {
    if sign(bits) {
        (bits - 0x8000_0000) as u32
    } else {
        (bits + 0x8000_0000) as u32
    }
}

/// Among finite patterns a larger magnitude is a larger absolute value.
pub proof fn lemma_units_increase(a: u32, b: u32)
    requires
        magnitude(a) < magnitude(b) < 0x7f80_0000,
    ensures
        units(a) < units(b),
{
    let ea = exponent(a);
    let eb = exponent(b);
    let fa = fraction(a);
    let fb = fraction(b);
    assert(ea <= eb);
    if ea == eb {
        if ea > 0 {
            let p = pow2((ea - 1) as nat);
            lemma_pow2_pos((ea - 1) as nat);
            assert((0x80_0000 + fa) * p < (0x80_0000 + fb) * p) by (nonlinear_arith)
                requires
                    fa < fb,
                    p > 0,
            ;
        }
    } else {
        let q = pow2((eb - 1) as nat);
        lemma_pow2_pos((eb - 1) as nat);
        assert(0x80_0000 * q <= (0x80_0000 + fb) * q) by (nonlinear_arith)
            requires
                fb >= 0,
                q > 0,
        ;
        if ea == 0 {
            assert(0x80_0000 * 1 <= 0x80_0000 * q) by (nonlinear_arith)
                requires
                    q >= 1,
            ;
        } else {
            let p = pow2((ea - 1) as nat);
            lemma_pow2_pos((ea - 1) as nat);
            lemma_pow2_unfold(ea);
            assert((0x80_0000 + fa) * p < 0x80_0000 * (2 * p)) by (nonlinear_arith)
                requires
                    fa < 0x80_0000,
                    p > 0,
            ;
            if ea < eb - 1 {
                lemma_pow2_strictly_increases(ea, (eb - 1) as nat);
            }
            assert(0x80_0000 * pow2(ea) <= 0x80_0000 * q) by (nonlinear_arith)
                requires
                    pow2(ea) <= q,
            ;
        }
    }
}

/// Two patterns denote equal numbers exactly when neither is a NaN and they
/// are the same pattern or the patterns of the two zeros.
pub proof fn lemma_same_number(a: u32, b: u32)
    ensures
        denotes(a) is Nan <==> magnitude(a) > 0x7f80_0000,
        same(denotes(a), denotes(b)) <==> {
            &&& magnitude(a) <= 0x7f80_0000
            &&& magnitude(b) <= 0x7f80_0000
            &&& (a == b || (magnitude(a) == 0 && magnitude(b) == 0))
        },
{
    let ma = magnitude(a);
    let mb = magnitude(b);
    if ma < 0x7f80_0000 && mb < 0x7f80_0000 {
        if ma < mb {
            lemma_units_increase(a, b);
        } else if mb < ma {
            lemma_units_increase(b, a);
        }
        if 0 < ma {
            lemma_units_increase(0, a);
        }
        if 0 < mb {
            lemma_units_increase(0, b);
        }
    }
}

/// A pattern denotes a number less than zero exactly when its sign bit is
/// set and the rest is neither zero nor a NaN.
pub proof fn lemma_below_zero(bits: u32)
    ensures
        negative(denotes(bits)) <==> sign(bits) && 0 < magnitude(bits) <= 0x7f80_0000,
{
    if 0 < magnitude(bits) < 0x7f80_0000 {
        lemma_units_increase(ZERO, bits);
    }
}

/// The three named patterns denote zero, one and minus one.
pub proof fn lemma_named_patterns()
    ensures
        denotes(ZERO) == zero(),
        denotes(ONE) == one(),
        denotes(MINUS_ONE) == minus_one(),
{
    lemma2_to64();
    lemma_pow2_adds(23, 126);
}

/// Inverting the sign bit of a pattern gives the pattern of the opposite
/// number, and doing so twice gives the pattern back.
pub proof fn lemma_flipped(bits: u32)
    ensures
        denotes(flipped(bits)) == opposite(denotes(bits)),
        flipped(flipped(bits)) == bits,
{
}

/// Whether two patterns denote equal numbers. A NaN equals nothing, and the
/// two zeros are equal.
pub fn equal(a: u32, b: u32) -> (r: bool)
    ensures
        r == same(denotes(a), denotes(b)),
{
    let ma: u32 = a & 0x7fff_ffff;
    let mb: u32 = b & 0x7fff_ffff;
    proof {
        lemma_magnitude(a);
        lemma_magnitude(b);
        lemma_same_number(a, b);
    }
    ma <= INFINITY && mb <= INFINITY && (a == b || (ma == 0 && mb == 0))
}

/// Whether a pattern denotes a number less than zero: a negative number
/// other than zero, or negative infinity.
pub fn below_zero(bits: u32) -> (r: bool)
    ensures
        r == negative(denotes(bits)),
{
    proof {
        lemma_below_zero(bits);
    }
    SIGN < bits && bits <= 0xff80_0000
}

/// The pattern of the opposite number: the same bits with the sign inverted.
pub fn negate(bits: u32) -> (r: u32)
    ensures
        r == flipped(bits),
        denotes(r) == opposite(denotes(bits)),
{
    proof {
        assert(bits ^ 0x8000_0000 == if bits >= 0x8000_0000 {
            (bits - 0x8000_0000) as u32
        } else {
            (bits + 0x8000_0000) as u32
        }) by (bit_vector);
        lemma_flipped(bits);
    }
    bits ^ SIGN
}

/// Masking the sign bit away leaves the magnitude.
proof fn lemma_magnitude(bits: u32)
    ensures
        bits & 0x7fff_ffff == magnitude(bits),
{
    assert(bits & 0x7fff_ffff == if bits >= 0x8000_0000 {
        (bits - 0x8000_0000) as u32
    } else {
        bits
    }) by (bit_vector);
}

} // verus!
