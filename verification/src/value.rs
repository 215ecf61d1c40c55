//! The complex value type.
use crate::binary32::{
    below_zero, denotes, equal, flipped, lemma_flipped, lemma_named_patterns, minus_one, negate,
    negative, one, opposite, same, zero, Number, MINUS_ONE, ONE, ZERO,
};
use core::ops::{Neg, Not};
use vstd::prelude::*;
use vstd::std_specs::cmp::{PartialEqSpec, PartialEqSpecImpl};
use vstd::std_specs::convert::{FromSpec, FromSpecImpl};
use vstd::std_specs::ops::{NegSpec, NegSpecImpl, NotSpec, NotSpecImpl};

verus! {

/// A complex number: a real and an imaginary component, each the 32-bit
/// pattern of a single-precision number. Any two patterns make a value; none
/// is normalised.
#[derive(Clone, Copy)]
pub struct Complex {
    re: u32,
    im: u32,
}

/// The two numbers that a complex value denotes.
pub struct Parts {
    pub re: Number,
    pub im: Number,
}

impl View for Complex {
    type V = Parts;

    open spec fn view(&self) -> Parts {
        Parts { re: denotes(self.real_bits()), im: denotes(self.imag_bits()) }
    }
}

impl Complex {
    /// The pattern of the real component.
    pub closed spec fn real_bits(self) -> u32 {
        self.re
    }

    /// The pattern of the imaginary component.
    pub closed spec fn imag_bits(self) -> u32 {
        self.im
    }

    /// The value with the given components.
    pub fn new(re: u32, im: u32) -> (z: Complex)
        ensures
            z.real_bits() == re,
            z.imag_bits() == im,
    {
        Complex { re, im }
    }

    /// The imaginary unit: real part zero, imaginary part one.
    pub fn i() -> (z: Complex)
        ensures
            z.real_bits() == ZERO,
            z.imag_bits() == ONE,
            z@ == (Parts { re: zero(), im: one() }),
    {
        proof {
            lemma_named_patterns();
        }
        Complex { re: ZERO, im: ONE }
    }

    /// The real component.
    pub fn real_part(&self) -> (bits: u32)
        ensures
            bits == self.real_bits(),
    {
        self.re
    }

    /// The imaginary component.
    pub fn imag(&self) -> (bits: u32)
        ensures
            bits == self.imag_bits(),
    {
        self.im
    }
}

/// A value is its two patterns and nothing more.
pub proof fn lemma_patterns_determine(a: Complex, b: Complex)
    requires
        a.real_bits() == b.real_bits(),
        a.imag_bits() == b.imag_bits(),
    ensures
        a == b,
{
}

impl PartialEq for Complex {
    /// Two values are equal when their real components are equal numbers and
    /// their imaginary components are equal numbers.
    fn eq(&self, other: &Complex) -> (r: bool) {
        equal(self.re, other.re) && equal(self.im, other.im)
    }

    fn ne(&self, other: &Complex) -> (r: bool) {
        !equal(self.re, other.re) || !equal(self.im, other.im)
    }
}

impl PartialEqSpecImpl for Complex {
    open spec fn obeys_eq_spec() -> bool {
        true
    }

    open spec fn eq_spec(&self, other: &Complex) -> bool {
        same(self@.re, other@.re) && same(self@.im, other@.im)
    }
}

impl PartialEq<u32> for Complex {
    /// A value equals a real number, given by its pattern, when its real
    /// component equals that number and its imaginary component equals zero.
    fn eq(&self, other: &u32) -> (r: bool) {
        proof {
            lemma_named_patterns();
        }
        equal(self.re, *other) && equal(self.im, ZERO)
    }

    fn ne(&self, other: &u32) -> (r: bool) {
        proof {
            lemma_named_patterns();
        }
        !equal(self.re, *other) || !equal(self.im, ZERO)
    }
}

impl PartialEqSpecImpl<u32> for Complex {
    open spec fn obeys_eq_spec() -> bool {
        true
    }

    open spec fn eq_spec(&self, other: &u32) -> bool {
        same(self@.re, denotes(*other)) && same(self@.im, zero())
    }
}

impl From<u32> for Complex {
    /// The value of a real number, given by its pattern: the imaginary
    /// component is positive zero.
    fn from(re: u32) -> (z: Complex)
        ensures
            z.real_bits() == re,
            z.imag_bits() == ZERO,
    {
        Complex { re, im: ZERO }
    }
}

impl FromSpecImpl<u32> for Complex {
    open spec fn obeys_from_spec() -> bool {
        true
    }

    closed spec fn from_spec(re: u32) -> Complex {
        Complex { re, im: ZERO }
    }
}

impl Neg for Complex {
    type Output = Complex;

    /// The value with both components negated: each keeps its bits but for
    /// the sign.
    fn neg(self) -> (z: Complex)
        ensures
            z.real_bits() == flipped(self.real_bits()),
            z.imag_bits() == flipped(self.imag_bits()),
            z@ == (Parts { re: opposite(self@.re), im: opposite(self@.im) }),
    {
        Complex { re: negate(self.re), im: negate(self.im) }
    }
}

impl NegSpecImpl for Complex {
    open spec fn obeys_neg_spec() -> bool {
        true
    }

    open spec fn neg_req(self) -> bool {
        true
    }

    closed spec fn neg_spec(self) -> Complex {
        Complex { re: flipped(self.re), im: flipped(self.im) }
    }
}

impl Not for Complex {
    type Output = Complex;

    /// The value with its two components exchanged. This is not the
    /// conjugate.
    fn not(self) -> (z: Complex)
        ensures
            z.real_bits() == self.imag_bits(),
            z.imag_bits() == self.real_bits(),
    {
        Complex { re: self.im, im: self.re }
    }
}

impl NotSpecImpl for Complex {
    open spec fn obeys_not_spec() -> bool {
        true
    }

    open spec fn not_req(self) -> bool {
        true
    }

    closed spec fn not_spec(self) -> Complex {
        Complex { re: self.im, im: self.re }
    }
}

/// The textual form of a value, given the decimal texts of its two
/// components.
///
/// Zero is `0`. With a real part of zero only the imaginary part is written,
/// followed by `i`; a coefficient of one or minus one is left out. Otherwise
/// the real part comes first and the imaginary part follows: its own minus
/// sign joins the two when it is less than zero, a `+` when it is not, and a
/// coefficient of one or minus one is again left out. An imaginary part of
/// zero behind a real part other than zero is written in full.
pub open spec fn layout(z: Parts, re_text: Seq<char>, im_text: Seq<char>) -> Seq<char> {
    if z.re == zero() {
        if z.im == zero() {
            seq!['0']
        } else if z.im == one() {
            seq!['i']
        } else if z.im == minus_one() {
            seq!['-', 'i']
        } else {
            im_text + seq!['i']
        }
    } else if negative(z.im) {
        if z.im == minus_one() {
            re_text + seq!['-', 'i']
        } else {
            re_text + im_text + seq!['i']
        }
    } else if z.im == one() {
        re_text + seq!['+', 'i']
    } else {
        re_text + seq!['+'] + im_text + seq!['i']
    }
}

impl Complex {
    /// Writes the value out. `re_text` and `im_text` are the decimal texts
    /// of the real and the imaginary component.
    pub fn render(&self, re_text: &str, im_text: &str) -> (text: String)
        ensures
            text@ == layout(self@, re_text@, im_text@),
    {
        proof {
            lemma_named_patterns();
            reveal_strlit("0");
            reveal_strlit("i");
            reveal_strlit("-i");
            reveal_strlit("+i");
            reveal_strlit("+");
        }
        if equal(self.re, ZERO) {
            if equal(self.im, ZERO) {
                let text = String::from_str("0");
                assert(text@ =~= seq!['0']);
                text
            } else if equal(self.im, ONE) {
                let text = String::from_str("i");
                assert(text@ =~= seq!['i']);
                text
            } else if equal(self.im, MINUS_ONE) {
                let text = String::from_str("-i");
                assert(text@ =~= seq!['-', 'i']);
                text
            } else {
                let text = String::from_str(im_text).concat("i");
                assert(text@ =~= im_text@ + seq!['i']);
                text
            }
        } else if below_zero(self.im) {
            if equal(self.im, MINUS_ONE) {
                let text = String::from_str(re_text).concat("-i");
                assert(text@ =~= re_text@ + seq!['-', 'i']);
                text
            } else {
                let text = String::from_str(re_text).concat(im_text).concat("i");
                assert(text@ =~= re_text@ + im_text@ + seq!['i']);
                text
            }
        } else if equal(self.im, ONE) {
            let text = String::from_str(re_text).concat("+i");
            assert(text@ =~= re_text@ + seq!['+', 'i']);
            text
        } else {
            let text = String::from_str(re_text).concat("+").concat(im_text).concat("i");
            assert(text@ =~= re_text@ + seq!['+'] + im_text@ + seq!['i']);
            text
        }
    }
}

/// The value made from a real number has that number's pattern as its real
/// component and positive zero as its imaginary component.
pub proof fn lemma_from_real(re: u32)
    ensures
        <Complex as FromSpec<u32>>::from_spec(re).real_bits() == re,
        <Complex as FromSpec<u32>>::from_spec(re).imag_bits() == ZERO,
{
}

/// Negation inverts the sign bit of each component, so the negated value
/// denotes the opposite numbers, and negating twice gives the value back.
pub proof fn lemma_negated(z: Complex)
    ensures
        NegSpec::neg_spec(z).real_bits() == flipped(z.real_bits()),
        NegSpec::neg_spec(z).imag_bits() == flipped(z.imag_bits()),
        NegSpec::neg_spec(z)@ == (Parts { re: opposite(z@.re), im: opposite(z@.im) }),
        NegSpec::neg_spec(NegSpec::neg_spec(z)) == z,
{
    lemma_flipped(z.re);
    lemma_flipped(z.im);
}

/// The swap exchanges the two components, and swapping twice gives the value
/// back.
pub proof fn lemma_swapped(z: Complex)
    ensures
        NotSpec::not_spec(z).real_bits() == z.imag_bits(),
        NotSpec::not_spec(z).imag_bits() == z.real_bits(),
        NotSpec::not_spec(NotSpec::not_spec(z)) == z,
{
}

/// A value with a NaN component equals no value, itself included.
pub proof fn lemma_nan_equals_nothing(a: Complex, b: Complex)
    requires
        a@.re is Nan || a@.im is Nan,
    ensures
        !PartialEqSpec::eq_spec(&a, &b),
        !PartialEqSpec::eq_spec(&b, &a),
        !PartialEqSpec::eq_spec(&a, &a),
{
}

/// A value equals a real number exactly when it equals the value made from
/// that number.
pub proof fn lemma_equals_real(z: Complex, re: u32)
    ensures
        PartialEqSpec::eq_spec(&z, &re) == PartialEqSpec::eq_spec(
            &z,
            &<Complex as FromSpec<u32>>::from_spec(re),
        ),
{
    lemma_named_patterns();
}

} // verus!
