//! A 32-bit-style sign-magnitude fixed-point scalar: one sign flag, a whole
//! part below `2^23`, and a fraction numerator below 256 (denominator 256).
//! The sign and the two magnitude parts are kept as explicit fields, an
//! equivalent tagged form of packing them into one machine word.
//!
//! Zero is not unique: a value with zero magnitude may still carry a negative
//! sign (it arises from addition of opposite-signed equal magnitudes and from
//! `from_parts(true, 0, 0)`), and equality is field-wise, so such a value is
//! not equal to `ZERO`. This mirrors the packed-word representation, where
//! zero-magnitude values with different sign bits are not bit-equal, and it is
//! kept deliberately as a documented quirk of the representation.

use vstd::prelude::*;
use vstd::arithmetic::div_mod::lemma_fundamental_div_mod_converse;
use vstd::string::StringExecFns;
use vstd::assert_seqs_equal;

verus! {

/// Number of fraction units in one whole unit: the fixed-point denominator.
pub const DENOMINATOR: u32 = 256;

/// One more than the largest representable whole part (23 whole bits).
pub const WHOLE_LIMIT: u32 = 8388608;

/// The largest representable magnitude, counted in 1/256 units.
pub const MAX_UNITS: u32 = 2147483647;

#[derive(Copy, Clone, PartialEq, Eq, Structural, Debug)]
pub struct Fixed {
    /// Sign flag: true means the value is `-(whole + fraction/256)`.
    pub negative: bool,
    /// Unsigned whole part, below `WHOLE_LIMIT`.
    pub whole: u32,
    /// Unsigned fraction numerator over denominator 256, below `DENOMINATOR`.
    pub fraction: u32,
}

impl Fixed {
    /// The magnitude parts are within the representable ranges.
    pub open spec fn wf(self) -> bool {
        self.whole < WHOLE_LIMIT && self.fraction < DENOMINATOR
    }

    /// Magnitude counted in 1/256 units: `whole * 256 + fraction`.
    pub open spec fn mag(self) -> int {
        self.whole * DENOMINATOR + self.fraction
    }

    /// Signed value counted in 1/256 units.
    pub open spec fn units(self) -> int {
        if self.negative {
            -self.mag()
        } else {
            self.mag()
        }
    }
}

/// Whether a signed count of 1/256 units is representable as a magnitude.
pub open spec fn units_in_range(s: int) -> bool {
    -(MAX_UNITS as int) <= s <= MAX_UNITS as int
}

/// The value built from a sign and magnitude parts, as `new` describes it.
pub open spec fn spec_new(whole: int, fraction: int) -> Fixed {
    Fixed {
        negative: whole < 0,
        whole: (if whole < 0 { -whole } else { whole }) as u32,
        fraction: fraction as u32,
    }
}

/// The value with a given signed count of 1/256 units. A zero count keeps
/// the sign `neg_if_zero`, the sign the operations below give a cancelled
/// (zero-magnitude) result.
pub open spec fn spec_from_units(s: int, neg_if_zero: bool) -> Fixed {
    let neg = if s < 0 { true } else if s > 0 { false } else { neg_if_zero };
    let m = if s < 0 { -s } else { s };
    Fixed { negative: neg, whole: (m / (DENOMINATOR as int)) as u32, fraction: (m % (DENOMINATOR as int)) as u32 }
}

/// What addition returns: the sum of the signed unit counts; a cancelled
/// result keeps the left operand's sign on its zero magnitude.
pub open spec fn spec_add(a: Fixed, b: Fixed) -> Fixed {
    spec_from_units(a.units() + b.units(), a.negative)
}

/// What subtraction returns: `a + (-b)`.
pub open spec fn spec_sub(a: Fixed, b: Fixed) -> Fixed {
    spec_from_units(a.units() - b.units(), a.negative)
}

/// What negation returns: the sign flag flipped, except that the all-zero
/// value is a fixed point of negation.
pub open spec fn spec_neg(a: Fixed) -> Fixed {
    if !a.negative && a.mag() == 0 {
        a
    } else {
        Fixed { negative: !a.negative, ..a }
    }
}

impl Fixed {
    /// Build a value from a signed whole part and a fraction numerator.
    /// The sign is taken from `whole`; magnitudes outside the representable
    /// ranges are contract violations at the call site.
    pub fn new(whole: i32, fraction: u32) -> (r: Fixed)
        requires
            -(WHOLE_LIMIT as i32) < whole < WHOLE_LIMIT as i32,
            fraction < DENOMINATOR,
        ensures
            r == spec_new(whole as int, fraction as int),
            r.wf(),
    {
        let magnitude: u32 = if whole < 0 { (-whole) as u32 } else { whole as u32 };
        Fixed::from_parts(whole < 0, magnitude, fraction)
    }

    /// Build a value from an explicit sign and unsigned magnitude parts.
    /// Magnitudes outside the representable ranges are contract violations.
    pub fn from_parts(negative: bool, whole: u32, fraction: u32) -> (r: Fixed)
        requires
            whole < WHOLE_LIMIT,
            fraction < DENOMINATOR,
        ensures
            r == (Fixed { negative, whole, fraction }),
            r.wf(),
    {
        Fixed { negative, whole, fraction }
    }

    /// The all-zero representation of zero.
    pub open spec fn spec_zero() -> Fixed {
        Fixed { negative: false, whole: 0, fraction: 0 }
    }

    /// The smallest representable positive magnitude, 1/256.
    pub open spec fn spec_epsilon() -> Fixed {
        Fixed { negative: false, whole: 0, fraction: 1 }
    }

    /// The all-zero representation of zero.
    pub fn zero() -> (r: Fixed)
        ensures
            r == Fixed::spec_zero(),
    {
        Fixed { negative: false, whole: 0, fraction: 0 }
    }

    /// The smallest representable positive magnitude, 1/256.
    pub fn epsilon() -> (r: Fixed)
        ensures
            r == Fixed::spec_epsilon(),
    {
        Fixed { negative: false, whole: 0, fraction: 1 }
    }

    /// The exact inverse of the representation: sign, whole, fraction.
    pub fn unpack(&self) -> (r: (bool, u32, u32))
        ensures
            r == (self.negative, self.whole, self.fraction),
    {
        (self.negative, self.whole, self.fraction)
    }
}

/// Add two unsigned magnitudes with a carry from the fraction into the whole.
fn add_unsigned(lw: u32, lf: u32, rw: u32, rf: u32) -> (r: (u32, u32))
    requires
        lw < WHOLE_LIMIT,
        rw < WHOLE_LIMIT,
        lf < DENOMINATOR,
        rf < DENOMINATOR,
    ensures
        r.0 * DENOMINATOR + r.1 == (lw * DENOMINATOR + lf) + (rw * DENOMINATOR + rf),
        r.1 < DENOMINATOR,
{
    let mut new_fraction: u32 = lf + rf;
    let mut overflow: u32 = 0;
    if new_fraction >= DENOMINATOR {
        new_fraction -= DENOMINATOR;
        overflow += 1;
    }
    (lw + rw + overflow, new_fraction)
}

/// Subtract the right unsigned magnitude from the left one, carrying a borrow
/// from the fraction into the whole; the flag says the difference is negative.
fn subtract_unsigned(lw: u32, lf: u32, rw: u32, rf: u32) -> (r: (bool, u32, u32))
    requires
        lw < WHOLE_LIMIT,
        rw < WHOLE_LIMIT,
        lf < DENOMINATOR,
        rf < DENOMINATOR,
    ensures
        r.2 < DENOMINATOR,
        r.1 * DENOMINATOR + r.2 == (if r.0 {
            (rw * DENOMINATOR + rf) - (lw * DENOMINATOR + lf)
        } else {
            (lw * DENOMINATOR + lf) - (rw * DENOMINATOR + rf)
        }),
        r.0 == (lw * DENOMINATOR + lf < rw * DENOMINATOR + rf),
{
    let new_fraction: u32;
    let mut borrow: u32 = 0;
    if lf >= rf {
        new_fraction = lf - rf;
    } else {
        new_fraction = lf + DENOMINATOR - rf;
        borrow = 1;
    }
    let rw_with_borrow = rw + borrow;
    if rw_with_borrow > lw {
        let whole_diff = rw_with_borrow - lw;
        if new_fraction == 0 {
            (true, whole_diff, 0)
        } else {
            (true, whole_diff - 1, DENOMINATOR - new_fraction)
        }
    } else {
        (false, lw - rw_with_borrow, new_fraction)
    }
}

impl core::ops::Add<Fixed> for Fixed {
    type Output = Fixed;

    /// Sign-magnitude addition: shared signs add magnitudes with a fraction
    /// carry; differing signs subtract the smaller magnitude from the larger,
    /// and the result takes the sign of the operand with the larger magnitude
    /// (the left operand's sign when the magnitudes cancel).
    fn add(self, rhs: Fixed) -> (r: Fixed) {
        let (lneg, lw, lf) = self.unpack();
        let (rneg, rw, rf) = rhs.unpack();
        if lneg == rneg {
            let (w, f) = add_unsigned(lw, lf, rw, rf);
            proof {
                lemma_fundamental_div_mod_converse(
                    self.mag() + rhs.mag(),
                    DENOMINATOR as int,
                    w as int,
                    f as int,
                );
            }
            Fixed::from_parts(lneg, w, f)
        } else {
            let (neg, w, f) = subtract_unsigned(lw, lf, rw, rf);
            proof {
                let s = self.units() + rhs.units();
                lemma_fundamental_div_mod_converse(
                    if s < 0 { -s } else { s },
                    DENOMINATOR as int,
                    w as int,
                    f as int,
                );
            }
            Fixed::from_parts(neg == rneg, w, f)
        }
    }
}

impl vstd::std_specs::ops::AddSpecImpl<Fixed> for Fixed {
    open spec fn obeys_add_spec() -> bool {
        true
    }

    open spec fn add_req(self, rhs: Fixed) -> bool {
        self.wf() && rhs.wf() && units_in_range(self.units() + rhs.units())
    }

    open spec fn add_spec(self, rhs: Fixed) -> Fixed {
        spec_add(self, rhs)
    }
}

impl core::ops::AddAssign<Fixed> for Fixed {
    /// Compound addition: reassigns the whole value.
    fn add_assign(&mut self, rhs: Fixed)
        requires
            old(self).wf(),
            rhs.wf(),
            units_in_range(old(self).units() + rhs.units()),
        ensures
            *final(self) == spec_add(*old(self), rhs),
    {
        *self = *self + rhs;
    }
}

impl core::ops::Neg for Fixed {
    type Output = Fixed;

    /// Flip the sign flag; the all-zero value is a fixed point of negation.
    fn neg(self) -> (r: Fixed) {
        if !self.negative && self.whole == 0 && self.fraction == 0 {
            return self;
        }
        Fixed { negative: !self.negative, whole: self.whole, fraction: self.fraction }
    }
}

impl vstd::std_specs::ops::NegSpecImpl for Fixed {
    open spec fn obeys_neg_spec() -> bool {
        true
    }

    open spec fn neg_req(self) -> bool {
        true
    }

    open spec fn neg_spec(self) -> Fixed {
        spec_neg(self)
    }
}

impl core::ops::Sub<Fixed> for Fixed {
    type Output = Fixed;

    /// Subtraction, defined as `self + (-rhs)`.
    fn sub(self, rhs: Fixed) -> (r: Fixed) {
        self + core::ops::Neg::neg(rhs)
    }
}

impl vstd::std_specs::ops::SubSpecImpl<Fixed> for Fixed {
    open spec fn obeys_sub_spec() -> bool {
        true
    }

    open spec fn sub_req(self, rhs: Fixed) -> bool {
        self.wf() && rhs.wf() && units_in_range(self.units() - rhs.units())
    }

    open spec fn sub_spec(self, rhs: Fixed) -> Fixed {
        spec_sub(self, rhs)
    }
}

impl core::ops::SubAssign<Fixed> for Fixed {
    /// Compound subtraction: reassigns the whole value.
    fn sub_assign(&mut self, rhs: Fixed)
        requires
            old(self).wf(),
            rhs.wf(),
            units_in_range(old(self).units() - rhs.units()),
        ensures
            *final(self) == spec_sub(*old(self), rhs),
    {
        *self = *self - rhs;
    }
}

impl Fixed {
    /// The magnitude counted in 1/256 units: `whole * 256 + fraction`. This
    /// count drives the stepped collision loop of the physics tick.
    pub fn epsilons(&self) -> (r: u32)
        requires
            self.wf(),
        ensures
            r == self.mag(),
    {
        self.whole * DENOMINATOR + self.fraction
    }

    /// The sign flag.
    pub fn is_negative(&self) -> (r: bool)
        ensures
            r == self.negative,
    {
        self.negative
    }

    /// The mathematical floor of the value.
    pub open spec fn spec_floor(self) -> int {
        if !self.negative {
            self.whole as int
        } else if self.fraction == 0 {
            -(self.whole as int)
        } else {
            -(self.whole as int) - 1
        }
    }

    /// The largest integer not above the value, exactly.
    pub fn floor_to_i32(&self) -> (r: i32)
        requires
            self.wf(),
        ensures
            r as int == self.spec_floor(),
    {
        if !self.negative {
            self.whole as i32
        } else if self.fraction == 0 {
            -(self.whole as i32)
        } else {
            -(self.whole as i32) - 1
        }
    }
}

/// The character of a single decimal digit.
pub open spec fn spec_digit_char(d: int) -> char {
    if d == 0 {
        '0'
    } else if d == 1 {
        '1'
    } else if d == 2 {
        '2'
    } else if d == 3 {
        '3'
    } else if d == 4 {
        '4'
    } else if d == 5 {
        '5'
    } else if d == 6 {
        '6'
    } else if d == 7 {
        '7'
    } else if d == 8 {
        '8'
    } else {
        '9'
    }
}

/// The decimal digits of a non-negative number, most significant first.
pub open spec fn spec_decimal(n: int) -> Seq<char>
    decreases n,
{
    if n < 10 {
        seq![spec_digit_char(n)]
    } else {
        spec_decimal(n / 10).push(spec_digit_char(n % 10))
    }
}

/// The one-character string of a decimal digit.
fn digit_str(d: u32) -> (r: &'static str)
    requires
        d < 10,
    ensures
        r@ == seq![spec_digit_char(d as int)],
{
    proof {
        reveal_strlit("0");
        reveal_strlit("1");
        reveal_strlit("2");
        reveal_strlit("3");
        reveal_strlit("4");
        reveal_strlit("5");
        reveal_strlit("6");
        reveal_strlit("7");
        reveal_strlit("8");
        reveal_strlit("9");
    }
    match d {
        0 => "0",
        1 => "1",
        2 => "2",
        3 => "3",
        4 => "4",
        5 => "5",
        6 => "6",
        7 => "7",
        8 => "8",
        _ => "9",
    }
}

/// Append the decimal digits of a number, most significant first.
fn push_decimal(s: &mut String, n: u32)
    ensures
        final(s)@ == old(s)@ + spec_decimal(n as int),
    decreases n,
{
    if n >= 10 {
        push_decimal(s, n / 10);
    }
    s.append(digit_str(n % 10));
    proof {
        if n < 10 {
            assert(spec_decimal(n as int) == seq![spec_digit_char(n as int)]);
        }
        assert(final(s)@ == old(s)@ + spec_decimal(n as int));
    }
}

impl Fixed {
    /// The characters of the debug rendering: the type name, a sign, the
    /// whole part in decimal, and the fraction numerator as exactly three
    /// zero-padded decimal digits.
    pub open spec fn spec_debug_chars(self) -> Seq<char> {
        seq!['F', 'i', 'x', 'e', 'd', '('] + seq![
            if self.negative {
                '-'
            } else {
                '+'
            },
        ] + spec_decimal(self.whole as int) + seq!['.'] + seq![
            spec_digit_char(self.fraction as int / 100),
            spec_digit_char((self.fraction as int / 10) % 10),
            spec_digit_char(self.fraction as int % 10),
        ] + seq![')']
    }

    /// The debug rendering, such as `Fixed(+2.128)` or `Fixed(-6.005)`.
    pub fn debug_string(&self) -> (r: String)
        requires
            self.wf(),
        ensures
            r@ == self.spec_debug_chars(),
    {
        proof {
            reveal_strlit("Fixed(");
            reveal_strlit("-");
            reveal_strlit("+");
            reveal_strlit(".");
            reveal_strlit(")");
        }
        let mut s = String::new();
        s.append("Fixed(");
        s.append(if self.negative { "-" } else { "+" });
        push_decimal(&mut s, self.whole);
        s.append(".");
        s.append(digit_str(self.fraction / 100));
        s.append(digit_str((self.fraction / 10) % 10));
        s.append(digit_str(self.fraction % 10));
        s.append(")");
        proof {
            assert_seqs_equal!(s@ == self.spec_debug_chars());
        }
        s
    }
}

/// A value carrying a signed count of 1/256 units keeps exactly that count,
/// and is well formed, whenever the count is representable.
pub proof fn lemma_from_units_val(s: int, neg_if_zero: bool)
    requires
        units_in_range(s),
    ensures
        spec_from_units(s, neg_if_zero).units() == s,
        spec_from_units(s, neg_if_zero).wf(),
{
    let m = if s < 0 { -s } else { s };
    vstd::arithmetic::div_mod::lemma_fundamental_div_mod(m, DENOMINATOR as int);
}

/// Building a value from a valid whole part and fraction and taking the
/// representation apart again gives back the sign of the whole part, its
/// absolute value, and the fraction, exactly.
pub proof fn lemma_new_unpack(whole: int, fraction: int)
    requires
        -(WHOLE_LIMIT as int) < whole < WHOLE_LIMIT as int,
        0 <= fraction < DENOMINATOR,
    ensures
        spec_new(whole, fraction).negative == (whole < 0),
        spec_new(whole, fraction).whole == (if whole < 0 { -whole } else { whole }),
        spec_new(whole, fraction).fraction == fraction,
{
}

/// Addition is commutative: both orders carry the same signed count of 1/256
/// units, and give the very same representation unless the operands have
/// opposite signs and cancel, where only the sign flag on the zero magnitude
/// differs (it is taken from the left operand).
pub proof fn lemma_add_commutative(a: Fixed, b: Fixed)
    requires
        a.wf(),
        b.wf(),
        units_in_range(a.units() + b.units()),
    ensures
        spec_add(a, b).units() == spec_add(b, a).units(),
        (a.units() + b.units() != 0 || a.negative == b.negative) ==> spec_add(a, b) == spec_add(b, a),
{
    lemma_from_units_val(a.units() + b.units(), a.negative);
    lemma_from_units_val(b.units() + a.units(), b.negative);
}

/// A value and its negation cancel: their sum has magnitude zero, and for a
/// non-negative operand it is exactly the all-zero representation of zero.
/// (For a negative operand the zero magnitude keeps the negative sign flag.)
pub proof fn lemma_add_opposite(a: Fixed)
    requires
        a.wf(),
    ensures
        spec_add(a, spec_neg(a)).units() == 0,
        spec_add(a, spec_neg(a)).mag() == 0,
        !a.negative ==> spec_add(a, spec_neg(a)) == Fixed::spec_zero(),
{
    lemma_from_units_val(0, a.negative);
}

} // verus!
