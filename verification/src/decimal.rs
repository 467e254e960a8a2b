//! Exact signed decimal numbers: the amounts and balances of the ledger.
//!
//! A [`Decimal`] holds the decimal digits of an unscaled integer, its sign and
//! a scale; it stands for `unscaled * 10^(-scale)`. Parsing, rendering and
//! normalising are done by the `bigdecimal` crate.

use vstd::prelude::*;
use bigdecimal::BigDecimal;
use bigdecimal::ParseBigDecimalError;
use bigdecimal::num_bigint::BigInt;
use crate::error::{AppError, Classification, ErrorView};

verus! {

/// The sign of a number.
#[derive(Clone, Copy, Debug, PartialEq, Eq, Structural)]
pub enum Sign {
    Minus,
    NoSign,
    Plus,
}

/// `10^n`.
pub open spec fn pow10(n: nat) -> int
    decreases n,
{
    if n == 0 {
        1
    } else {
        10 * pow10((n - 1) as nat)
    }
}

/// The number that a sequence of decimal digits writes, most significant
/// digit first.
pub open spec fn digits_value(digits: Seq<u8>) -> int
    decreases digits.len(),
{
    if digits.len() == 0 {
        0
    } else {
        10 * digits_value(digits.drop_last()) + digits.last() as int
    }
}

/// The mathematical content of a [`Decimal`]: the number `unscaled * 10^(-scale)`.
pub struct DecimalValue {
    pub unscaled: int,
    pub scale: int,
}

impl DecimalValue {
    /// The larger of the two scales.
    pub open spec fn common_scale(self, other: DecimalValue) -> int {
        if self.scale >= other.scale {
            self.scale
        } else {
            other.scale
        }
    }

    /// The unscaled integer of this number written with the scale `scale`,
    /// which is at least the number's own.
    pub open spec fn aligned(self, scale: int) -> int
        recommends
            scale >= self.scale,
    {
        self.unscaled * pow10((scale - self.scale) as nat)
    }

    /// The exact sum.
    pub open spec fn plus(self, other: DecimalValue) -> DecimalValue {
        let scale = self.common_scale(other);
        DecimalValue { unscaled: self.aligned(scale) + other.aligned(scale), scale }
    }

    /// The number with the opposite sign.
    pub open spec fn negated(self) -> DecimalValue {
        DecimalValue { unscaled: -self.unscaled, scale: self.scale }
    }

    /// `self >= other`, as numbers.
    pub open spec fn at_least(self, other: DecimalValue) -> bool {
        let scale = self.common_scale(other);
        self.aligned(scale) >= other.aligned(scale)
    }

    /// Whether the two stand for the same number, whatever their scales.
    pub open spec fn same_number(self, other: DecimalValue) -> bool {
        let scale = self.common_scale(other);
        self.aligned(scale) == other.aligned(scale)
    }

    /// Whether the number is below zero.
    pub open spec fn is_negative(self) -> bool {
        self.unscaled < 0
    }

    /// The sign of the number.
    pub open spec fn sign(self) -> Sign {
        if self.unscaled < 0 {
            Sign::Minus
        } else if self.unscaled == 0 {
            Sign::NoSign
        } else {
            Sign::Plus
        }
    }

    /// Whether the scale of the normal form is one that a number can hold.
    pub open spec fn normalizable(self) -> bool {
        self.normal_form().scale >= i64::MIN
    }

    /// Whether the number is written without insignificant trailing zeros.
    pub open spec fn is_normal(self) -> bool {
        self.unscaled % 10 != 0 || self == (DecimalValue { unscaled: 0, scale: 0 })
    }

    /// The same number without insignificant trailing zeros: zero has scale
    /// zero, and any other number an unscaled integer that 10 does not divide.
    pub open spec fn normal_form(self) -> DecimalValue
        decreases (if self.unscaled < 0 { -self.unscaled } else { self.unscaled }),
    {
        if self.unscaled == 0 {
            DecimalValue { unscaled: 0, scale: 0 }
        } else if self.unscaled % 10 == 0 {
            DecimalValue { unscaled: self.unscaled / 10, scale: self.scale - 1 }.normal_form()
        } else {
            self
        }
    }
}

/// What `bigdecimal` reads from a text: the unscaled integer and the scale,
/// or nothing where it rejects the text.
pub uninterp spec fn parsed_decimal(text: Seq<char>) -> Option<(int, int)>;

/// The text that `bigdecimal` writes for the number with the given unscaled
/// integer and scale.
pub uninterp spec fn rendered_decimal(unscaled: int, scale: int) -> Seq<char>;

#[verifier::external_type_specification]
#[verifier::external_body]
pub struct ExParseBigDecimalError(ParseBigDecimalError);

/// An exact signed decimal number of arbitrary precision.
#[derive(Debug)]
pub struct Decimal {
    sign: Sign,
    digits: Vec<u8>,
    scale: i64,
}

impl View for Decimal {
    type V = DecimalValue;

    closed spec fn view(&self) -> DecimalValue {
        DecimalValue {
            unscaled: match self.sign {
                Sign::Minus => -digits_value(self.digits@),
                Sign::NoSign => 0,
                Sign::Plus => digits_value(self.digits@),
            },
            scale: self.scale as int,
        }
    }
}

/// Calls `BigDecimal::from_str` (through `str::parse`), and splits the result
/// with `into_bigint_and_exponent` and `BigInt::to_radix_be`. The result is
/// `Ok` exactly on the texts that `bigdecimal` accepts, and then holds the
/// unscaled integer and scale that it read. The empty text is not accepted.
#[verifier::external_body]
fn parse_big_decimal(text: &str) -> (parsed: Result<Decimal, ParseBigDecimalError>)
    ensures
        match parsed {
            Ok(d) => d.wf() && parsed_decimal(text@) == Some((d@.unscaled, d@.scale)),
            Err(_) => parsed_decimal(text@).is_none(),
        },
        text@.len() == 0 ==> parsed is Err,
{
    let (int_val, scale) = text.parse::<BigDecimal>()?.into_bigint_and_exponent();
    let (sign, digits) = int_val.to_radix_be(10);
    let sign = match sign {
        bigdecimal::num_bigint::Sign::Minus => Sign::Minus,
        bigdecimal::num_bigint::Sign::NoSign => Sign::NoSign,
        bigdecimal::num_bigint::Sign::Plus => Sign::Plus,
    };
    Ok(Decimal { sign, digits, scale })
}

/// Calls `ParseBigDecimalError`'s `to_string`. Nothing is claimed of the text.
#[verifier::external_body]
fn parse_error_text(err: &ParseBigDecimalError) -> (text: String) {
    err.to_string()
}

/// Builds the `BigDecimal` with `BigInt::from_radix_be` and `BigDecimal::new`
/// and calls its `to_string`. The result is the text that `bigdecimal` writes
/// for that unscaled integer and scale.
#[verifier::external_body]
fn render_big_decimal(d: &Decimal) -> (text: String)
    requires
        d.wf(),
    ensures
        text@ == rendered_decimal(d@.unscaled, d@.scale),
{
    let sign = match d.sign {
        Sign::Minus => bigdecimal::num_bigint::Sign::Minus,
        Sign::NoSign => bigdecimal::num_bigint::Sign::NoSign,
        Sign::Plus => bigdecimal::num_bigint::Sign::Plus,
    };
    let int_val = BigInt::from_radix_be(sign, &d.digits, 10).unwrap();
    BigDecimal::new(int_val, d.scale).to_string()
}

/// Calls `BigDecimal::normalized` on the number built with
/// `BigInt::from_radix_be` and `BigDecimal::new`. It drops every trailing zero
/// digit of a number other than zero and lowers the scale by one for each, and
/// turns zero into zero with scale zero. The scale must have room for as many
/// trailing zeros as the number has.
#[verifier::external_body]
fn normalize_big_decimal(d: &Decimal) -> (n: Decimal)
    requires
        d.wf(),
        d@.normalizable(),
    ensures
        n.wf(),
        n@ == d@.normal_form(),
{
    let sign = match d.sign {
        Sign::Minus => bigdecimal::num_bigint::Sign::Minus,
        Sign::NoSign => bigdecimal::num_bigint::Sign::NoSign,
        Sign::Plus => bigdecimal::num_bigint::Sign::Plus,
    };
    let int_val = BigInt::from_radix_be(sign, &d.digits, 10).unwrap();
    let (int_val, scale) = BigDecimal::new(int_val, d.scale).normalized().into_bigint_and_exponent();
    let (sign, digits) = int_val.to_radix_be(10);
    let sign = match sign {
        bigdecimal::num_bigint::Sign::Minus => Sign::Minus,
        bigdecimal::num_bigint::Sign::NoSign => Sign::NoSign,
        bigdecimal::num_bigint::Sign::Plus => Sign::Plus,
    };
    Decimal { sign, digits, scale }
}

/// A sequence of digits writes a number that is not negative.
pub proof fn lemma_digits_value_nonnegative(digits: Seq<u8>)
    ensures
        digits_value(digits) >= 0,
    decreases digits.len(),
{
    if digits.len() > 0 {
        lemma_digits_value_nonnegative(digits.drop_last());
    }
}

/// Digits that are all zero write zero.
pub proof fn lemma_zero_digits_value(digits: Seq<u8>)
    requires
        forall|i: int| 0 <= i < digits.len() ==> digits[i] == 0,
    ensures
        digits_value(digits) == 0,
    decreases digits.len(),
{
    if digits.len() > 0 {
        lemma_zero_digits_value(digits.drop_last());
    }
}

/// A number whose digits end in exactly `zeros` zeros is not zero, and its
/// normal form has a scale that is lower by `zeros`.
pub proof fn lemma_normal_form_scale(digits: Seq<u8>, negative: bool, scale: int, zeros: nat)
    requires
        zeros < digits.len(),
        forall|i: int| 0 <= i < digits.len() ==> digits[i] < 10,
        forall|i: int| digits.len() - zeros <= i < digits.len() ==> digits[i] == 0,
        digits[digits.len() - 1 - zeros] != 0,
    ensures
        ({
            let magnitude = digits_value(digits);
            let unscaled = if negative { -magnitude } else { magnitude };
            &&& magnitude > 0
            &&& (DecimalValue { unscaled, scale }).normal_form().scale == scale - zeros
        }),
    decreases zeros,
{
    let rest = digits.drop_last();
    lemma_digits_value_nonnegative(rest);
    if zeros > 0 {
        lemma_normal_form_scale(rest, negative, scale - 1, (zeros - 1) as nat);
    }
}

/// Written with its own scale, a number has its own unscaled integer.
pub proof fn lemma_aligned_own_scale(value: DecimalValue)
    ensures
        value.aligned(value.scale) == value.unscaled,
{
    let p = pow10((value.scale - value.scale) as nat);
    assert(p == 1);
    assert(value.unscaled * p == value.unscaled) by (nonlinear_arith)
        requires
            p == 1,
    ;
}

/// The normal form of a number stands for the same number, and its scale is
/// no larger unless the number is zero.
pub proof fn lemma_normal_form_same_number(value: DecimalValue)
    ensures
        value.normal_form().same_number(value),
        value.unscaled != 0 ==> value.normal_form().scale <= value.scale,
        value.unscaled != 0 ==> value.normal_form().unscaled % 10 != 0,
        value.unscaled == 0 ==> value.normal_form() == (DecimalValue { unscaled: 0, scale: 0 }),
    decreases (if value.unscaled < 0 { -value.unscaled } else { value.unscaled }),
{
    if value.unscaled == 0 {
        let zero = DecimalValue { unscaled: 0, scale: 0 };
        let scale = zero.common_scale(value);
        assert(zero.aligned(scale) == 0 && value.aligned(scale) == 0) by (nonlinear_arith)
            requires
                zero.aligned(scale) == 0 * pow10((scale - 0) as nat),
                value.aligned(scale) == 0 * pow10((scale - value.scale) as nat),
        ;
    } else if value.unscaled % 10 == 0 {
        let tenth = DecimalValue { unscaled: value.unscaled / 10, scale: value.scale - 1 };
        lemma_normal_form_same_number(tenth);
        let normal = tenth.normal_form();
        let p = pow10((tenth.scale - normal.scale) as nat);
        assert(normal == value.normal_form());
        assert(normal.common_scale(tenth) == tenth.scale);
        assert(normal.common_scale(value) == value.scale);
        assert(pow10((value.scale - normal.scale) as nat) == 10 * p);
        lemma_aligned_own_scale(tenth);
        lemma_aligned_own_scale(value);
        assert(normal.aligned(tenth.scale) == normal.unscaled * p);
        assert(normal.unscaled * (10 * p) == 10 * (normal.unscaled * p)) by (nonlinear_arith);
        assert(normal.aligned(value.scale) == normal.unscaled * (10 * p));
    }
}

/// A power of ten is positive.
pub proof fn lemma_pow10_positive(n: nat)
    ensures
        pow10(n) > 0,
    decreases n,
{
    if n > 0 {
        lemma_pow10_positive((n - 1) as nat);
    }
}

/// Writing a number with a larger scale keeps its sign, and the opposite
/// number is written with the opposite integer.
pub proof fn lemma_aligned_sign(value: DecimalValue, scale: int)
    requires
        scale >= value.scale,
    ensures
        value.unscaled < 0 <==> value.aligned(scale) < 0,
        value.unscaled == 0 <==> value.aligned(scale) == 0,
        value.negated().aligned(scale) == -value.aligned(scale),
{
    let p = pow10((scale - value.scale) as nat);
    let u = value.unscaled;
    lemma_pow10_positive((scale - value.scale) as nat);
    assert((u < 0 <==> u * p < 0) && (u == 0 <==> u * p == 0) && (-u) * p == -(u * p)) by (nonlinear_arith)
        requires
            p > 0,
    ;
}

/// A number whose unscaled integer ten divides, and the same number written
/// with one digit less, compare alike with any number.
proof fn lemma_tenth_compares_alike(value: DecimalValue, other: DecimalValue)
    requires
        value.unscaled % 10 == 0,
    ensures
        (DecimalValue { unscaled: value.unscaled / 10, scale: value.scale - 1 }).same_number(other)
            <==> value.same_number(other),
{
    let tenth = DecimalValue { unscaled: value.unscaled / 10, scale: value.scale - 1 };
    if other.scale >= value.scale {
        let p = pow10((other.scale - value.scale) as nat);
        assert(pow10((other.scale - tenth.scale) as nat) == 10 * p);
        assert(tenth.unscaled * (10 * p) == value.unscaled * p) by (nonlinear_arith)
            requires
                tenth.unscaled * 10 == value.unscaled,
        ;
    } else {
        let q = pow10((tenth.scale - other.scale) as nat);
        assert(pow10((value.scale - other.scale) as nat) == 10 * q);
        lemma_aligned_own_scale(tenth);
        lemma_aligned_own_scale(value);
        assert(other.unscaled * (10 * q) == 10 * (other.unscaled * q)) by (nonlinear_arith);
    }
}

/// A number and its normal form compare alike with any number.
pub proof fn lemma_normal_form_compares_alike(value: DecimalValue, other: DecimalValue)
    ensures
        value.normal_form().same_number(other) <==> value.same_number(other),
    decreases (if value.unscaled < 0 { -value.unscaled } else { value.unscaled }),
{
    if value.unscaled == 0 {
        let zero = DecimalValue { unscaled: 0, scale: 0 };
        lemma_aligned_sign(value, value.common_scale(other));
        lemma_aligned_sign(other, value.common_scale(other));
        lemma_aligned_sign(zero, zero.common_scale(other));
        lemma_aligned_sign(other, zero.common_scale(other));
    } else if value.unscaled % 10 == 0 {
        let tenth = DecimalValue { unscaled: value.unscaled / 10, scale: value.scale - 1 };
        lemma_tenth_compares_alike(value, other);
        lemma_normal_form_compares_alike(tenth, other);
    }
}

/// Of two numbers in normal form that are the same number, the one with the
/// smaller scale does not exist: their scales are equal.
proof fn lemma_normal_scales_equal(low: DecimalValue, high: DecimalValue)
    requires
        low.is_normal(),
        high.is_normal(),
        low.same_number(high),
        low.scale <= high.scale,
    ensures
        low.scale == high.scale,
{
    if low.scale < high.scale {
        let n = (high.scale - low.scale) as nat;
        let k = pow10((n - 1) as nat);
        assert(pow10(n) == 10 * k);
        lemma_aligned_own_scale(high);
        lemma_aligned_sign(low, high.scale);
        let m = low.unscaled * k;
        assert(low.unscaled * (10 * k) == 10 * m) by (nonlinear_arith)
            requires
                m == low.unscaled * k,
        ;
        assert((10 * m) % 10 == 0);
    }
}

/// Two numbers are the same number exactly where their normal forms are
/// equal.
pub proof fn lemma_normal_form_canonical(a: DecimalValue, b: DecimalValue)
    ensures
        a.same_number(b) <==> a.normal_form() == b.normal_form(),
        a.normal_form().is_normal(),
{
    let na = a.normal_form();
    let nb = b.normal_form();
    lemma_normal_form_compares_alike(a, b);
    lemma_normal_form_compares_alike(b, na);
    lemma_normal_form_same_number(a);
    lemma_normal_form_same_number(b);
    if nb.same_number(na) {
        if nb.scale <= na.scale {
            lemma_normal_scales_equal(nb, na);
        } else {
            lemma_normal_scales_equal(na, nb);
        }
        lemma_aligned_own_scale(na);
        lemma_aligned_own_scale(nb);
    }
}

impl Decimal {
    /// The representation is valid: there is at least one digit, each digit is
    /// below ten, and the sign is `NoSign` exactly for zero.
    pub closed spec fn wf(&self) -> bool {
        &&& self.digits@.len() >= 1
        &&& forall|i: int| 0 <= i < self.digits@.len() ==> #[trigger] self.digits@[i] < 10
        &&& (self.sign == Sign::NoSign <==> digits_value(self.digits@) == 0)
    }

    /// Reads a decimal number from its text. A text that is no decimal number,
    /// such as the empty text, is a validation failure.
    pub fn parse(text: &str) -> (parsed: Result<Decimal, AppError>)
        ensures
            text@.len() == 0 ==> parsed is Err,
            match parsed_decimal(text@) {
                Some(p) => match parsed {
                    Ok(d) => d.wf() && d@ == (DecimalValue { unscaled: p.0, scale: p.1 }),
                    Err(_) => false,
                },
                None => match parsed {
                    Ok(_) => false,
                    Err(e) => e@ == ErrorView::Business(
                        "invalid decimal number"@,
                        Classification::Validation,
                    ),
                },
            },
    {
        match parse_big_decimal(text) {
            Ok(d) => Ok(d),
            Err(_) => Err(AppError::bad_request_str("invalid decimal number")),
        }
    }

    /// Reads a decimal number from a text that the store returned. A text that
    /// is no decimal number, such as the empty text, is an internal failure.
    pub fn parse_stored(text: &str) -> (parsed: Result<Decimal, AppError>)
        ensures
            text@.len() == 0 ==> parsed is Err,
            match parsed_decimal(text@) {
                Some(p) => match parsed {
                    Ok(d) => d.wf() && d@ == (DecimalValue { unscaled: p.0, scale: p.1 }),
                    Err(_) => false,
                },
                None => match parsed {
                    Ok(_) => false,
                    Err(e) => e@ is Internal,
                },
            },
    {
        match parse_big_decimal(text) {
            Ok(d) => Ok(d),
            Err(err) => Err(AppError::internal_s(parse_error_text(&err))),
        }
    }

    /// Writes the number as text.
    pub fn render(&self) -> (text: String)
        requires
            self.wf(),
        ensures
            text@ == rendered_decimal(self@.unscaled, self@.scale),
    {
        render_big_decimal(self)
    }

    /// The sign of the number.
    pub fn sign(&self) -> (sign: Sign)
        requires
            self.wf(),
        ensures
            sign == self@.sign(),
    {
        proof {
            lemma_digits_value_nonnegative(self.digits@);
        }
        self.sign
    }

    /// The number with the opposite sign, at the same scale.
    pub fn neg(&self) -> (negated: Decimal)
        requires
            self.wf(),
        ensures
            negated.wf(),
            negated@ == self@.negated(),
    {
        let sign = match self.sign {
            Sign::Minus => Sign::Plus,
            Sign::NoSign => Sign::NoSign,
            Sign::Plus => Sign::Minus,
        };
        let digits = self.digits.clone();
        assert(digits@ =~= self.digits@);
        Decimal { sign, digits, scale: self.scale }
    }

    /// The same number without insignificant trailing zeros, or nothing where
    /// the scale has no room for it.
    pub fn normalized(&self) -> (normal: Option<Decimal>)
        requires
            self.wf(),
        ensures
            match normal {
                Some(n) => self@.normalizable() && n.wf() && n@ == self@.normal_form(),
                None => !self@.normalizable(),
            },
    {
        if self.sign == Sign::NoSign {
            return Some(normalize_big_decimal(self));
        }
        let len: usize = self.digits.len();
        let mut zeros: usize = 0;
        while self.digits[len - 1 - zeros] == 0
            invariant
                self.wf(),
                self.sign != Sign::NoSign,
                len == self.digits@.len(),
                zeros < len,
                forall|i: int| len - zeros <= i < len ==> self.digits@[i] == 0,
            decreases len - zeros,
        {
            proof {
                if zeros + 1 == len {
                    lemma_zero_digits_value(self.digits@);
                }
            }
            zeros = zeros + 1;
        }
        proof {
            lemma_normal_form_scale(
                self.digits@,
                self.sign == Sign::Minus,
                self.scale as int,
                zeros as nat,
            );
        }
        if self.scale as i128 - zeros as i128 >= i64::MIN as i128 {
            Some(normalize_big_decimal(self))
        } else {
            None
        }
    }
}

} // verus!
