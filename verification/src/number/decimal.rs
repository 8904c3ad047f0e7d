//! The decimal backend.
//!
//! Every operation that needs real decimal arithmetic is carried out by the
//! `fastnum` crate on 128-bit decimals.  The items of this module are the only
//! ones whose contracts are taken on trust: each one builds fresh backend
//! decimals from the plain fields of a [`Number`], makes one backend call and
//! reads the plain fields of the result back.
//!
//! A fresh decimal carries no extra-precision digits, a context without
//! signal traps and no signal flag but the one for a subnormal operand,
//! which follows from its fields; so a backend result depends on the plain
//! fields of the operands alone.  Where the backend traps a condition through
//! a constant of its own, or reckons in fewer bits than an operand may need,
//! the `requires` of the item leaves those operands out, and the callers in
//! [`Number`] test for them before the call.

use vstd::prelude::*;
use vstd::string::StringSliceAdditionalSpecFns;
use core::num::FpCategory;
use fastnum::bint::UInt;
use fastnum::decimal::{Context, Decimal, Sign};
use fastnum::decimal::ParseError as Rejection;
use crate::number::{Number, ParseError};

verus! {

/// `fastnum::decimal::Decimal`, the backend's signed decimal.
#[verifier::external_type_specification]
#[verifier::external_body]
pub struct ExDecimal<const N: usize>(Decimal<N>);

/// The number that the backend parses from a text, where it accepts the text.
pub uninterp spec fn parsed(text: Seq<char>) -> Option<Number>;

/// The reason for which the backend rejects a text.
pub uninterp spec fn parse_failure(text: Seq<char>) -> ParseError;

/// The text that the backend prints for a number.
pub uninterp spec fn rendered(n: Number) -> Seq<char>;

/// The backend's sum.
pub uninterp spec fn sum_of(a: Number, b: Number) -> Number;

/// The backend's difference.
pub uninterp spec fn difference_of(a: Number, b: Number) -> Number;

/// The backend's product.
pub uninterp spec fn product_of(a: Number, b: Number) -> Number;

/// The backend's quotient.
pub uninterp spec fn quotient_of(a: Number, b: Number) -> Number;

/// The backend's square root.
pub uninterp spec fn root_of(a: Number) -> Number;

/// The backend's `sqrt(a² + b²)`.
pub uninterp spec fn hypotenuse_of(a: Number, b: Number) -> Number;

/// The backend's sine.
pub uninterp spec fn sine_of(a: Number) -> Number;

/// The backend's cosine.
pub uninterp spec fn cosine_of(a: Number) -> Number;

/// The backend's sine and cosine computed together.
pub uninterp spec fn sine_cosine_of(a: Number) -> (Number, Number);

/// The backend's arcsine.
pub uninterp spec fn arcsine_of(a: Number) -> Number;

/// The backend's arccosine.
pub uninterp spec fn arccosine_of(a: Number) -> Number;

/// The backend's arctangent.
pub uninterp spec fn arctangent_of(a: Number) -> Number;

/// The backend's tangent.
pub uninterp spec fn tangent_of(a: Number) -> Number;

/// The backend's angle of the point `(x, y)`.
pub uninterp spec fn angle_of(y: Number, x: Number) -> Number;

/// Builds the backend decimal that has the fields of `n`, with no signal
/// raised and no trap set.  `Decimal::from_parts` keeps coefficient, scale
/// and sign as given; the special values come from the backend's constants.
#[verifier::external_body]
fn lower(n: &Number) -> Decimal<2> {
    let ctx = Context::default().without_traps();
    match *n {
        Number::Finite { negative: false, digits, scale } =>
            Decimal::from_parts(UInt::from_u128(digits).unwrap(), -(scale as i32), Sign::Plus, ctx),
        Number::Finite { negative: true, digits, scale } =>
            Decimal::from_parts(UInt::from_u128(digits).unwrap(), -(scale as i32), Sign::Minus, ctx),
        Number::Infinite { negative: false } => Decimal::INFINITY.with_ctx(ctx),
        Number::Infinite { negative: true } => Decimal::NEG_INFINITY.with_ctx(ctx),
        Number::NotANumber { negative: false } => Decimal::NAN.with_ctx(ctx),
        Number::NotANumber { negative: true } => Decimal::NAN.with_ctx(ctx).neg(),
    }
}

/// Reads class, sign, coefficient and scale of a backend decimal
/// (`Decimal::classify`, `is_sign_negative`, `digits`,
/// `fractional_digits_count`).
#[verifier::external_body]
fn lift(d: Decimal<2>) -> Number {
    let negative = d.is_sign_negative();
    match d.classify() {
        FpCategory::Nan => Number::NotANumber { negative },
        FpCategory::Infinite => Number::Infinite { negative },
        FpCategory::Zero | FpCategory::Subnormal | FpCategory::Normal => Number::Finite {
            negative,
            digits: d.digits().to_u128().unwrap(),
            scale: d.fractional_digits_count(),
        },
    }
}

/// `Decimal::from_str`: parses a decimal literal.  The backend accepts a text
/// or rejects it; what it makes of an accepted text is named [`parsed`], and
/// its reason to reject one [`parse_failure`].  It counts the digits and
/// reckons the exponent in 32 bits: the text must not be one that
/// [`Number::beyond_backend`] describes.
#[verifier::external_body]
pub(crate) fn parse(text: &str) -> (r: Result<Number, ParseError>)
    requires
        Number::beyond_backend(text.spec_bytes()).is_none(),
    ensures
        match r {
            Ok(n) => parsed(text@) == Some(n),
            Err(e) => parsed(text@).is_none() && e == parse_failure(text@),
        },
{
    match Decimal::<2>::from_str(text, Context::default().without_traps()) {
        Ok(d) => Ok(lift(d)),
        Err(Rejection::Empty) => Err(ParseError::Empty),
        Err(Rejection::InvalidLiteral) => Err(ParseError::InvalidLiteral),
        Err(Rejection::PosOverflow) => Err(ParseError::PosOverflow),
        Err(Rejection::NegOverflow) => Err(ParseError::NegOverflow),
        Err(Rejection::ExponentOverflow) => Err(ParseError::ExponentOverflow),
        Err(Rejection::Signed) => Err(ParseError::Unknown),
        Err(Rejection::InvalidRadix) => Err(ParseError::Unknown),
        Err(Rejection::Unknown) => Err(ParseError::Unknown),
    }
}

/// The backend's `Display` for a decimal.
#[verifier::external_body]
pub(crate) fn render(n: &Number) -> (r: String)
    ensures
        r@ == rendered(*n),
{
    format!("{}", lower(n))
}

/// `Decimal::add`.  The backend writes both operands at the larger of the
/// two scales and adds the signed coefficients: the sum is exact while the
/// operands and the sum fit the coefficient, and adding a zero to a finite
/// number changes at most its scale.  It reckons the distance between the
/// scales of two operands that are not zero in 16 bits: the pair must not be
/// out of reach.
#[verifier::external_body]
pub(crate) fn add(a: &Number, b: &Number) -> (r: Number)
    requires
        !a.out_of_reach(*b),
    ensures
        r == sum_of(*a, *b),
        a.adds_exactly(*b) ==> r == a.exact_sum(*b),
        a.is_finite() && b.is_zero() ==> r.is_finite() && r.same_value(*a),
        a.is_zero() && b.is_finite() ==> r.is_finite() && r.same_value(*b),
{
    lift(lower(a).add(lower(b)))
}

/// `Decimal::sub`.  The backend subtracts as it adds the negated right
/// operand: exactly while the operands and the result fit the coefficient at
/// the larger of the two scales, and subtracting a zero changes at most the
/// scale.  As for the sum, the pair must not be out of reach.
#[verifier::external_body]
pub(crate) fn sub(a: &Number, b: &Number) -> (r: Number)
    requires
        !a.out_of_reach(*b),
    ensures
        r == difference_of(*a, *b),
        a.adds_exactly(b.negated()) ==> r == a.exact_sum(b.negated()),
        a.is_finite() && b.is_zero() ==> r.is_finite() && r.same_value(*a),
{
    lift(lower(a).sub(lower(b)))
}

/// `Decimal::mul`.  Between finite operands the backend multiplies the
/// coefficients and adds the scales; the product is exact while the
/// coefficient fits 128 bits and the scale fits 16.  A zero times a finite
/// number is a zero at the sum of the scales, which the backend brings to
/// the nearest scale of 16 bits where it does not fit.
#[verifier::external_body]
pub(crate) fn mul(a: &Number, b: &Number) -> (r: Number)
    ensures
        r == product_of(*a, *b),
        a.multiplies_exactly(*b) ==> r == a.exact_product(*b),
        a.is_finite() && b.is_finite() && (a.is_zero() || b.is_zero()) ==> r == a.zero_product(*b),
{
    lift(lower(a).mul(lower(b)))
}

/// `Decimal::div`.  Without traps a division by zero gives no failure: the
/// backend answers any dividend but a not-a-number over a zero with an
/// infinity, negative where the signs differ.  It hands the dividend back
/// where the divisor is the one of scale zero.  Between finite operands that
/// are not zero it divides the coefficients and subtracts the scales; the
/// quotient is exact where the division leaves no remainder and the scale
/// fits 16 bits.
#[verifier::external_body]
pub(crate) fn div(a: &Number, b: &Number) -> (r: Number)
    ensures
        r == quotient_of(*a, *b),
        b == Number::one_value() && !a.is_nan() ==> r == *a,
        b.is_zero() && !a.is_nan() ==> r == a.unbounded_quotient(*b),
        a.divides_exactly(*b) ==> r == a.exact_quotient(*b),
{
    lift(lower(a).div(lower(b)))
}

/// `Decimal::sqrt`.  The backend hands a zero back as it is.
#[verifier::external_body]
pub(crate) fn sqrt(a: &Number) -> (r: Number)
    ensures
        r == root_of(*a),
        a.is_zero() ==> r == *a,
{
    lift(lower(a).sqrt())
}

/// `Decimal::hypot`.  The backend squares both operands and adds the
/// squares, whose scales lie twice as far apart as those of the operands, up
/// to the digits that a square loses: the squares must be within reach.
#[verifier::external_body]
pub(crate) fn hypot(a: &Number, b: &Number) -> (r: Number)
    requires
        a.squares_within_reach(*b),
    ensures
        r == hypotenuse_of(*a, *b),
{
    lift(lower(a).hypot(lower(b)))
}

/// `Decimal::sin`.  The backend reduces the argument modulo two pi by
/// writing it with the 37 digits after the point that its two pi has, which
/// the coefficient has room for only below 34: the argument must be finite
/// and lie between minus 32 and 32.
#[verifier::external_body]
pub(crate) fn sin(a: &Number) -> (r: Number)
    requires
        a.in_angle_range(),
    ensures
        r == sine_of(*a),
{
    lift(lower(a).sin())
}

/// `Decimal::cos`.  The backend takes the sine of half pi less the argument,
/// and its own constant traps an invalid operation: the argument must be
/// finite, and lie between minus 32 and 32 so that the sine can be taken.
#[verifier::external_body]
pub(crate) fn cos(a: &Number) -> (r: Number)
    requires
        a.in_angle_range(),
    ensures
        r == cosine_of(*a),
{
    lift(lower(a).cos())
}

/// `Decimal::sin_cos`.  The backend takes the sine and derives a
/// non-negative cosine from it as the root of one less the square.  The
/// argument must be in the angle range, as for the sine, and the sine must
/// stay `10^-30` away from one and from minus one: nearer to them the square
/// can differ from one by less than a coefficient holds, and the backend's
/// root does not take such a difference.
#[verifier::external_body]
pub(crate) fn sin_cos(a: &Number) -> (r: (Number, Number))
    requires
        a.cosine_within_reach(),
    ensures
        r == sine_cosine_of(*a),
{
    let (s, c) = lower(a).sin_cos();
    (lift(s), lift(c))
}

/// `Decimal::asin`.
#[verifier::external_body]
pub(crate) fn asin(a: &Number) -> (r: Number)
    ensures
        r == arcsine_of(*a),
{
    lift(lower(a).asin())
}

/// `Decimal::acos`.  The backend subtracts the arcsine from one of its own
/// constants, which traps an invalid operation: the argument must be finite
/// and lie between minus one and one.
#[verifier::external_body]
pub(crate) fn acos(a: &Number) -> (r: Number)
    requires
        a.in_unit_range(),
    ensures
        r == arccosine_of(*a),
{
    lift(lower(a).acos())
}

/// `Decimal::atan`.
#[verifier::external_body]
pub(crate) fn atan(a: &Number) -> (r: Number)
    ensures
        r == arctangent_of(*a),
{
    lift(lower(a).atan())
}

/// `Decimal::tan`.  The backend divides its sine by its cosine before either
/// is rounded, and its cosine carries the trap of a division by zero: the
/// argument must be in the angle range, and its cosine, once rounded, must
/// have a coefficient of two or more, so that the cosine was not zero before
/// the last digit was rounded.
#[verifier::external_body]
pub(crate) fn tan(a: &Number) -> (r: Number)
    requires
        a.tangent_within_reach(),
    ensures
        r == tangent_of(*a),
{
    lift(lower(a).tan())
}

/// `Decimal::atan2`, with `y` first.  Right of the vertical axis the backend
/// takes the arctangent of `y / x`; on the axis it answers half of pi above
/// the origin, minus that below it and not-a-number at the origin.  Left of
/// the axis it adds its own pi to the arctangent or subtracts it, and that
/// constant traps the invalid arctangent of a quotient beyond one: there
/// the quotient, once rounded, must lie strictly between minus one and one.
#[verifier::external_body]
pub(crate) fn atan2(y: &Number, x: &Number) -> (r: Number)
    requires
        y.angle_within_reach(*x),
    ensures
        r == angle_of(*y, *x),
        x.on_axis() && Number::zero_value().below(*y) ==> r == Number::frac_pi_2_value(),
        x.on_axis() && y.below(Number::zero_value()) ==> r == Number::frac_pi_2_value().negated(),
        x.on_axis() && y.on_axis() ==> r.is_nan(),
{
    lift(lower(y).atan2(lower(x)))
}

/// `Decimal::eq`: not-a-number equals nothing, the two zeros are equal, and
/// other numbers are equal where sign, class and numeric value agree.
#[verifier::external_body]
pub(crate) fn eq(a: &Number, b: &Number) -> (r: bool)
    ensures
        r == a.same_value(*b),
{
    lower(a).eq(&lower(b))
}

/// `Decimal::lt`: the backend orders by sign first, then by magnitude, with
/// not-a-number above infinity above every finite magnitude.
#[verifier::external_body]
pub(crate) fn lt(a: &Number, b: &Number) -> (r: bool)
    ensures
        r == a.below(*b),
{
    lower(a).lt(&lower(b))
}

} // verus!
