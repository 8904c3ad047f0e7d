//! Exact decimal scalars.
//!
//! A [`Number`] is a decimal in plain fields: sign, 128-bit coefficient and
//! scale, or one of the special values.  Sign handling, classification and
//! the guards that keep every operation total are verified here; the
//! arithmetic itself is the backend's (see [`decimal`]).  Where operands
//! add, multiply or divide without rounding, the result is stated exactly;
//! a rounded result is stated as the backend's.

use vstd::prelude::*;
use vstd::string::StringSliceAdditionalSpecFns;

pub mod decimal;
pub mod hash;
pub mod laws;
pub mod ops;
pub mod order;
pub mod text;
pub mod traits;
pub mod turn;

pub use hash::HashKey;
pub use traits::{Abs, AbsSub, ApproxEq, Hyp, One, Sqrt, Trig, Zero};

verus! {

/// Ten to the power `n`.
pub open spec fn pow10(n: nat) -> nat
    decreases n,
{
    if n == 0 {
        1
    } else {
        10 * pow10((n - 1) as nat)
    }
}

/// Why a text is no decimal literal.
#[derive(Clone, Copy, Debug, PartialEq, Eq, Structural)]
pub enum ParseError {
    /// The text, or the part after the sign or the exponent mark, is empty.
    Empty,
    /// A character that cannot stand where it does.
    InvalidLiteral,
    /// Too many digits for the coefficient of a positive number.
    PosOverflow,
    /// Too many digits for the coefficient of a negative number.
    NegOverflow,
    /// The exponent does not fit.
    ExponentOverflow,
    /// Any other failure of the backend.
    Unknown,
}

/// A decimal scalar.
///
/// A finite number stands for `digits / 10^scale`, negated where `negative`
/// is set; the zeros and the special values carry a sign too.
#[derive(Clone, Copy, Debug)]
pub enum Number {
    Finite { negative: bool, digits: u128, scale: i16 },
    Infinite { negative: bool },
    NotANumber { negative: bool },
}

impl Number {
    /// The sign bit.
    pub open spec fn sign_bit(self) -> bool {
        match self {
            Number::Finite { negative, .. } => negative,
            Number::Infinite { negative } => negative,
            Number::NotANumber { negative } => negative,
        }
    }

    /// The coefficient of a finite number, zero for the special values.
    pub open spec fn coefficient(self) -> nat {
        match self {
            Number::Finite { digits, .. } => digits as nat,
            _ => 0,
        }
    }

    /// The scale of a finite number, zero for the special values.
    pub open spec fn scale_of(self) -> int {
        match self {
            Number::Finite { scale, .. } => scale as int,
            _ => 0,
        }
    }

    pub open spec fn is_finite(self) -> bool {
        self is Finite
    }

    pub open spec fn is_infinite(self) -> bool {
        self is Infinite
    }

    pub open spec fn is_nan(self) -> bool {
        self is NotANumber
    }

    /// A finite number with coefficient zero, of either sign and any scale.
    pub open spec fn is_zero(self) -> bool {
        self is Finite && self.coefficient() == 0
    }

    /// The coefficient that the number has once it is written with `scale`
    /// digits after the point; meant for scales not below its own.
    pub open spec fn aligned(self, scale: int) -> nat {
        self.coefficient() * pow10((scale - self.scale_of()) as nat)
    }

    /// The larger of the two scales.
    pub open spec fn common_scale(self, other: Number) -> int {
        if self.scale_of() >= other.scale_of() {
            self.scale_of()
        } else {
            other.scale_of()
        }
    }

    /// Numeric equality: what `==` computes.  Not-a-number equals nothing,
    /// not even itself; the two zeros are equal; infinities are equal to
    /// themselves; finite numbers are equal where they have one sign and
    /// one value.
    pub open spec fn same_value(self, other: Number) -> bool {
        match (self, other) {
            (Number::Finite { .. }, Number::Finite { .. }) => {
                ||| (self.coefficient() == 0 && other.coefficient() == 0)
                ||| (self.sign_bit() == other.sign_bit() && self.aligned(self.common_scale(other))
                    == other.aligned(self.common_scale(other)))
            },
            (Number::Infinite { negative: a }, Number::Infinite { negative: b }) => a == b,
            _ => false,
        }
    }

    /// Order of magnitudes: zero, then the finite values by size, then
    /// infinity, then not-a-number.
    pub open spec fn smaller_magnitude(self, other: Number) -> bool {
        match (self, other) {
            (Number::NotANumber { .. }, _) => false,
            (_, Number::NotANumber { .. }) => true,
            (Number::Infinite { .. }, _) => false,
            (_, Number::Infinite { .. }) => true,
            _ => self.aligned(self.common_scale(other)) < other.aligned(self.common_scale(other)),
        }
    }

    /// The strict order: what `<` computes.  A number with the sign bit set
    /// comes before one without, whatever they are; two numbers of one sign
    /// are ordered by magnitude.
    pub open spec fn below(self, other: Number) -> bool {
        if self.sign_bit() != other.sign_bit() {
            self.sign_bit()
        } else if self.sign_bit() {
            other.smaller_magnitude(self)
        } else {
            self.smaller_magnitude(other)
        }
    }

    /// The number with the sign bit flipped.
    pub open spec fn negated(self) -> Number {
        match self {
            Number::Finite { negative, digits, scale } => Number::Finite { negative: !negative, digits, scale },
            Number::Infinite { negative } => Number::Infinite { negative: !negative },
            Number::NotANumber { negative } => Number::NotANumber { negative: !negative },
        }
    }

    /// The number with the sign bit cleared; a not-a-number keeps its sign.
    pub open spec fn magnitude(self) -> Number {
        match self {
            Number::Finite { digits, scale, .. } => Number::Finite { negative: false, digits, scale },
            Number::Infinite { .. } => Number::Infinite { negative: false },
            Number::NotANumber { negative } => Number::NotANumber { negative },
        }
    }

    /// The coefficient with its sign.
    pub open spec fn signed_coefficient(self) -> int {
        if self.sign_bit() {
            -(self.coefficient() as int)
        } else {
            self.coefficient() as int
        }
    }

    /// The aligned coefficient with its sign.
    pub open spec fn signed_aligned(self, scale: int) -> int {
        if self.sign_bit() {
            -(self.aligned(scale) as int)
        } else {
            self.aligned(scale) as int
        }
    }

    /// Two finite numbers that are not zero and whose scales lie more than
    /// 32767 places apart.  The backend cannot align such a pair; the
    /// operand of smaller scale is then so much the greater that the other
    /// lies far below its last digit.
    pub open spec fn out_of_reach(self, other: Number) -> bool {
        &&& self is Finite
        &&& other is Finite
        &&& self.coefficient() != 0
        &&& other.coefficient() != 0
        &&& (self.scale_of() - other.scale_of() > i16::MAX as int || other.scale_of() - self.scale_of()
            > i16::MAX as int)
    }

    /// Of two finite numbers the one of smaller scale, the first on a tie.
    pub open spec fn dominant(self, other: Number) -> Number {
        if self.scale_of() <= other.scale_of() {
            self
        } else {
            other
        }
    }

    /// Both are finite, each coefficient fits once it is written at the
    /// larger of the two scales, and so does the sum of the signed
    /// coefficients.
    pub open spec fn adds_exactly(self, other: Number) -> bool {
        let scale = self.common_scale(other);
        &&& self is Finite
        &&& other is Finite
        &&& self.aligned(scale) <= u128::MAX as nat
        &&& other.aligned(scale) <= u128::MAX as nat
        &&& -(u128::MAX as int) <= self.signed_aligned(scale) + other.signed_aligned(scale) <= u128::MAX as int
    }

    /// The exact sum, at the larger of the two scales.  A zero sum is
    /// negative only where both operands are.
    pub open spec fn exact_sum(self, other: Number) -> Number {
        let scale = self.common_scale(other);
        let sum = self.signed_aligned(scale) + other.signed_aligned(scale);
        Number::Finite {
            negative: sum < 0 || (sum == 0 && self.sign_bit() && other.sign_bit()),
            digits: (if sum < 0 { -sum } else { sum }) as u128,
            scale: scale as i16,
        }
    }

    /// Both are finite, the product of the coefficients fits the coefficient
    /// and the sum of the scales fits the scale.
    pub open spec fn multiplies_exactly(self, other: Number) -> bool {
        &&& self is Finite
        &&& other is Finite
        &&& self.coefficient() * other.coefficient() <= u128::MAX as nat
        &&& i16::MIN as int <= self.scale_of() + other.scale_of() <= i16::MAX as int
    }

    /// The exact product.
    pub open spec fn exact_product(self, other: Number) -> Number {
        Number::Finite {
            negative: self.sign_bit() != other.sign_bit(),
            digits: (self.coefficient() * other.coefficient()) as u128,
            scale: (self.scale_of() + other.scale_of()) as i16,
        }
    }

    /// Both are finite and not zero, the divisor's coefficient divides the
    /// dividend's, and the difference of the scales fits the scale.
    pub open spec fn divides_exactly(self, other: Number) -> bool {
        &&& self is Finite
        &&& other is Finite
        &&& self.coefficient() != 0
        &&& other.coefficient() != 0
        &&& self.coefficient() % other.coefficient() == 0
        &&& i16::MIN as int <= self.scale_of() - other.scale_of() <= i16::MAX as int
    }

    /// The exact quotient.
    pub open spec fn exact_quotient(self, other: Number) -> Number {
        Number::Finite {
            negative: self.sign_bit() != other.sign_bit(),
            digits: (self.coefficient() / other.coefficient()) as u128,
            scale: (self.scale_of() - other.scale_of()) as i16,
        }
    }

    /// The integer `n` as a number of scale zero.
    pub open spec fn whole(n: int) -> Number {
        Number::Finite { negative: n < 0, digits: (if n < 0 { -n } else { n }) as u128, scale: 0 }
    }

    pub open spec fn zero_value() -> Number {
        Number::whole(0)
    }

    pub open spec fn one_value() -> Number {
        Number::whole(1)
    }

    pub open spec fn two_value() -> Number {
        Number::whole(2)
    }

    pub open spec fn half_value() -> Number {
        Number::Finite { negative: false, digits: 5, scale: 1 }
    }

    pub open spec fn quarter_value() -> Number {
        Number::Finite { negative: false, digits: 25, scale: 2 }
    }

    /// The difference between one and the next larger number: `10^-38`.
    pub open spec fn epsilon_value() -> Number {
        Number::Finite { negative: false, digits: 1, scale: 38 }
    }

    pub open spec fn infinity_value() -> Number {
        Number::Infinite { negative: false }
    }

    pub open spec fn nan_value() -> Number {
        Number::NotANumber { negative: false }
    }

    /// Pi to 39 digits.
    pub open spec fn pi_value() -> Number {
        Number::Finite { negative: false, digits: 314159265358979323846264338327950288420, scale: 38 }
    }

    /// One over pi.
    pub open spec fn frac_1_pi_value() -> Number {
        Number::Finite { negative: false, digits: 31830988618379067153776752674502872407, scale: 38 }
    }

    /// Two over pi.
    pub open spec fn frac_2_pi_value() -> Number {
        Number::Finite { negative: false, digits: 63661977236758134307553505349005744814, scale: 38 }
    }

    /// Half of pi.
    pub open spec fn frac_pi_2_value() -> Number {
        Number::Finite { negative: false, digits: 157079632679489661923132169163975144210, scale: 38 }
    }

    /// A third of pi.
    pub open spec fn frac_pi_3_value() -> Number {
        Number::Finite { negative: false, digits: 104719755119659774615421446109316762807, scale: 38 }
    }

    /// A quarter of pi.
    pub open spec fn frac_pi_4_value() -> Number {
        Number::Finite { negative: false, digits: 78539816339744830961566084581987572105, scale: 38 }
    }

    /// Finite and between minus one and one: where arcsine and arccosine are
    /// defined.
    pub open spec fn in_unit_range(self) -> bool {
        &&& self is Finite
        &&& !self.below(Number::whole(-1))
        &&& !Number::one_value().below(self)
    }

    /// Finite and between minus 32 and 32, which is a little over five
    /// turns either way: the arguments that the backend can reduce modulo two
    /// pi.
    pub open spec fn in_angle_range(self) -> bool {
        &&& self is Finite
        &&& !self.below(Number::whole(-32))
        &&& !Number::whole(32).below(self)
    }

    /// The sum: exact where the operands add exactly, the dominant operand
    /// of a pair out of the backend's reach, and otherwise the backend's
    /// rounded sum, see [`decimal::add`].
    pub open spec fn plus(self, rhs: Number) -> Number {
        if self.adds_exactly(rhs) {
            self.exact_sum(rhs)
        } else if self.out_of_reach(rhs) {
            self.dominant(rhs)
        } else {
            decimal::sum_of(self, rhs)
        }
    }

    /// The difference: exact where `self` and the negated `rhs` add
    /// exactly, the dominant one of the two where the pair is out of the
    /// backend's reach, and otherwise the backend's rounded difference, see
    /// [`decimal::sub`].
    pub open spec fn minus(self, rhs: Number) -> Number {
        if self.adds_exactly(rhs.negated()) {
            self.exact_sum(rhs.negated())
        } else if self.out_of_reach(rhs) {
            self.dominant(rhs.negated())
        } else {
            decimal::difference_of(self, rhs)
        }
    }

    /// The product of two finite numbers of which one is zero: a zero at
    /// the sum of the scales, or at the nearest scale that a number has.
    pub open spec fn zero_product(self, rhs: Number) -> Number {
        let scale = self.scale_of() + rhs.scale_of();
        Number::Finite {
            negative: self.sign_bit() != rhs.sign_bit(),
            digits: 0,
            scale: if scale < i16::MIN as int {
                i16::MIN
            } else if scale > i16::MAX as int {
                i16::MAX
            } else {
                scale as i16
            },
        }
    }

    /// The product: exact where the operands multiply exactly, a zero where
    /// one of two finite operands is zero, and otherwise the backend's
    /// rounded product, see [`decimal::mul`].
    pub open spec fn times(self, rhs: Number) -> Number {
        if self.multiplies_exactly(rhs) {
            self.exact_product(rhs)
        } else if self.is_finite() && rhs.is_finite() && (self.is_zero() || rhs.is_zero()) {
            self.zero_product(rhs)
        } else {
            decimal::product_of(self, rhs)
        }
    }

    /// The quotient: not-a-number of a zero over a zero, an infinity of
    /// anything else but a not-a-number over a zero, exact where the
    /// operands divide exactly, and otherwise the backend's rounded
    /// quotient, see [`decimal::div`].
    pub open spec fn over(self, rhs: Number) -> Number {
        if self.is_zero() && rhs.is_zero() {
            Number::nan_value()
        } else if rhs.is_zero() && !self.is_nan() {
            self.unbounded_quotient(rhs)
        } else if self.divides_exactly(rhs) {
            self.exact_quotient(rhs)
        } else {
            decimal::quotient_of(self, rhs)
        }
    }

    /// The infinity that a division by a zero gives: negative where the
    /// signs of dividend and divisor differ.
    pub open spec fn unbounded_quotient(self, rhs: Number) -> Number {
        Number::Infinite { negative: self.sign_bit() != rhs.sign_bit() }
    }

    /// The squares of two such numbers are within the backend's reach: one
    /// of them is zero or not finite, or the scales lie no more than 16000
    /// places apart.
    pub open spec fn squares_within_reach(self, other: Number) -> bool {
        ||| !(self is Finite)
        ||| !(other is Finite)
        ||| self.coefficient() == 0
        ||| other.coefficient() == 0
        ||| -16000 <= self.scale_of() - other.scale_of() <= 16000
    }

    /// The length of the diagonal, `sqrt(self^2 + other^2)`: the backend's
    /// where the squares are within its reach, and otherwise put together
    /// from product, sum and root.
    pub open spec fn hypotenuse(self, other: Number) -> Number {
        if self.squares_within_reach(other) {
            decimal::hypotenuse_of(self, other)
        } else {
            self.times(self).plus(other.times(other)).root()
        }
    }

    /// The square root: a zero is its own, and otherwise the backend's.
    pub open spec fn root(self) -> Number {
        if self.is_zero() {
            self
        } else {
            decimal::root_of(self)
        }
    }

    /// The sine of a finite angle: the backend's sine of the angle brought
    /// below one turn, see [`Number::reduced`].  Not-a-number of anything
    /// else.
    pub open spec fn sine(self) -> Number {
        if self is Finite {
            decimal::sine_of(self.reduced())
        } else {
            Number::nan_value()
        }
    }

    /// The cosine of a finite angle: the backend's cosine of the angle
    /// brought below one turn.  Not-a-number of anything else.
    pub open spec fn cosine(self) -> Number {
        if self is Finite {
            decimal::cosine_of(self.reduced())
        } else {
            Number::nan_value()
        }
    }

    /// The largest sine from which the backend derives a cosine: one less
    /// `10^-30`.
    pub open spec fn steepest_sine_value() -> Number {
        Number::Finite { negative: false, digits: 999999999999999999999999999999, scale: 30 }
    }

    /// The argument is in the angle range and its sine is no further from
    /// zero than [`Number::steepest_sine_value`]: where the backend derives
    /// the cosine from the sine.
    pub open spec fn cosine_within_reach(self) -> bool {
        &&& self.in_angle_range()
        &&& !Number::steepest_sine_value().below(decimal::sine_of(self).magnitude())
    }

    /// The sine and, derived from it as `sqrt(1 - sine^2)`, a cosine that is
    /// never negative: of a finite angle the backend's pair for the angle
    /// brought below one turn, where it derives one, and elsewhere the sine
    /// with the root taken from it here.  Not-a-number twice of anything
    /// else.
    pub open spec fn sine_cosine(self) -> (Number, Number) {
        if !(self is Finite) {
            (Number::nan_value(), Number::nan_value())
        } else if self.reduced().cosine_within_reach() {
            decimal::sine_cosine_of(self.reduced())
        } else {
            (self.sine(), Number::one_value().minus(self.sine().times(self.sine())).root())
        }
    }

    /// The argument is in the angle range and its cosine has a coefficient
    /// of two or more: where the backend takes the tangent.
    pub open spec fn tangent_within_reach(self) -> bool {
        &&& self.in_angle_range()
        &&& decimal::cosine_of(self) is Finite
        &&& decimal::cosine_of(self).coefficient() >= 2
    }

    /// The tangent: the backend's tangent of the angle brought below one
    /// turn, where it takes one, and elsewhere the sine over the cosine.
    pub open spec fn tangent(self) -> Number {
        if self.reduced().tangent_within_reach() {
            decimal::tangent_of(self.reduced())
        } else {
            self.sine().over(self.cosine())
        }
    }

    /// The arccosine: the backend's within the unit range, not-a-number
    /// outside.
    pub open spec fn arccosine(self) -> Number {
        if self.in_unit_range() {
            decimal::arccosine_of(self)
        } else {
            Number::nan_value()
        }
    }

    /// Neither below zero nor above it: the zero without a sign.
    pub open spec fn on_axis(self) -> bool {
        !self.below(Number::zero_value()) && !Number::zero_value().below(self)
    }

    /// Finite and strictly between minus one and one.
    pub open spec fn strictly_in_unit_range(self) -> bool {
        &&& self is Finite
        &&& Number::whole(-1).below(self)
        &&& self.below(Number::one_value())
    }

    /// Where the backend takes the angle of the point `(x, y)`, `self`
    /// being `y`: wherever `x` is not below zero, and left of the vertical
    /// axis where the backend's quotient `y / x` lies strictly between minus
    /// one and one.
    pub open spec fn angle_within_reach(self, x: Number) -> bool {
        x.below(Number::zero_value()) ==> decimal::quotient_of(self, x).strictly_in_unit_range()
    }

    /// The angle of the point `(x, y)`, where `self` is `y`: the backend's
    /// where it takes one.  Elsewhere the point lies left of the vertical
    /// axis, and the angle is the arctangent of `y / x` moved by half a
    /// turn, downwards below the horizontal axis and upwards on and above
    /// it.
    pub open spec fn arctangent2(self, x: Number) -> Number {
        let slope = decimal::arctangent_of(self.over(x));
        if self.angle_within_reach(x) {
            decimal::angle_of(self, x)
        } else if self.below(Number::zero_value()) {
            slope.minus(Number::pi_value())
        } else {
            slope.plus(Number::pi_value())
        }
    }

    /// Equal, or no further apart than [`Number::epsilon_value`].
    pub open spec fn close_to(self, rhs: Number) -> bool {
        ||| self.same_value(rhs)
        ||| !Number::epsilon_value().below(self.minus(rhs).magnitude())
    }

    pub fn zero() -> (r: Number)
        ensures
            r == Number::zero_value(),
    {
        Number::Finite { negative: false, digits: 0, scale: 0 }
    }

    pub fn one() -> (r: Number)
        ensures
            r == Number::one_value(),
    {
        Number::Finite { negative: false, digits: 1, scale: 0 }
    }

    pub fn two() -> (r: Number)
        ensures
            r == Number::two_value(),
    {
        Number::Finite { negative: false, digits: 2, scale: 0 }
    }

    pub fn half() -> (r: Number)
        ensures
            r == Number::half_value(),
    {
        Number::Finite { negative: false, digits: 5, scale: 1 }
    }

    pub fn quarter() -> (r: Number)
        ensures
            r == Number::quarter_value(),
    {
        Number::Finite { negative: false, digits: 25, scale: 2 }
    }

    pub fn epsilon() -> (r: Number)
        ensures
            r == Number::epsilon_value(),
    {
        Number::Finite { negative: false, digits: 1, scale: 38 }
    }

    pub fn infinity() -> (r: Number)
        ensures
            r == Number::infinity_value(),
    {
        Number::Infinite { negative: false }
    }

    pub fn nan() -> (r: Number)
        ensures
            r == Number::nan_value(),
    {
        Number::NotANumber { negative: false }
    }

    pub fn pi() -> (r: Number)
        ensures
            r == Number::pi_value(),
    {
        Number::Finite { negative: false, digits: 314159265358979323846264338327950288420, scale: 38 }
    }

    pub fn frac_1_pi() -> (r: Number)
        ensures
            r == Number::frac_1_pi_value(),
    {
        Number::Finite { negative: false, digits: 31830988618379067153776752674502872407, scale: 38 }
    }

    pub fn frac_2_pi() -> (r: Number)
        ensures
            r == Number::frac_2_pi_value(),
    {
        Number::Finite { negative: false, digits: 63661977236758134307553505349005744814, scale: 38 }
    }

    pub fn frac_pi_2() -> (r: Number)
        ensures
            r == Number::frac_pi_2_value(),
    {
        Number::Finite { negative: false, digits: 157079632679489661923132169163975144210, scale: 38 }
    }

    pub fn frac_pi_3() -> (r: Number)
        ensures
            r == Number::frac_pi_3_value(),
    {
        Number::Finite { negative: false, digits: 104719755119659774615421446109316762807, scale: 38 }
    }

    pub fn frac_pi_4() -> (r: Number)
        ensures
            r == Number::frac_pi_4_value(),
    {
        Number::Finite { negative: false, digits: 78539816339744830961566084581987572105, scale: 38 }
    }

    /// A whole number.
    pub fn from_i64(n: i64) -> (r: Number)
        ensures
            r == Number::whole(n as int),
    {
        if n < 0 {
            let wide: i128 = n as i128;
            Number::Finite { negative: true, digits: (-wide) as u128, scale: 0 }
        } else {
            Number::Finite { negative: false, digits: n as u128, scale: 0 }
        }
    }

    /// What parsing makes of a text: what the library makes of it where
    /// the backend cannot read it, see [`Number::beyond_backend`], or else
    /// the backend's number or failure.
    pub open spec fn reading(text: &str) -> Result<Number, ParseError> {
        match Number::beyond_backend(text.spec_bytes()) {
            Some(outcome) => outcome,
            None => match decimal::parsed(text@) {
                Some(n) => Ok(n),
                None => Err(decimal::parse_failure(text@)),
            },
        }
    }

    /// Parses a decimal literal: digits with an optional sign, point and
    /// exponent, or one of `nan`, `inf`, `infinity` in any case.
    pub fn parse(text: &str) -> (r: Result<Number, ParseError>)
        ensures
            r == Number::reading(text),
    {
        match Number::read_beyond_backend(text) {
            Some(outcome) => outcome,
            None => decimal::parse(text),
        }
    }

    /// Parses a text that is known to be a decimal literal.
    pub fn parse_unchecked(text: &str) -> (r: Number)
        requires
            Number::reading(text) is Ok,
        ensures
            Number::reading(text) == Ok::<Number, ParseError>(r),
    {
        match Number::parse(text) {
            Ok(n) => n,
            Err(_) => Number::nan(),
        }
    }

    /// Parses a text where it is a decimal literal.
    pub fn literal(text: &str) -> (r: Option<Number>)
        ensures
            r == match Number::reading(text) {
                Ok(n) => Some(n),
                Err(_) => None,
            },
    {
        if Number::parse(text).is_ok() {
            Some(Number::parse_unchecked(text))
        } else {
            None
        }
    }

    /// The number as a decimal literal.
    pub fn to_string(&self) -> (r: String)
        ensures
            r@ == decimal::rendered(*self),
    {
        decimal::render(self)
    }

    pub fn is_nan_number(&self) -> (r: bool)
        ensures
            r == self.is_nan(),
    {
        match self {
            Number::NotANumber { .. } => true,
            _ => false,
        }
    }

    pub fn is_infinite_number(&self) -> (r: bool)
        ensures
            r == self.is_infinite(),
    {
        match self {
            Number::Infinite { .. } => true,
            _ => false,
        }
    }

    pub fn is_finite_number(&self) -> (r: bool)
        ensures
            r == self.is_finite(),
    {
        match self {
            Number::Finite { .. } => true,
            _ => false,
        }
    }

    pub fn is_zero_number(&self) -> (r: bool)
        ensures
            r == self.is_zero(),
    {
        match self {
            Number::Finite { digits, .. } => *digits == 0,
            _ => false,
        }
    }

    pub fn is_sign_negative(&self) -> (r: bool)
        ensures
            r == self.sign_bit(),
    {
        match self {
            Number::Finite { negative, .. } => *negative,
            Number::Infinite { negative } => *negative,
            Number::NotANumber { negative } => *negative,
        }
    }

    /// Whether the two are finite and not zero with scales more than 32767
    /// places apart.
    pub fn is_out_of_reach(&self, other: &Number) -> (r: bool)
        ensures
            r == self.out_of_reach(*other),
    {
        match (self, other) {
            (Number::Finite { digits: a, scale: s, .. }, Number::Finite { digits: b, scale: t, .. }) => {
                let gap: i32 = *s as i32 - *t as i32;
                *a != 0 && *b != 0 && (gap > 32767 || gap < -32767)
            },
            _ => false,
        }
    }

    /// Of two finite numbers the one of smaller scale.
    fn dominant_of(self, other: Number) -> (r: Number)
        requires
            self is Finite,
            other is Finite,
        ensures
            r == self.dominant(other),
    {
        match (self, other) {
            (Number::Finite { scale: s, .. }, Number::Finite { scale: t, .. }) => {
                if s <= t {
                    self
                } else {
                    other
                }
            },
            _ => self,
        }
    }

    /// The sum.  It is exact wherever both operands and the sum can be
    /// written at the larger of the two scales; adding a zero keeps the
    /// value.
    pub fn add(self, rhs: Number) -> (r: Number)
        ensures
            r == self.plus(rhs),
            self.adds_exactly(rhs) ==> r == self.exact_sum(rhs),
            self.is_finite() && rhs.is_zero() ==> r.is_finite() && r.same_value(self),
            self.is_zero() && rhs.is_finite() ==> r.is_finite() && r.same_value(rhs),
    {
        if self.is_out_of_reach(&rhs) {
            proof {
                lemma_out_of_reach_is_inexact(self, rhs);
            }
            self.dominant_of(rhs)
        } else {
            decimal::add(&self, &rhs)
        }
    }

    /// The difference: exact wherever the sum with the negated right operand
    /// is; subtracting a zero keeps the value.
    pub fn sub(self, rhs: Number) -> (r: Number)
        ensures
            r == self.minus(rhs),
            self.adds_exactly(rhs.negated()) ==> r == self.exact_sum(rhs.negated()),
            self.is_finite() && rhs.is_zero() ==> r.is_finite() && r.same_value(self),
    {
        if self.is_out_of_reach(&rhs) {
            proof {
                lemma_out_of_reach_is_inexact(self, rhs.negated());
            }
            self.dominant_of(rhs.negate())
        } else {
            decimal::sub(&self, &rhs)
        }
    }

    pub fn mul(self, rhs: Number) -> (r: Number)
        ensures
            r == self.times(rhs),
            self.multiplies_exactly(rhs) ==> r == self.exact_product(rhs),
            self.is_finite() && rhs.is_finite() && (self.is_zero() || rhs.is_zero()) ==> r.is_zero(),
    {
        decimal::mul(&self, &rhs)
    }

    /// Division never fails.  A zero over a zero is not-a-number; anything
    /// else but a not-a-number over a zero is an infinity, negative where
    /// the signs differ.  The quotient is exact wherever the divisor's
    /// coefficient divides the dividend's and the scale fits.
    pub fn div(self, rhs: Number) -> (r: Number)
        ensures
            r == self.over(rhs),
            rhs == Number::one_value() && !self.is_nan() ==> r == self,
            rhs.is_zero() && self.is_zero() ==> r == Number::nan_value(),
            rhs.is_zero() && !self.is_zero() && !self.is_nan() ==> r == self.unbounded_quotient(rhs),
            self.divides_exactly(rhs) ==> r == self.exact_quotient(rhs),
    {
        if self.is_zero_number() && rhs.is_zero_number() {
            Number::nan()
        } else {
            decimal::div(&self, &rhs)
        }
    }

    /// Flips the sign, of the zeros and of the special values too.
    pub fn negate(self) -> (r: Number)
        ensures
            r == self.negated(),
    {
        match self {
            Number::Finite { negative, digits, scale } => Number::Finite { negative: !negative, digits, scale },
            Number::Infinite { negative } => Number::Infinite { negative: !negative },
            Number::NotANumber { negative } => Number::NotANumber { negative: !negative },
        }
    }

    /// Clears the sign; a not-a-number is handed back as it is.
    pub fn absolute(self) -> (r: Number)
        ensures
            r == self.magnitude(),
    {
        match self {
            Number::Finite { digits, scale, .. } => Number::Finite { negative: false, digits, scale },
            Number::Infinite { .. } => Number::Infinite { negative: false },
            Number::NotANumber { negative } => Number::NotANumber { negative },
        }
    }

    pub fn square_root(self) -> (r: Number)
        ensures
            r == self.root(),
            self.is_zero() ==> r == self,
    {
        decimal::sqrt(&self)
    }

    /// Numeric equality.
    pub fn equals(&self, rhs: &Number) -> (r: bool)
        ensures
            r == self.same_value(*rhs),
    {
        decimal::eq(self, rhs)
    }

    /// The strict order.
    pub fn less_than(&self, rhs: &Number) -> (r: bool)
        ensures
            r == self.below(*rhs),
    {
        decimal::lt(self, rhs)
    }

    /// Whether the number is finite and within `[-1, 1]`.
    pub fn within_unit_range(&self) -> (r: bool)
        ensures
            r == self.in_unit_range(),
    {
        self.is_finite_number() && !decimal::lt(self, &Number::from_i64(-1)) && !decimal::lt(
            &Number::one(),
            self,
        )
    }

    /// Whether the number is finite and within `[-32, 32]`.
    pub fn within_angle_range(&self) -> (r: bool)
        ensures
            r == self.in_angle_range(),
    {
        self.is_finite_number() && !decimal::lt(self, &Number::from_i64(-32)) && !decimal::lt(
            &Number::from_i64(32),
            self,
        )
    }

    /// The sine, of any finite angle.
    pub fn sine_value(&self) -> (r: Number)
        ensures
            r == self.sine(),
    {
        if self.is_finite_number() {
            decimal::sin(&self.reduce())
        } else {
            Number::nan()
        }
    }

    /// The cosine, of any finite angle.
    pub fn cosine_value(&self) -> (r: Number)
        ensures
            r == self.cosine(),
    {
        if self.is_finite_number() {
            decimal::cos(&self.reduce())
        } else {
            Number::nan()
        }
    }

    pub fn arccosine_value(&self) -> (r: Number)
        ensures
            r == self.arccosine(),
    {
        if self.within_unit_range() {
            decimal::acos(self)
        } else {
            Number::nan()
        }
    }

    /// Whether the number is finite and strictly within `(-1, 1)`.
    pub fn is_strictly_within_unit_range(&self) -> (r: bool)
        ensures
            r == self.strictly_in_unit_range(),
    {
        self.is_finite_number() && decimal::lt(&Number::from_i64(-1), self) && decimal::lt(
            self,
            &Number::one(),
        )
    }

    /// The sine and a cosine derived from it.
    pub fn sine_cosine_value(&self) -> (r: (Number, Number))
        ensures
            r == self.sine_cosine(),
    {
        if self.is_finite_number() {
            let angle = self.reduce();
            let sine = decimal::sin(&angle);
            let steepest = Number::Finite { negative: false, digits: 999999999999999999999999999999, scale: 30 };
            if decimal::lt(&steepest, &sine.absolute()) {
                (sine, Number::sub(Number::one(), Number::mul(sine, sine)).square_root())
            } else {
                decimal::sin_cos(&angle)
            }
        } else {
            (Number::nan(), Number::nan())
        }
    }

    /// The tangent.
    pub fn tangent_value(&self) -> (r: Number)
        ensures
            r == self.tangent(),
    {
        let angle = self.reduce();
        if angle.within_angle_range() && decimal::cos(&angle).has_digits() {
            decimal::tan(&angle)
        } else {
            Number::div(self.sine_value(), self.cosine_value())
        }
    }

    /// Whether the number is finite with a coefficient of two or more.
    fn has_digits(&self) -> (r: bool)
        ensures
            r == (self is Finite && self.coefficient() >= 2),
    {
        match self {
            Number::Finite { digits, .. } => *digits >= 2,
            _ => false,
        }
    }

    /// The angle of the point `(x, y)`, where `self` is `y`: half of pi on
    /// the vertical axis above the origin, minus that below it, and
    /// not-a-number at the origin.
    pub fn arctangent2_value(&self, x: &Number) -> (r: Number)
        ensures
            r == self.arctangent2(*x),
            x.on_axis() && Number::zero_value().below(*self) ==> r == Number::frac_pi_2_value(),
            x.on_axis() && self.below(Number::zero_value()) ==> r == Number::frac_pi_2_value().negated(),
            x.on_axis() && self.on_axis() ==> r.is_nan(),
    {
        let zero = Number::zero();
        if !decimal::lt(x, &zero) || decimal::div(self, x).is_strictly_within_unit_range() {
            decimal::atan2(self, x)
        } else {
            let slope = decimal::atan(&Number::div(*self, *x));
            if decimal::lt(self, &zero) {
                Number::sub(slope, Number::pi())
            } else {
                Number::add(slope, Number::pi())
            }
        }
    }

    /// Whether the squares of the two are within the backend's reach.
    pub fn has_squares_within_reach(&self, other: &Number) -> (r: bool)
        ensures
            r == self.squares_within_reach(*other),
    {
        match (self, other) {
            (Number::Finite { digits: a, scale: s, .. }, Number::Finite { digits: b, scale: t, .. }) => {
                let gap: i32 = *s as i32 - *t as i32;
                *a == 0 || *b == 0 || (-16000 <= gap && gap <= 16000)
            },
            _ => true,
        }
    }

    /// The length of the diagonal, `sqrt(self^2 + other^2)`.
    pub fn hypotenuse_value(&self, other: &Number) -> (r: Number)
        ensures
            r == self.hypotenuse(*other),
    {
        if self.has_squares_within_reach(other) {
            decimal::hypot(self, other)
        } else {
            Number::add(Number::mul(*self, *self), Number::mul(*other, *other)).square_root()
        }
    }
}

impl Default for Number {
    fn default() -> (r: Number)
        ensures
            r == Number::zero_value(),
    {
        Number::zero()
    }
}

/// Ten to a power of at least 39 is more than a coefficient holds.
proof fn lemma_pow10_exceeds(n: nat)
    requires
        n >= 39,
    ensures
        pow10(n) > u128::MAX as nat,
    decreases n,
{
    if n == 39 {
        reveal_with_fuel(pow10, 40);
    } else {
        lemma_pow10_exceeds((n - 1) as nat);
    }
}

/// A pair out of the backend's reach has no exact sum: the operand of
/// smaller scale does not fit at the larger one.
proof fn lemma_out_of_reach_is_inexact(a: Number, b: Number)
    requires
        a.out_of_reach(b),
    ensures
        !a.adds_exactly(b),
{
    let scale = a.common_scale(b);
    if a.scale_of() < b.scale_of() {
        let gap = (scale - a.scale_of()) as nat;
        lemma_pow10_exceeds(gap);
        assert(a.coefficient() * pow10(gap) >= pow10(gap)) by (nonlinear_arith)
            requires
                a.coefficient() >= 1,
        ;
    } else {
        let gap = (scale - b.scale_of()) as nat;
        lemma_pow10_exceeds(gap);
        assert(b.coefficient() * pow10(gap) >= pow10(gap)) by (nonlinear_arith)
            requires
                b.coefficient() >= 1,
        ;
    }
}

} // verus!
