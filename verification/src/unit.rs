//! Physical quantities.
//!
//! A quantity holds a number in the canonical unit of its kind: a [`Length`]
//! in metres, an [`Area`] in square metres, a [`Volume`] in cubic metres and
//! an [`Angle`] in radians.  Each kind is a type of its own, so quantities of
//! different kinds cannot be added or compared, and the only products and
//! quotients between kinds are the ones written out below.
//! A unit is a type too: it says how many of it make one canonical unit.

use vstd::prelude::*;
use vstd::std_specs::cmp::{PartialEqSpecImpl, PartialOrdSpecImpl};
use vstd::std_specs::convert::FromSpecImpl;
use vstd::std_specs::ops::{AddSpecImpl, DivSpecImpl, MulSpecImpl, NegSpecImpl, SubSpecImpl};
use core::cmp::Ordering;
use core::marker::PhantomData;
use core::ops::{Add, Div, Mul, Neg, Sub};
use crate::number::laws::lemma_one_times;
use crate::number::{pow10, Abs, ApproxEq, Number, One, Sqrt, Zero};

verus! {

/// A unit of some quantity: `canonical = (value + constant) × coefficient`.
pub trait UnitOf {
    type Dim;

    spec fn coefficient() -> Number;

    spec fn constant() -> Number;

    fn conversion_coefficient() -> (r: Number)
        ensures
            r == Self::coefficient(),
    ;

    fn conversion_constant() -> (r: Number)
        ensures
            r == Self::constant(),
    ;
}

/// A physical quantity with a canonical unit.
pub trait Dimension: Sized {
    type CanonicalUnit: UnitOf<Dim = Self>;

    spec fn canonical_spec(&self) -> Number;

    spec fn from_canonical_spec(value: Number) -> Self;

    /// The number of canonical units.
    fn canonical(&self) -> (r: Number)
        ensures
            r == self.canonical_spec(),
    ;

    /// The quantity of `value` canonical units.
    fn from_canonical(value: Number) -> (r: Self)
        ensures
            r == Self::from_canonical_spec(value),
    ;
}

/// A unit of which `DIGITS / 10^SCALE` make one canonical unit of `D`.
#[derive(Debug)]
pub struct PerCanonical<D, const DIGITS: u128, const SCALE: u8> {
    dimension: PhantomData<D>,
}

/// A unit that is `DIGITS / 10^SCALE` canonical units of `D`.
#[derive(Debug)]
pub struct OfCanonical<D, const DIGITS: u128, const SCALE: u8> {
    dimension: PhantomData<D>,
}

/// The decimal `digits / 10^scale`.
pub open spec fn ratio(digits: u128, scale: u8) -> Number {
    Number::Finite { negative: false, digits, scale: scale as i16 }
}

fn ratio_number(digits: u128, scale: u8) -> (r: Number)
    ensures
        r == ratio(digits, scale),
{
    Number::Finite { negative: false, digits, scale: scale as i16 }
}

/// The canonical number of `value` of a unit with the given conversion.
pub open spec fn to_canonical(value: Number, coefficient: Number, constant: Number) -> Number {
    value.plus(constant).times(coefficient)
}

/// Whether a conversion is that of a unit which is one canonical unit.
pub open spec fn is_canonical(coefficient: Number, constant: Number) -> bool {
    coefficient == Number::one_value() && constant == Number::zero_value()
}

/// The number of a unit with the given conversion that `canonical` is.
pub open spec fn from_canonical(canonical: Number, coefficient: Number, constant: Number) -> Number {
    canonical.over(coefficient).minus(constant)
}

/// Whether `value` of a unit with the given conversion is converted without
/// rounding: the unit has no offset, neither the value nor the coefficient
/// is zero, the value has no negative scale, and their product fits a
/// number.
pub open spec fn converts_exactly(value: Number, coefficient: Number, constant: Number) -> bool {
    &&& constant == Number::zero_value()
    &&& value is Finite
    &&& coefficient is Finite
    &&& value.coefficient() != 0
    &&& coefficient.coefficient() != 0
    &&& value.scale_of() >= 0
    &&& value.multiplies_exactly(coefficient)
}

/// The round trip through the canonical unit: a value that is converted
/// without rounding becomes the exact product with the coefficient, and
/// converting that back gives the value as it was.
pub proof fn law_exact_round_trip(value: Number, coefficient: Number, constant: Number)
    requires
        converts_exactly(value, coefficient, constant),
    ensures
        to_canonical(value, coefficient, constant) == value.exact_product(coefficient),
        from_canonical(to_canonical(value, coefficient, constant), coefficient, constant) == value,
{
    reveal_with_fuel(pow10, 2);
    let v = value.coefficient();
    let c = coefficient.coefficient();
    let zero = Number::zero_value();
    let scale = value.scale_of();
    assert(value.common_scale(zero) == scale && value.common_scale(zero.negated()) == scale);
    assert(pow10(0) == 1);
    assert(value.aligned(scale) == v) by (nonlinear_arith)
        requires
            value.aligned(scale) == v * pow10(0),
            pow10(0) == 1,
    ;
    assert(zero.aligned(scale) == 0 && zero.negated().aligned(scale) == 0) by (nonlinear_arith)
        requires
            zero.aligned(scale) == 0 * pow10(scale as nat),
            zero.negated().aligned(scale) == 0 * pow10(scale as nat),
    ;
    assert(v * c >= 1 && (v * c) % c == 0 && (v * c) / c == v) by (nonlinear_arith)
        requires
            v >= 1,
            c >= 1,
    ;
    assert(value.plus(zero) == value);
    let product = value.exact_product(coefficient);
    assert(value.times(coefficient) == product);
    assert(product.divides_exactly(coefficient));
    assert(product.over(coefficient) == value);
    assert(value.minus(zero) == value);
}

impl<D, const DIGITS: u128, const SCALE: u8> UnitOf for PerCanonical<D, DIGITS, SCALE> {
    type Dim = D;

    open spec fn coefficient() -> Number {
        Number::one_value().over(ratio(DIGITS, SCALE))
    }

    open spec fn constant() -> Number {
        Number::zero_value()
    }

    fn conversion_coefficient() -> (r: Number) {
        Number::div(Number::one(), ratio_number(DIGITS, SCALE))
    }

    fn conversion_constant() -> (r: Number) {
        Number::zero()
    }
}

impl<D, const DIGITS: u128, const SCALE: u8> UnitOf for OfCanonical<D, DIGITS, SCALE> {
    type Dim = D;

    open spec fn coefficient() -> Number {
        ratio(DIGITS, SCALE)
    }

    open spec fn constant() -> Number {
        Number::zero_value()
    }

    fn conversion_coefficient() -> (r: Number) {
        ratio_number(DIGITS, SCALE)
    }

    fn conversion_constant() -> (r: Number) {
        Number::zero()
    }
}

impl<D: Dimension, const DIGITS: u128, const SCALE: u8> PerCanonical<D, DIGITS, SCALE> {
    /// The quantity of `value` of this unit.
    pub fn from_scalar(value: Number) -> (r: D)
        ensures
            r == D::from_canonical_spec(to_canonical(value, Self::coefficient(), Self::constant())),
    {
        D::from_canonical(
            Number::mul(Number::add(value, Self::conversion_constant()), Self::conversion_coefficient()),
        )
    }
}

impl<D: Dimension, const DIGITS: u128, const SCALE: u8> OfCanonical<D, DIGITS, SCALE> {
    /// The quantity of `value` of this unit.
    pub fn from_scalar(value: Number) -> (r: D)
        ensures
            r == D::from_canonical_spec(to_canonical(value, Self::coefficient(), Self::constant())),
    {
        D::from_canonical(
            Number::mul(Number::add(value, Self::conversion_constant()), Self::conversion_coefficient()),
        )
    }
}

/// A distance, in metres.
#[derive(Debug, Clone, Copy)]
pub struct Length {
    value: Number,
}

impl Length {
    /// The number of metres.
    pub closed spec fn raw(self) -> Number {
        self.value
    }

    /// The length of `value` metres.
    pub closed spec fn of(value: Number) -> Length {
        Length { value }
    }

    /// A length holds its number of metres.
    pub broadcast proof fn raw_of(value: Number)
        ensures
            #[trigger] Length::of(value).raw() == value,
    {
    }

    /// A length holds nothing but its number of metres.
    pub broadcast proof fn of_raw(q: Length)
        ensures
            Length::of(#[trigger] q.raw()) == q,
    {
    }

    /// Converts the length to a number of the unit `U`.  In a unit that is
    /// one canonical unit a finite length keeps its value.
    pub fn to<U: UnitOf<Dim = Length>>(&self) -> (r: Number)
        ensures
            r == from_canonical(self.raw(), U::coefficient(), U::constant()),
            is_canonical(U::coefficient(), U::constant()) && self.raw().is_finite() ==> r.is_finite()
                && r.same_value(self.raw()),
    {
        Number::sub(Number::div(self.value, U::conversion_coefficient()), U::conversion_constant())
    }

    /// The length of `value` of the unit `U`.  In a unit that is one
    /// canonical unit a finite value is kept.
    pub fn from_scalar<U: UnitOf<Dim = Length>>(value: Number) -> (r: Length)
        ensures
            r == Length::of(to_canonical(value, U::coefficient(), U::constant())),
            is_canonical(U::coefficient(), U::constant()) && value.is_finite() ==> r.raw().is_finite()
                && r.raw().same_value(value),
    {
        let shifted = Number::add(value, U::conversion_constant());
        proof {
            if shifted.is_finite() {
                lemma_one_times(shifted);
            }
        }
        Length { value: Number::mul(shifted, U::conversion_coefficient()) }
    }

    fn wrap(value: Number) -> (r: Length)
        ensures
            r == Length::of(value),
    {
        Length { value }
    }
}

impl Dimension for Length {
    type CanonicalUnit = OfCanonical<Length, 1, 0>;

    open spec fn canonical_spec(&self) -> Number {
        self.raw()
    }

    open spec fn from_canonical_spec(value: Number) -> Length {
        Length::of(value)
    }

    fn canonical(&self) -> (r: Number) {
        self.value
    }

    fn from_canonical(value: Number) -> (r: Length) {
        Length::wrap(value)
    }
}

impl AddSpecImpl for Length {
    open spec fn obeys_add_spec() -> bool {
        true
    }

    open spec fn add_req(self, rhs: Length) -> bool {
        true
    }

    open spec fn add_spec(self, rhs: Length) -> Length {
        Length::of(self.raw().plus(rhs.raw()))
    }
}

impl Add for Length {
    type Output = Length;

    fn add(self, rhs: Length) -> (r: Length) {
        Length::wrap(Number::add(self.value, rhs.value))
    }
}

impl SubSpecImpl for Length {
    open spec fn obeys_sub_spec() -> bool {
        true
    }

    open spec fn sub_req(self, rhs: Length) -> bool {
        true
    }

    open spec fn sub_spec(self, rhs: Length) -> Length {
        Length::of(self.raw().minus(rhs.raw()))
    }
}

impl Sub for Length {
    type Output = Length;

    fn sub(self, rhs: Length) -> (r: Length) {
        Length::wrap(Number::sub(self.value, rhs.value))
    }
}

impl NegSpecImpl for Length {
    open spec fn obeys_neg_spec() -> bool {
        true
    }

    open spec fn neg_req(self) -> bool {
        true
    }

    open spec fn neg_spec(self) -> Length {
        Length::of(self.raw().negated())
    }
}

impl Neg for Length {
    type Output = Length;

    fn neg(self) -> (r: Length) {
        Length::wrap(self.value.negate())
    }
}

impl MulSpecImpl<Number> for Length {
    open spec fn obeys_mul_spec() -> bool {
        true
    }

    open spec fn mul_req(self, rhs: Number) -> bool {
        true
    }

    open spec fn mul_spec(self, rhs: Number) -> Length {
        Length::of(self.raw().times(rhs))
    }
}

impl Mul<Number> for Length {
    type Output = Length;

    fn mul(self, rhs: Number) -> (r: Length) {
        Length::wrap(Number::mul(self.value, rhs))
    }
}

impl MulSpecImpl<Length> for Number {
    open spec fn obeys_mul_spec() -> bool {
        true
    }

    open spec fn mul_req(self, rhs: Length) -> bool {
        true
    }

    open spec fn mul_spec(self, rhs: Length) -> Length {
        Length::of(self.times(rhs.raw()))
    }
}

impl Mul<Length> for Number {
    type Output = Length;

    fn mul(self, rhs: Length) -> (r: Length) {
        Length::wrap(Number::mul(self, rhs.value))
    }
}

impl DivSpecImpl<Number> for Length {
    open spec fn obeys_div_spec() -> bool {
        true
    }

    open spec fn div_req(self, rhs: Number) -> bool {
        true
    }

    open spec fn div_spec(self, rhs: Number) -> Length {
        Length::of(self.raw().over(rhs))
    }
}

impl Div<Number> for Length {
    type Output = Length;

    fn div(self, rhs: Number) -> (r: Length) {
        Length::wrap(Number::div(self.value, rhs))
    }
}

impl DivSpecImpl<Length> for Length {
    open spec fn obeys_div_spec() -> bool {
        true
    }

    open spec fn div_req(self, rhs: Length) -> bool {
        true
    }

    open spec fn div_spec(self, rhs: Length) -> Number {
        self.raw().over(rhs.raw())
    }
}

impl Div<Length> for Length {
    type Output = Number;

    fn div(self, rhs: Length) -> (r: Number) {
        Number::div(self.value, rhs.value)
    }
}

impl Zero for Length {
    open spec fn zero_spec() -> Length {
        Length::of(Number::zero_value())
    }

    fn zero() -> (r: Length) {
        Length::wrap(Number::zero())
    }
}

impl One for Length {
    open spec fn one_spec() -> Length {
        Length::of(Number::one_value())
    }

    fn one() -> (r: Length) {
        Length::wrap(Number::one())
    }
}

impl Abs for Length {
    type Output = Length;

    open spec fn abs_spec(self) -> Length {
        Length::of(self.raw().magnitude())
    }

    fn abs(self) -> (r: Length) {
        Length::wrap(self.value.absolute())
    }
}

impl ApproxEq for Length {
    open spec fn approx_eq_spec(&self, rhs: &Length) -> bool {
        self.raw().close_to(rhs.raw())
    }

    fn approx_eq(&self, rhs: &Length) -> (r: bool) {
        self.value.approx_eq(&rhs.value)
    }
}

impl Default for Length {
    fn default() -> (r: Length)
        ensures
            r == Length::of(Number::zero_value()),
    {
        Length::wrap(Number::zero())
    }
}

impl core::hash::Hash for Length {
    /// Hashes the length by its number of metres.
    fn hash<H: core::hash::Hasher>(&self, state: &mut H) {
        self.value.hash(state)
    }
}

impl PartialEqSpecImpl for Length {
    open spec fn obeys_eq_spec() -> bool {
        true
    }

    open spec fn eq_spec(&self, other: &Length) -> bool {
        self.raw().same_value(other.raw())
    }
}

impl PartialEq for Length {
    fn eq(&self, other: &Length) -> (r: bool) {
        self.value.equals(&other.value)
    }
}

impl PartialOrdSpecImpl for Length {
    open spec fn obeys_partial_cmp_spec() -> bool {
        true
    }

    open spec fn partial_cmp_spec(&self, other: &Length) -> Option<Ordering> {
        if self.raw().below(other.raw()) {
            Some(Ordering::Less)
        } else if other.raw().below(self.raw()) {
            Some(Ordering::Greater)
        } else {
            Some(Ordering::Equal)
        }
    }
}

impl PartialOrd for Length {
    fn partial_cmp(&self, other: &Length) -> (r: Option<Ordering>) {
        if self.value.less_than(&other.value) {
            Some(Ordering::Less)
        } else if other.value.less_than(&self.value) {
            Some(Ordering::Greater)
        } else {
            Some(Ordering::Equal)
        }
    }
}

/// A surface, in square metres.
#[derive(Debug, Clone, Copy)]
pub struct Area {
    value: Number,
}

impl Area {
    /// The number of square metres.
    pub closed spec fn raw(self) -> Number {
        self.value
    }

    /// The area of `value` square metres.
    pub closed spec fn of(value: Number) -> Area {
        Area { value }
    }

    /// An area holds its number of square metres.
    pub broadcast proof fn raw_of(value: Number)
        ensures
            #[trigger] Area::of(value).raw() == value,
    {
    }

    /// An area holds nothing but its number of square metres.
    pub broadcast proof fn of_raw(q: Area)
        ensures
            Area::of(#[trigger] q.raw()) == q,
    {
    }

    /// Converts the area to a number of the unit `U`.  In a unit that is
    /// one canonical unit a finite area keeps its value.
    pub fn to<U: UnitOf<Dim = Area>>(&self) -> (r: Number)
        ensures
            r == from_canonical(self.raw(), U::coefficient(), U::constant()),
            is_canonical(U::coefficient(), U::constant()) && self.raw().is_finite() ==> r.is_finite()
                && r.same_value(self.raw()),
    {
        Number::sub(Number::div(self.value, U::conversion_coefficient()), U::conversion_constant())
    }

    /// The area of `value` of the unit `U`.  In a unit that is one
    /// canonical unit a finite value is kept.
    pub fn from_scalar<U: UnitOf<Dim = Area>>(value: Number) -> (r: Area)
        ensures
            r == Area::of(to_canonical(value, U::coefficient(), U::constant())),
            is_canonical(U::coefficient(), U::constant()) && value.is_finite() ==> r.raw().is_finite()
                && r.raw().same_value(value),
    {
        let shifted = Number::add(value, U::conversion_constant());
        proof {
            if shifted.is_finite() {
                lemma_one_times(shifted);
            }
        }
        Area { value: Number::mul(shifted, U::conversion_coefficient()) }
    }

    fn wrap(value: Number) -> (r: Area)
        ensures
            r == Area::of(value),
    {
        Area { value }
    }
}

impl Dimension for Area {
    type CanonicalUnit = OfCanonical<Area, 1, 0>;

    open spec fn canonical_spec(&self) -> Number {
        self.raw()
    }

    open spec fn from_canonical_spec(value: Number) -> Area {
        Area::of(value)
    }

    fn canonical(&self) -> (r: Number) {
        self.value
    }

    fn from_canonical(value: Number) -> (r: Area) {
        Area::wrap(value)
    }
}

impl AddSpecImpl for Area {
    open spec fn obeys_add_spec() -> bool {
        true
    }

    open spec fn add_req(self, rhs: Area) -> bool {
        true
    }

    open spec fn add_spec(self, rhs: Area) -> Area {
        Area::of(self.raw().plus(rhs.raw()))
    }
}

impl Add for Area {
    type Output = Area;

    fn add(self, rhs: Area) -> (r: Area) {
        Area::wrap(Number::add(self.value, rhs.value))
    }
}

impl SubSpecImpl for Area {
    open spec fn obeys_sub_spec() -> bool {
        true
    }

    open spec fn sub_req(self, rhs: Area) -> bool {
        true
    }

    open spec fn sub_spec(self, rhs: Area) -> Area {
        Area::of(self.raw().minus(rhs.raw()))
    }
}

impl Sub for Area {
    type Output = Area;

    fn sub(self, rhs: Area) -> (r: Area) {
        Area::wrap(Number::sub(self.value, rhs.value))
    }
}

impl NegSpecImpl for Area {
    open spec fn obeys_neg_spec() -> bool {
        true
    }

    open spec fn neg_req(self) -> bool {
        true
    }

    open spec fn neg_spec(self) -> Area {
        Area::of(self.raw().negated())
    }
}

impl Neg for Area {
    type Output = Area;

    fn neg(self) -> (r: Area) {
        Area::wrap(self.value.negate())
    }
}

impl MulSpecImpl<Number> for Area {
    open spec fn obeys_mul_spec() -> bool {
        true
    }

    open spec fn mul_req(self, rhs: Number) -> bool {
        true
    }

    open spec fn mul_spec(self, rhs: Number) -> Area {
        Area::of(self.raw().times(rhs))
    }
}

impl Mul<Number> for Area {
    type Output = Area;

    fn mul(self, rhs: Number) -> (r: Area) {
        Area::wrap(Number::mul(self.value, rhs))
    }
}

impl MulSpecImpl<Area> for Number {
    open spec fn obeys_mul_spec() -> bool {
        true
    }

    open spec fn mul_req(self, rhs: Area) -> bool {
        true
    }

    open spec fn mul_spec(self, rhs: Area) -> Area {
        Area::of(self.times(rhs.raw()))
    }
}

impl Mul<Area> for Number {
    type Output = Area;

    fn mul(self, rhs: Area) -> (r: Area) {
        Area::wrap(Number::mul(self, rhs.value))
    }
}

impl DivSpecImpl<Number> for Area {
    open spec fn obeys_div_spec() -> bool {
        true
    }

    open spec fn div_req(self, rhs: Number) -> bool {
        true
    }

    open spec fn div_spec(self, rhs: Number) -> Area {
        Area::of(self.raw().over(rhs))
    }
}

impl Div<Number> for Area {
    type Output = Area;

    fn div(self, rhs: Number) -> (r: Area) {
        Area::wrap(Number::div(self.value, rhs))
    }
}

impl DivSpecImpl<Area> for Area {
    open spec fn obeys_div_spec() -> bool {
        true
    }

    open spec fn div_req(self, rhs: Area) -> bool {
        true
    }

    open spec fn div_spec(self, rhs: Area) -> Number {
        self.raw().over(rhs.raw())
    }
}

impl Div<Area> for Area {
    type Output = Number;

    fn div(self, rhs: Area) -> (r: Number) {
        Number::div(self.value, rhs.value)
    }
}

impl Zero for Area {
    open spec fn zero_spec() -> Area {
        Area::of(Number::zero_value())
    }

    fn zero() -> (r: Area) {
        Area::wrap(Number::zero())
    }
}

impl One for Area {
    open spec fn one_spec() -> Area {
        Area::of(Number::one_value())
    }

    fn one() -> (r: Area) {
        Area::wrap(Number::one())
    }
}

impl Abs for Area {
    type Output = Area;

    open spec fn abs_spec(self) -> Area {
        Area::of(self.raw().magnitude())
    }

    fn abs(self) -> (r: Area) {
        Area::wrap(self.value.absolute())
    }
}

impl ApproxEq for Area {
    open spec fn approx_eq_spec(&self, rhs: &Area) -> bool {
        self.raw().close_to(rhs.raw())
    }

    fn approx_eq(&self, rhs: &Area) -> (r: bool) {
        self.value.approx_eq(&rhs.value)
    }
}

impl Default for Area {
    fn default() -> (r: Area)
        ensures
            r == Area::of(Number::zero_value()),
    {
        Area::wrap(Number::zero())
    }
}

impl core::hash::Hash for Area {
    /// Hashes the area by its number of square metres.
    fn hash<H: core::hash::Hasher>(&self, state: &mut H) {
        self.value.hash(state)
    }
}

impl PartialEqSpecImpl for Area {
    open spec fn obeys_eq_spec() -> bool {
        true
    }

    open spec fn eq_spec(&self, other: &Area) -> bool {
        self.raw().same_value(other.raw())
    }
}

impl PartialEq for Area {
    fn eq(&self, other: &Area) -> (r: bool) {
        self.value.equals(&other.value)
    }
}

impl PartialOrdSpecImpl for Area {
    open spec fn obeys_partial_cmp_spec() -> bool {
        true
    }

    open spec fn partial_cmp_spec(&self, other: &Area) -> Option<Ordering> {
        if self.raw().below(other.raw()) {
            Some(Ordering::Less)
        } else if other.raw().below(self.raw()) {
            Some(Ordering::Greater)
        } else {
            Some(Ordering::Equal)
        }
    }
}

impl PartialOrd for Area {
    fn partial_cmp(&self, other: &Area) -> (r: Option<Ordering>) {
        if self.value.less_than(&other.value) {
            Some(Ordering::Less)
        } else if other.value.less_than(&self.value) {
            Some(Ordering::Greater)
        } else {
            Some(Ordering::Equal)
        }
    }
}

/// A space, in cubic metres.
#[derive(Debug, Clone, Copy)]
pub struct Volume {
    value: Number,
}

impl Volume {
    /// The number of cubic metres.
    pub closed spec fn raw(self) -> Number {
        self.value
    }

    /// The volume of `value` cubic metres.
    pub closed spec fn of(value: Number) -> Volume {
        Volume { value }
    }

    /// A volume holds its number of cubic metres.
    pub broadcast proof fn raw_of(value: Number)
        ensures
            #[trigger] Volume::of(value).raw() == value,
    {
    }

    /// A volume holds nothing but its number of cubic metres.
    pub broadcast proof fn of_raw(q: Volume)
        ensures
            Volume::of(#[trigger] q.raw()) == q,
    {
    }

    /// Converts the volume to a number of the unit `U`.  In a unit that is
    /// one canonical unit a finite volume keeps its value.
    pub fn to<U: UnitOf<Dim = Volume>>(&self) -> (r: Number)
        ensures
            r == from_canonical(self.raw(), U::coefficient(), U::constant()),
            is_canonical(U::coefficient(), U::constant()) && self.raw().is_finite() ==> r.is_finite()
                && r.same_value(self.raw()),
    {
        Number::sub(Number::div(self.value, U::conversion_coefficient()), U::conversion_constant())
    }

    /// The volume of `value` of the unit `U`.  In a unit that is one
    /// canonical unit a finite value is kept.
    pub fn from_scalar<U: UnitOf<Dim = Volume>>(value: Number) -> (r: Volume)
        ensures
            r == Volume::of(to_canonical(value, U::coefficient(), U::constant())),
            is_canonical(U::coefficient(), U::constant()) && value.is_finite() ==> r.raw().is_finite()
                && r.raw().same_value(value),
    {
        let shifted = Number::add(value, U::conversion_constant());
        proof {
            if shifted.is_finite() {
                lemma_one_times(shifted);
            }
        }
        Volume { value: Number::mul(shifted, U::conversion_coefficient()) }
    }

    fn wrap(value: Number) -> (r: Volume)
        ensures
            r == Volume::of(value),
    {
        Volume { value }
    }
}

impl Dimension for Volume {
    type CanonicalUnit = OfCanonical<Volume, 1, 0>;

    open spec fn canonical_spec(&self) -> Number {
        self.raw()
    }

    open spec fn from_canonical_spec(value: Number) -> Volume {
        Volume::of(value)
    }

    fn canonical(&self) -> (r: Number) {
        self.value
    }

    fn from_canonical(value: Number) -> (r: Volume) {
        Volume::wrap(value)
    }
}

impl AddSpecImpl for Volume {
    open spec fn obeys_add_spec() -> bool {
        true
    }

    open spec fn add_req(self, rhs: Volume) -> bool {
        true
    }

    open spec fn add_spec(self, rhs: Volume) -> Volume {
        Volume::of(self.raw().plus(rhs.raw()))
    }
}

impl Add for Volume {
    type Output = Volume;

    fn add(self, rhs: Volume) -> (r: Volume) {
        Volume::wrap(Number::add(self.value, rhs.value))
    }
}

impl SubSpecImpl for Volume {
    open spec fn obeys_sub_spec() -> bool {
        true
    }

    open spec fn sub_req(self, rhs: Volume) -> bool {
        true
    }

    open spec fn sub_spec(self, rhs: Volume) -> Volume {
        Volume::of(self.raw().minus(rhs.raw()))
    }
}

impl Sub for Volume {
    type Output = Volume;

    fn sub(self, rhs: Volume) -> (r: Volume) {
        Volume::wrap(Number::sub(self.value, rhs.value))
    }
}

impl NegSpecImpl for Volume {
    open spec fn obeys_neg_spec() -> bool {
        true
    }

    open spec fn neg_req(self) -> bool {
        true
    }

    open spec fn neg_spec(self) -> Volume {
        Volume::of(self.raw().negated())
    }
}

impl Neg for Volume {
    type Output = Volume;

    fn neg(self) -> (r: Volume) {
        Volume::wrap(self.value.negate())
    }
}

impl MulSpecImpl<Number> for Volume {
    open spec fn obeys_mul_spec() -> bool {
        true
    }

    open spec fn mul_req(self, rhs: Number) -> bool {
        true
    }

    open spec fn mul_spec(self, rhs: Number) -> Volume {
        Volume::of(self.raw().times(rhs))
    }
}

impl Mul<Number> for Volume {
    type Output = Volume;

    fn mul(self, rhs: Number) -> (r: Volume) {
        Volume::wrap(Number::mul(self.value, rhs))
    }
}

impl MulSpecImpl<Volume> for Number {
    open spec fn obeys_mul_spec() -> bool {
        true
    }

    open spec fn mul_req(self, rhs: Volume) -> bool {
        true
    }

    open spec fn mul_spec(self, rhs: Volume) -> Volume {
        Volume::of(self.times(rhs.raw()))
    }
}

impl Mul<Volume> for Number {
    type Output = Volume;

    fn mul(self, rhs: Volume) -> (r: Volume) {
        Volume::wrap(Number::mul(self, rhs.value))
    }
}

impl DivSpecImpl<Number> for Volume {
    open spec fn obeys_div_spec() -> bool {
        true
    }

    open spec fn div_req(self, rhs: Number) -> bool {
        true
    }

    open spec fn div_spec(self, rhs: Number) -> Volume {
        Volume::of(self.raw().over(rhs))
    }
}

impl Div<Number> for Volume {
    type Output = Volume;

    fn div(self, rhs: Number) -> (r: Volume) {
        Volume::wrap(Number::div(self.value, rhs))
    }
}

impl DivSpecImpl<Volume> for Volume {
    open spec fn obeys_div_spec() -> bool {
        true
    }

    open spec fn div_req(self, rhs: Volume) -> bool {
        true
    }

    open spec fn div_spec(self, rhs: Volume) -> Number {
        self.raw().over(rhs.raw())
    }
}

impl Div<Volume> for Volume {
    type Output = Number;

    fn div(self, rhs: Volume) -> (r: Number) {
        Number::div(self.value, rhs.value)
    }
}

impl Zero for Volume {
    open spec fn zero_spec() -> Volume {
        Volume::of(Number::zero_value())
    }

    fn zero() -> (r: Volume) {
        Volume::wrap(Number::zero())
    }
}

impl One for Volume {
    open spec fn one_spec() -> Volume {
        Volume::of(Number::one_value())
    }

    fn one() -> (r: Volume) {
        Volume::wrap(Number::one())
    }
}

impl Abs for Volume {
    type Output = Volume;

    open spec fn abs_spec(self) -> Volume {
        Volume::of(self.raw().magnitude())
    }

    fn abs(self) -> (r: Volume) {
        Volume::wrap(self.value.absolute())
    }
}

impl ApproxEq for Volume {
    open spec fn approx_eq_spec(&self, rhs: &Volume) -> bool {
        self.raw().close_to(rhs.raw())
    }

    fn approx_eq(&self, rhs: &Volume) -> (r: bool) {
        self.value.approx_eq(&rhs.value)
    }
}

impl Default for Volume {
    fn default() -> (r: Volume)
        ensures
            r == Volume::of(Number::zero_value()),
    {
        Volume::wrap(Number::zero())
    }
}

impl core::hash::Hash for Volume {
    /// Hashes the volume by its number of cubic metres.
    fn hash<H: core::hash::Hasher>(&self, state: &mut H) {
        self.value.hash(state)
    }
}

impl PartialEqSpecImpl for Volume {
    open spec fn obeys_eq_spec() -> bool {
        true
    }

    open spec fn eq_spec(&self, other: &Volume) -> bool {
        self.raw().same_value(other.raw())
    }
}

impl PartialEq for Volume {
    fn eq(&self, other: &Volume) -> (r: bool) {
        self.value.equals(&other.value)
    }
}

impl PartialOrdSpecImpl for Volume {
    open spec fn obeys_partial_cmp_spec() -> bool {
        true
    }

    open spec fn partial_cmp_spec(&self, other: &Volume) -> Option<Ordering> {
        if self.raw().below(other.raw()) {
            Some(Ordering::Less)
        } else if other.raw().below(self.raw()) {
            Some(Ordering::Greater)
        } else {
            Some(Ordering::Equal)
        }
    }
}

impl PartialOrd for Volume {
    fn partial_cmp(&self, other: &Volume) -> (r: Option<Ordering>) {
        if self.value.less_than(&other.value) {
            Some(Ordering::Less)
        } else if other.value.less_than(&self.value) {
            Some(Ordering::Greater)
        } else {
            Some(Ordering::Equal)
        }
    }
}

/// A plane angle, in radians.
#[derive(Debug, Clone, Copy)]
pub struct Angle {
    value: Number,
}

impl Angle {
    /// The number of radians.
    pub closed spec fn raw(self) -> Number {
        self.value
    }

    /// The angle of `value` radians.
    pub closed spec fn of(value: Number) -> Angle {
        Angle { value }
    }

    /// An angle holds its number of radians.
    pub broadcast proof fn raw_of(value: Number)
        ensures
            #[trigger] Angle::of(value).raw() == value,
    {
    }

    /// An angle holds nothing but its number of radians.
    pub broadcast proof fn of_raw(q: Angle)
        ensures
            Angle::of(#[trigger] q.raw()) == q,
    {
    }

    /// Converts the angle to a number of the unit `U`.  In a unit that is
    /// one canonical unit a finite angle keeps its value.
    pub fn to<U: UnitOf<Dim = Angle>>(&self) -> (r: Number)
        ensures
            r == from_canonical(self.raw(), U::coefficient(), U::constant()),
            is_canonical(U::coefficient(), U::constant()) && self.raw().is_finite() ==> r.is_finite()
                && r.same_value(self.raw()),
    {
        Number::sub(Number::div(self.value, U::conversion_coefficient()), U::conversion_constant())
    }

    /// The angle of `value` of the unit `U`.  In a unit that is one
    /// canonical unit a finite value is kept.
    pub fn from_scalar<U: UnitOf<Dim = Angle>>(value: Number) -> (r: Angle)
        ensures
            r == Angle::of(to_canonical(value, U::coefficient(), U::constant())),
            is_canonical(U::coefficient(), U::constant()) && value.is_finite() ==> r.raw().is_finite()
                && r.raw().same_value(value),
    {
        let shifted = Number::add(value, U::conversion_constant());
        proof {
            if shifted.is_finite() {
                lemma_one_times(shifted);
            }
        }
        Angle { value: Number::mul(shifted, U::conversion_coefficient()) }
    }

    fn wrap(value: Number) -> (r: Angle)
        ensures
            r == Angle::of(value),
    {
        Angle { value }
    }
}

impl Dimension for Angle {
    type CanonicalUnit = OfCanonical<Angle, 1, 0>;

    open spec fn canonical_spec(&self) -> Number {
        self.raw()
    }

    open spec fn from_canonical_spec(value: Number) -> Angle {
        Angle::of(value)
    }

    fn canonical(&self) -> (r: Number) {
        self.value
    }

    fn from_canonical(value: Number) -> (r: Angle) {
        Angle::wrap(value)
    }
}

impl AddSpecImpl for Angle {
    open spec fn obeys_add_spec() -> bool {
        true
    }

    open spec fn add_req(self, rhs: Angle) -> bool {
        true
    }

    open spec fn add_spec(self, rhs: Angle) -> Angle {
        Angle::of(self.raw().plus(rhs.raw()))
    }
}

impl Add for Angle {
    type Output = Angle;

    fn add(self, rhs: Angle) -> (r: Angle) {
        Angle::wrap(Number::add(self.value, rhs.value))
    }
}

impl SubSpecImpl for Angle {
    open spec fn obeys_sub_spec() -> bool {
        true
    }

    open spec fn sub_req(self, rhs: Angle) -> bool {
        true
    }

    open spec fn sub_spec(self, rhs: Angle) -> Angle {
        Angle::of(self.raw().minus(rhs.raw()))
    }
}

impl Sub for Angle {
    type Output = Angle;

    fn sub(self, rhs: Angle) -> (r: Angle) {
        Angle::wrap(Number::sub(self.value, rhs.value))
    }
}

impl NegSpecImpl for Angle {
    open spec fn obeys_neg_spec() -> bool {
        true
    }

    open spec fn neg_req(self) -> bool {
        true
    }

    open spec fn neg_spec(self) -> Angle {
        Angle::of(self.raw().negated())
    }
}

impl Neg for Angle {
    type Output = Angle;

    fn neg(self) -> (r: Angle) {
        Angle::wrap(self.value.negate())
    }
}

impl MulSpecImpl<Number> for Angle {
    open spec fn obeys_mul_spec() -> bool {
        true
    }

    open spec fn mul_req(self, rhs: Number) -> bool {
        true
    }

    open spec fn mul_spec(self, rhs: Number) -> Angle {
        Angle::of(self.raw().times(rhs))
    }
}

impl Mul<Number> for Angle {
    type Output = Angle;

    fn mul(self, rhs: Number) -> (r: Angle) {
        Angle::wrap(Number::mul(self.value, rhs))
    }
}

impl MulSpecImpl<Angle> for Number {
    open spec fn obeys_mul_spec() -> bool {
        true
    }

    open spec fn mul_req(self, rhs: Angle) -> bool {
        true
    }

    open spec fn mul_spec(self, rhs: Angle) -> Angle {
        Angle::of(self.times(rhs.raw()))
    }
}

impl Mul<Angle> for Number {
    type Output = Angle;

    fn mul(self, rhs: Angle) -> (r: Angle) {
        Angle::wrap(Number::mul(self, rhs.value))
    }
}

impl DivSpecImpl<Number> for Angle {
    open spec fn obeys_div_spec() -> bool {
        true
    }

    open spec fn div_req(self, rhs: Number) -> bool {
        true
    }

    open spec fn div_spec(self, rhs: Number) -> Angle {
        Angle::of(self.raw().over(rhs))
    }
}

impl Div<Number> for Angle {
    type Output = Angle;

    fn div(self, rhs: Number) -> (r: Angle) {
        Angle::wrap(Number::div(self.value, rhs))
    }
}

impl DivSpecImpl<Angle> for Angle {
    open spec fn obeys_div_spec() -> bool {
        true
    }

    open spec fn div_req(self, rhs: Angle) -> bool {
        true
    }

    open spec fn div_spec(self, rhs: Angle) -> Number {
        self.raw().over(rhs.raw())
    }
}

impl Div<Angle> for Angle {
    type Output = Number;

    fn div(self, rhs: Angle) -> (r: Number) {
        Number::div(self.value, rhs.value)
    }
}

impl Zero for Angle {
    open spec fn zero_spec() -> Angle {
        Angle::of(Number::zero_value())
    }

    fn zero() -> (r: Angle) {
        Angle::wrap(Number::zero())
    }
}

impl One for Angle {
    open spec fn one_spec() -> Angle {
        Angle::of(Number::one_value())
    }

    fn one() -> (r: Angle) {
        Angle::wrap(Number::one())
    }
}

impl Abs for Angle {
    type Output = Angle;

    open spec fn abs_spec(self) -> Angle {
        Angle::of(self.raw().magnitude())
    }

    fn abs(self) -> (r: Angle) {
        Angle::wrap(self.value.absolute())
    }
}

impl ApproxEq for Angle {
    open spec fn approx_eq_spec(&self, rhs: &Angle) -> bool {
        self.raw().close_to(rhs.raw())
    }

    fn approx_eq(&self, rhs: &Angle) -> (r: bool) {
        self.value.approx_eq(&rhs.value)
    }
}

impl Default for Angle {
    fn default() -> (r: Angle)
        ensures
            r == Angle::of(Number::zero_value()),
    {
        Angle::wrap(Number::zero())
    }
}

impl core::hash::Hash for Angle {
    /// Hashes the angle by its number of radians.
    fn hash<H: core::hash::Hasher>(&self, state: &mut H) {
        self.value.hash(state)
    }
}

impl PartialEqSpecImpl for Angle {
    open spec fn obeys_eq_spec() -> bool {
        true
    }

    open spec fn eq_spec(&self, other: &Angle) -> bool {
        self.raw().same_value(other.raw())
    }
}

impl PartialEq for Angle {
    fn eq(&self, other: &Angle) -> (r: bool) {
        self.value.equals(&other.value)
    }
}

impl PartialOrdSpecImpl for Angle {
    open spec fn obeys_partial_cmp_spec() -> bool {
        true
    }

    open spec fn partial_cmp_spec(&self, other: &Angle) -> Option<Ordering> {
        if self.raw().below(other.raw()) {
            Some(Ordering::Less)
        } else if other.raw().below(self.raw()) {
            Some(Ordering::Greater)
        } else {
            Some(Ordering::Equal)
        }
    }
}

impl PartialOrd for Angle {
    fn partial_cmp(&self, other: &Angle) -> (r: Option<Ordering>) {
        if self.value.less_than(&other.value) {
            Some(Ordering::Less)
        } else if other.value.less_than(&self.value) {
            Some(Ordering::Greater)
        } else {
            Some(Ordering::Equal)
        }
    }
}

pub type Millimeters = PerCanonical<Length, 10000, 1>;

pub type Centimeters = PerCanonical<Length, 1000, 1>;

pub type Meters = OfCanonical<Length, 1, 0>;

pub type Kilometers = OfCanonical<Length, 10000, 1>;

pub type Inches = PerCanonical<Length, 393700787401575, 13>;

pub type Feet = OfCanonical<Length, 3048, 4>;

pub type Yards = OfCanonical<Length, 9144, 4>;

pub type Miles = OfCanonical<Length, 1609344, 3>;

pub type NauticalMiles = OfCanonical<Length, 18520, 1>;

pub type SquareMillimeters = PerCanonical<Area, 10000000, 1>;

pub type SquareCentimeters = PerCanonical<Area, 100000, 1>;

pub type SquareMeters = OfCanonical<Area, 1, 0>;

pub type SquareKilometers = OfCanonical<Area, 10000000, 1>;

pub type SquareInches = PerCanonical<Area, 15500031000062, 10>;

pub type SquareFeet = PerCanonical<Area, 107639104167097, 13>;

pub type SquareYards = OfCanonical<Area, 83612736, 8>;

pub type Acres = OfCanonical<Area, 40468564224, 7>;

pub type Milliliters = PerCanonical<Volume, 10000000, 1>;

pub type Liters = PerCanonical<Volume, 10000, 1>;

pub type CubicMillimeters = PerCanonical<Volume, 10000000000, 1>;

pub type CubicCentimeters = PerCanonical<Volume, 10000000, 1>;

pub type CubicMeters = OfCanonical<Volume, 1, 0>;

pub type CubicKilometers = OfCanonical<Volume, 10000000000, 1>;

pub type CubicInches = PerCanonical<Volume, 610237440947323, 10>;

pub type CubicFeet = PerCanonical<Volume, 353146667214886, 13>;

pub type CubicYards = PerCanonical<Volume, 130795061931439, 14>;

pub type FluidOunces = PerCanonical<Volume, 33814022701843, 9>;

pub type Pints = PerCanonical<Volume, 211337641886519, 11>;

pub type Quarts = PerCanonical<Volume, 105668820943259, 11>;

pub type Gallons = PerCanonical<Volume, 264172052358148, 12>;

pub type Radians = OfCanonical<Angle, 1, 0>;

/// A degree is pi over 180 radians.
pub type Degrees = OfCanonical<Angle, 1745329251994329576923690768488612713, 38>;

/// A full turn is two pi radians.
pub type Rotations = OfCanonical<Angle, 62831853071795864769252867665590057684, 37>;

impl MulSpecImpl<Length> for Length {
    open spec fn obeys_mul_spec() -> bool {
        true
    }

    open spec fn mul_req(self, rhs: Length) -> bool {
        true
    }

    open spec fn mul_spec(self, rhs: Length) -> Area {
        Area::of(self.raw().times(rhs.raw()))
    }
}

impl Mul<Length> for Length {
    type Output = Area;

    fn mul(self, rhs: Length) -> (r: Area) {
        Area::wrap(Number::mul(self.value, rhs.value))
    }
}

impl MulSpecImpl<Area> for Length {
    open spec fn obeys_mul_spec() -> bool {
        true
    }

    open spec fn mul_req(self, rhs: Area) -> bool {
        true
    }

    open spec fn mul_spec(self, rhs: Area) -> Volume {
        Volume::of(self.raw().times(rhs.raw()))
    }
}

impl Mul<Area> for Length {
    type Output = Volume;

    fn mul(self, rhs: Area) -> (r: Volume) {
        Volume::wrap(Number::mul(self.value, rhs.value))
    }
}

impl MulSpecImpl<Length> for Area {
    open spec fn obeys_mul_spec() -> bool {
        true
    }

    open spec fn mul_req(self, rhs: Length) -> bool {
        true
    }

    open spec fn mul_spec(self, rhs: Length) -> Volume {
        Volume::of(self.raw().times(rhs.raw()))
    }
}

impl Mul<Length> for Area {
    type Output = Volume;

    fn mul(self, rhs: Length) -> (r: Volume) {
        Volume::wrap(Number::mul(self.value, rhs.value))
    }
}

impl DivSpecImpl<Length> for Area {
    open spec fn obeys_div_spec() -> bool {
        true
    }

    open spec fn div_req(self, rhs: Length) -> bool {
        true
    }

    open spec fn div_spec(self, rhs: Length) -> Length {
        Length::of(self.raw().over(rhs.raw()))
    }
}

impl Div<Length> for Area {
    type Output = Length;

    fn div(self, rhs: Length) -> (r: Length) {
        Length::wrap(Number::div(self.value, rhs.value))
    }
}

impl DivSpecImpl<Length> for Volume {
    open spec fn obeys_div_spec() -> bool {
        true
    }

    open spec fn div_req(self, rhs: Length) -> bool {
        true
    }

    open spec fn div_spec(self, rhs: Length) -> Area {
        Area::of(self.raw().over(rhs.raw()))
    }
}

impl Div<Length> for Volume {
    type Output = Area;

    fn div(self, rhs: Length) -> (r: Area) {
        Area::wrap(Number::div(self.value, rhs.value))
    }
}

impl DivSpecImpl<Area> for Volume {
    open spec fn obeys_div_spec() -> bool {
        true
    }

    open spec fn div_req(self, rhs: Area) -> bool {
        true
    }

    open spec fn div_spec(self, rhs: Area) -> Length {
        Length::of(self.raw().over(rhs.raw()))
    }
}

impl Div<Area> for Volume {
    type Output = Length;

    fn div(self, rhs: Area) -> (r: Length) {
        Length::wrap(Number::div(self.value, rhs.value))
    }
}

impl Sqrt for Length {
    type Output = Number;

    open spec fn sqrt_spec(self) -> Number {
        self.raw().root()
    }

    fn sqrt(self) -> (r: Number) {
        self.value.square_root()
    }
}

impl Sqrt for Area {
    type Output = Length;

    open spec fn sqrt_spec(self) -> Length {
        Length::of(self.raw().root())
    }

    fn sqrt(self) -> (r: Length) {
        Length::wrap(self.value.square_root())
    }
}

impl Sqrt for Volume {
    type Output = Area;

    open spec fn sqrt_spec(self) -> Area {
        Area::of(self.raw().root())
    }

    fn sqrt(self) -> (r: Area) {
        Area::wrap(self.value.square_root())
    }
}

/// A number of metres.
pub struct Meter(pub Number);

/// A number of millimetres.
pub struct Millimeter(pub Number);

/// A number of inches.
pub struct Inch(pub Number);

/// A number of feet.
pub struct Foot(pub Number);

/// A number of square metres.
pub struct SquareMeter(pub Number);

/// A number of square feet.
pub struct SquareFoot(pub Number);

/// A number of cubic metres.
pub struct CubicMeter(pub Number);

/// A number of cubic feet.
pub struct CubicFoot(pub Number);

impl FromSpecImpl<Meter> for Length {
    open spec fn obeys_from_spec() -> bool {
        true
    }

    open spec fn from_spec(value: Meter) -> Length {
        Length::of(value.0)
    }
}

impl From<Meter> for Length {
    fn from(value: Meter) -> (r: Length) {
        Length::wrap(value.0)
    }
}

impl FromSpecImpl<Millimeter> for Length {
    open spec fn obeys_from_spec() -> bool {
        true
    }

    open spec fn from_spec(value: Millimeter) -> Length {
        Length::of(value.0.times(ratio(1, 3)))
    }
}

impl From<Millimeter> for Length {
    fn from(value: Millimeter) -> (r: Length) {
        Length::wrap(Number::mul(value.0, ratio_number(1, 3)))
    }
}

impl FromSpecImpl<Inch> for Length {
    open spec fn obeys_from_spec() -> bool {
        true
    }

    open spec fn from_spec(value: Inch) -> Length {
        Length::of(value.0.times(ratio(254, 4)))
    }
}

impl From<Inch> for Length {
    fn from(value: Inch) -> (r: Length) {
        Length::wrap(Number::mul(value.0, ratio_number(254, 4)))
    }
}

impl FromSpecImpl<Foot> for Length {
    open spec fn obeys_from_spec() -> bool {
        true
    }

    open spec fn from_spec(value: Foot) -> Length {
        Length::of(value.0.times(ratio(3048, 4)))
    }
}

impl From<Foot> for Length {
    fn from(value: Foot) -> (r: Length) {
        Length::wrap(Number::mul(value.0, ratio_number(3048, 4)))
    }
}

impl FromSpecImpl<SquareMeter> for Area {
    open spec fn obeys_from_spec() -> bool {
        true
    }

    open spec fn from_spec(value: SquareMeter) -> Area {
        Area::of(value.0)
    }
}

impl From<SquareMeter> for Area {
    fn from(value: SquareMeter) -> (r: Area) {
        Area::wrap(value.0)
    }
}

impl FromSpecImpl<SquareFoot> for Area {
    open spec fn obeys_from_spec() -> bool {
        true
    }

    open spec fn from_spec(value: SquareFoot) -> Area {
        Area::of(value.0.times(ratio(9290304, 8)))
    }
}

impl From<SquareFoot> for Area {
    fn from(value: SquareFoot) -> (r: Area) {
        Area::wrap(Number::mul(value.0, ratio_number(9290304, 8)))
    }
}

impl FromSpecImpl<CubicMeter> for Volume {
    open spec fn obeys_from_spec() -> bool {
        true
    }

    open spec fn from_spec(value: CubicMeter) -> Volume {
        Volume::of(value.0)
    }
}

impl From<CubicMeter> for Volume {
    fn from(value: CubicMeter) -> (r: Volume) {
        Volume::wrap(value.0)
    }
}

impl FromSpecImpl<CubicFoot> for Volume {
    open spec fn obeys_from_spec() -> bool {
        true
    }

    open spec fn from_spec(value: CubicFoot) -> Volume {
        Volume::of(value.0.times(ratio(2831685, 8)))
    }
}

impl From<CubicFoot> for Volume {
    fn from(value: CubicFoot) -> (r: Volume) {
        Volume::wrap(Number::mul(value.0, ratio_number(2831685, 8)))
    }
}

} // verus!
