use villagekit::number::{Number, Sqrt};
use std::collections::HashSet;
use villagekit::number::{Abs, ApproxEq, One, Zero};
use villagekit::unit::{
    Angle, Area, CubicFoot, CubicMeter, CubicMeters, Degrees, Dimension, Feet, Foot, Inch, Inches, Kilometers,
    Length, Liters, Meter, Meters, Miles, Millimeter, Millimeters, Radians, Rotations, SquareFoot,
    SquareKilometers, SquareMeter, SquareMeters, UnitOf, Volume,
};

fn num(text: &str) -> Number {
    Number::parse(text).unwrap()
}

#[test]
fn convert_from_foot() {
    let expected = Length::from_canonical(num("3.048"));
    let actual: Length = Foot(num("10")).into();
    assert_eq!(expected, actual);
}

#[test]
fn convert_from_square_foot() {
    let expected = Area::from_canonical(num("2.7870912"));
    let actual: Area = SquareFoot(num("30")).into();
    assert_eq!(expected, actual);
}

#[test]
fn multiply_feet_to_square_feet() {
    let expected: Area = SquareFoot(num("25")).into();
    let height: Length = Foot(num("5")).into();
    let width: Length = Foot(num("5")).into();
    let actual: Area = height * width;
    assert_eq!(expected, actual);
}

#[test]
fn convert_from_cubic_foot() {
    let expected = Volume::from_canonical(num("1.699011"));
    let actual: Volume = CubicFoot(num("60")).into();
    assert_eq!(expected, actual);
}

#[test]
fn products_and_quotients_between_kinds() {
    let one = Length::from_scalar::<Meters>(num("1"));
    assert_eq!(one * one, Area::from_scalar::<SquareMeters>(num("1")));
    let volume = Volume::from_scalar::<CubicMeters>(num("8"));
    let area = Area::from_scalar::<SquareMeters>(num("2"));
    assert_eq!(volume / area, Length::from_scalar::<Meters>(num("4")));
    assert_eq!(volume / Length::from_scalar::<Meters>(num("4")), area);
    assert_eq!(area * Length::from_scalar::<Meters>(num("4")), volume);
    assert_eq!(Length::from_scalar::<Meters>(num("4")) * area, volume);
    assert_eq!(area / Length::from_scalar::<Meters>(num("2")), one);
    assert_eq!(Length::from_scalar::<Meters>(num("6")) / Length::from_scalar::<Meters>(num("3")), num("2"));
    assert_eq!(Area::from_scalar::<SquareMeters>(num("9")).sqrt(), Length::from_scalar::<Meters>(num("3")));
    assert_eq!(one + one, Length::from_scalar::<Meters>(num("2")));
    assert_eq!(one - one, Length::from_scalar::<Meters>(num("0")));
    assert_eq!(one * num("3"), Length::from_scalar::<Meters>(num("3")));
    assert_eq!(num("3") * one, Length::from_scalar::<Meters>(num("3")));
    assert_eq!(Length::from_scalar::<Meters>(num("3")) / num("3"), one);
    assert_eq!(-one, Length::from_scalar::<Meters>(num("-1")));
    assert!(one < Length::from_scalar::<Meters>(num("2")));
}

#[test]
fn units_convert_to_the_canonical_unit() {
    assert_eq!(Length::from_scalar::<Millimeters>(num("1500")).canonical(), num("1.5"));
    assert_eq!(Length::from_scalar::<Feet>(num("10")).canonical(), num("3.048"));
    assert_eq!(Length::from_scalar::<Meters>(num("2")).canonical(), num("2"));
    assert_eq!(Millimeters::from_scalar(num("40")).canonical(), num("0.04"));
    assert_eq!(Feet::from_scalar(num("1")).canonical(), num("0.3048"));
    let inch = (Length::from_scalar::<Inches>(num("1")).canonical() - num("0.0254")).absolute();
    assert!(inch < num("0.000000000000001"));
    let half_turn = Angle::from_scalar::<Degrees>(num("180"));
    let gap = (half_turn.canonical() - Number::pi()).absolute();
    assert!(gap < num("0.00000000000000000000000000000000001"));
    assert_eq!(Angle::from_scalar::<Radians>(num("2")).canonical(), num("2"));
}

#[test]
fn units_round_trip() {
    assert_eq!(Length::from_scalar::<Meters>(num("12.5")).to::<Meters>(), num("12.5"));
    assert_eq!(Length::from_scalar::<Feet>(num("10")).to::<Feet>(), num("10"));
    assert_eq!(Length::from_scalar::<Millimeters>(num("40")).to::<Millimeters>(), num("40"));
    let back = Length::from_scalar::<Inches>(num("7")).to::<Inches>();
    assert!((back - num("7")).absolute() < num("0.000000000000000000000000000000001"));
    assert_eq!(Length::from_scalar::<Meters>(num("3.048")).to::<Feet>(), num("10"));
}

#[test]
fn values_converted_without_rounding_come_back_unchanged() {
    let feet = Length::from_scalar::<Feet>(num("2.5"));
    assert!(matches!(feet.canonical(), Number::Finite { negative: false, digits: 76200, scale: 5 }));
    assert!(matches!(feet.to::<Feet>(), Number::Finite { negative: false, digits: 25, scale: 1 }));
    let miles = Length::from_scalar::<Miles>(num("-0.003"));
    assert!(matches!(miles.canonical(), Number::Finite { negative: true, digits: 4828032, scale: 6 }));
    assert!(matches!(miles.to::<Miles>(), Number::Finite { negative: true, digits: 3, scale: 3 }));
    let degrees = Angle::from_scalar::<Degrees>(num("9"));
    assert!(matches!(degrees.to::<Degrees>(), Number::Finite { negative: false, digits: 9, scale: 0 }));
}

#[test]
fn named_amounts_convert_to_quantities() {
    assert_eq!(Length::from(Meter(num("2"))).canonical(), num("2"));
    assert_eq!(Length::from(Millimeter(num("1500"))).canonical(), num("1.5"));
    assert_eq!(Length::from(Inch(num("100"))).canonical(), num("2.54"));
    assert_eq!(Area::from(SquareMeter(num("3"))).canonical(), num("3"));
    assert_eq!(Volume::from(CubicMeter(num("4"))).canonical(), num("4"));
}

#[test]
fn units_know_their_conversion() {
    assert_eq!(Feet::conversion_coefficient(), num("0.3048"));
    assert_eq!(Feet::conversion_constant(), num("0"));
    assert_eq!(Millimeters::conversion_coefficient(), num("0.001"));
    assert_eq!(Meters::conversion_coefficient(), num("1"));
    assert_eq!(Kilometers::from_scalar(num("2")).canonical(), num("2000"));
    assert_eq!(SquareKilometers::from_scalar(num("1")).canonical(), num("1000000"));
    assert_eq!(Liters::from_scalar(num("1000")).canonical(), num("1"));
    let turn = Angle::from_scalar::<Rotations>(num("0.5")).canonical();
    assert!((turn - Number::pi()).absolute() < num("0.0000000000000000000000000000000001"));
    let right = Angle::from_scalar::<Degrees>(num("90")).to::<Rotations>();
    assert!((right - num("0.25")).absolute() < num("0.0000000000000000000000000000000001"));
}

#[test]
fn quantities_compare_and_hash_by_value() {
    let a = Length::from_scalar::<Meters>(num("1.50"));
    let b = Length::from_scalar::<Millimeters>(num("1500"));
    assert_eq!(a, b);
    assert!(a.approx_eq(&b));
    let mut seen = HashSet::new();
    seen.insert(a.canonical().hash_key());
    assert!(seen.contains(&b.canonical().hash_key()));
    assert_eq!(Length::default(), Length::zero());
    assert_eq!(Length::one(), Length::from_scalar::<Meters>(num("1")));
    assert_eq!(Length::from_scalar::<Meters>(num("-3")).abs(), Length::from_scalar::<Meters>(num("3")));
    assert!(Length::from_scalar::<Meters>(num("1")) > Length::zero());
    assert!(Length::from_scalar::<Meters>(num("1")) <= Length::one());
}

#[test]
fn a_rounded_conversion_can_leave_the_tolerance() {
    let wide = num("123456789012345678901234567890.123456789");
    let back = Length::from_scalar::<Feet>(wide).to::<Feet>();
    assert!(!back.approx_eq(&wide));
    assert!((back - wide).absolute() < num("0.00000001"));
    let short = Length::from_scalar::<Feet>(num("17.25")).to::<Feet>();
    assert!(short.approx_eq(&num("17.25")));
}
