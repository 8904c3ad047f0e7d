use fastnum::D128;
use std::collections::HashSet;
use villagekit::number::{Abs, AbsSub, ApproxEq, HashKey, Number, One, ParseError, Sqrt, Trig, Zero};

fn num(text: &str) -> Number {
    Number::parse(text).unwrap()
}

#[test]
fn it_works() {
    let expected: Result<Number, ParseError> = Ok(num("0.2"));
    let actual = Number::parse("0.2");
    assert_eq!(expected, actual);

    let expected = num("1.56");
    let actual = num("1.30") * num("1.20");
    assert_eq!(expected, actual);
}

#[test]
fn parse_reads_sign_coefficient_and_scale() {
    assert!(matches!(num("0.2"), Number::Finite { negative: false, digits: 2, scale: 1 }));
    assert!(matches!(num("-12.50"), Number::Finite { negative: true, digits: 1250, scale: 2 }));
    assert!(matches!(num("5e3"), Number::Finite { negative: false, digits: 5, scale: -3 }));
    assert!(matches!(num("inf"), Number::Infinite { negative: false }));
    assert!(matches!(num("-Infinity"), Number::Infinite { negative: true }));
    assert!(matches!(num("NaN"), Number::NotANumber { .. }));
}

#[test]
fn parse_rejects_what_is_no_literal() {
    assert_eq!(Number::parse(""), Err(ParseError::Empty));
    assert_eq!(Number::parse("-"), Err(ParseError::Empty));
    assert_eq!(Number::parse("1.2.3"), Err(ParseError::InvalidLiteral));
    assert_eq!(Number::parse("hello"), Err(ParseError::InvalidLiteral));
    assert_eq!(Number::parse("1e"), Err(ParseError::Empty));
    assert_eq!(Number::parse("1e99999999999"), Err(ParseError::ExponentOverflow));
    assert_eq!(
        Number::parse("1234567890123456789012345678901234567890"),
        Err(ParseError::PosOverflow)
    );
    assert_eq!(
        Number::parse("-1234567890123456789012345678901234567890"),
        Err(ParseError::NegOverflow)
    );
    assert_eq!(Number::literal("hello"), None);
    assert_eq!(Number::literal("7"), Some(num("7")));
    assert_eq!(Number::parse_unchecked("7"), num("7"));
}

#[test]
fn text_round_trip() {
    for text in ["0", "-0", "1", "-1", "0.2", "1.5600", "123456.789", "-0.000001", "1e-20", "5e9", "1e30", "inf", "-inf"] {
        let n = num(text);
        let back = Number::parse(&n.to_string()).unwrap();
        assert_eq!(back, n, "{}", text);
    }
    assert!(matches!(Number::parse(&num("nan").to_string()), Ok(Number::NotANumber { .. })));
    assert_eq!(num("1.5600").to_string(), "1.5600");
    assert_eq!(num("-12.5").to_string(), "-12.5");
}

#[test]
fn text_of_a_wide_whole_number_is_no_literal() {
    let wide = num("34028236692093846346337460743176821145e3");
    assert!(matches!(
        wide,
        Number::Finite { negative: false, digits: 34028236692093846346337460743176821145, scale: -3 }
    ));
    assert_eq!(wide.to_string(), "34028236692093846346337460743176821145000");
    assert_eq!(Number::parse(&wide.to_string()), Err(ParseError::PosOverflow));
}

#[test]
fn arithmetic_is_exact_where_it_fits() {
    assert!(matches!(num("1.30") * num("1.20"), Number::Finite { negative: false, digits: 15600, scale: 4 }));
    assert!(matches!(num("1.5") + num("2.5"), Number::Finite { negative: false, digits: 40, scale: 1 }));
    assert!(matches!(num("1.5") - num("2.5"), Number::Finite { negative: true, digits: 10, scale: 1 }));
    assert!(matches!(num("2.5") - num("2.5"), Number::Finite { negative: false, digits: 0, scale: 1 }));
    assert!(matches!(num("-0") + num("-0"), Number::Finite { negative: true, digits: 0, scale: 0 }));
    assert!(matches!(num("-3") * num("0"), Number::Finite { negative: true, digits: 0, scale: 0 }));
    assert_eq!(num("7") + num("0.000"), num("7"));
    assert_eq!(num("0.000") + num("-7.5"), num("-7.5"));
    assert_eq!(num("7") - num("0.000"), num("7"));
    assert_eq!(num("8") / num("2"), num("4"));
    assert!(matches!(num("8.5") / num("1"), Number::Finite { negative: false, digits: 85, scale: 1 }));
    assert_eq!(Number::from_i64(-8), num("-8"));
    assert_eq!(-num("2"), num("-2"));
}

#[test]
fn sums_and_quotients_are_exact_where_they_fit() {
    assert!(matches!(num("1") - num("0.72"), Number::Finite { negative: false, digits: 28, scale: 2 }));
    assert!(matches!(num("0.72") - num("1"), Number::Finite { negative: true, digits: 28, scale: 2 }));
    assert!(matches!(num("1.5") + num("0.25"), Number::Finite { negative: false, digits: 175, scale: 2 }));
    assert!(matches!(num("8") / num("2"), Number::Finite { negative: false, digits: 4, scale: 0 }));
    assert!(matches!(num("-0.75") / num("0.25"), Number::Finite { negative: true, digits: 3, scale: 0 }));
    assert!(matches!(num("9") / num("0.03"), Number::Finite { negative: false, digits: 3, scale: -2 }));
}

fn fields(text: &str) -> String {
    format!("{:?}", Number::parse(text))
}

#[test]
fn long_exponent_texts_are_read() {
    assert_eq!(Number::parse("1e00000000005"), Ok(num("100000")));
    assert_eq!(fields("1e00000000005"), fields("1e5"));
    assert_eq!(Number::parse("1E+00000000001"), Ok(num("10")));
    assert_eq!(Number::parse("2.5e-000000000000000000003"), Ok(num("0.0025")));
    assert_eq!(Number::parse("15e-1"), Ok(Number::Finite { negative: false, digits: 15, scale: 1 }));
    assert_eq!(Number::parse("1.5E-0000003"), Ok(Number::Finite { negative: false, digits: 15, scale: 4 }));
    assert_eq!(Number::parse("1.5e9999999999"), Err(ParseError::ExponentOverflow));
    assert_eq!(Number::parse("1.5e-2147483649"), Err(ParseError::ExponentOverflow));
    assert_eq!(Number::parse("1.5e-99999999999"), Err(ParseError::ExponentOverflow));
    assert_eq!(Number::parse("1.5e2147483647"), Err(ParseError::PosOverflow));
    assert_eq!(Number::parse("-1.5e2147483647"), Err(ParseError::NegOverflow));
    assert!(Number::literal("1e-32767").is_some());
}

#[test]
fn literals_below_every_number_are_zeros() {
    assert_eq!(fields("1.5e-40000"), "Ok(Finite { negative: false, digits: 0, scale: 0 })");
    assert_eq!(fields("0.0e-40000"), "Ok(Finite { negative: false, digits: 0, scale: 32767 })");
    for (near, far) in [
        ("1.5e-2147483647", "1.5e-2147483648"),
        ("-1.5e-2147483647", "-1.5e-2147483648"),
        ("+0.0e-2147483647", "+0.0e-2147483648"),
        ("-0.000e-2147483645", "-0.0000e-2147483645"),
        ("-0.000e-2147483645", "-0_0.0_000e-0002147483645"),
        ("7.25e-2147483646", "7.255e-2147483646"),
        (".5e-2147483647", ".5e-2147483648"),
        ("1.5e-2147483647", "1.55E-2147483647"),
    ] {
        assert!(Number::read_beyond_backend(near).is_none(), "{}", near);
        assert!(Number::read_beyond_backend(far).is_some(), "{}", far);
        assert_eq!(fields(near), fields(far), "{} {}", near, far);
    }
    for text in [
        "1e-2147483648",
        "15.e-2147483648",
        "1.5e+2147483648",
        "1.5e-2147483649",
        "1.5e-21474836x8",
        "1.5e-",
        "1.5e",
        "1..5e-2147483648",
        "x.5e-2147483648",
        "1.5ee-2147483648",
        "1234567890123456789012345678901234567890.5e-2147483648",
        "34028236692093846346337460743176821145.6e-2147483648",
        "infinity",
        "nan",
        "",
        "-",
        "12345678901234567890.5",
    ] {
        assert!(Number::read_beyond_backend(text).is_none(), "{}", text);
        let _ = Number::parse(text);
    }
    assert_eq!(Number::parse("1.5e-21474836x8"), Err(ParseError::InvalidLiteral));
    assert_eq!(Number::parse("x.5e-2147483648"), Err(ParseError::InvalidLiteral));
    assert_eq!(
        Number::parse("1234567890123456789012345678901234567890.5e-2147483648"),
        Err(ParseError::PosOverflow)
    );
    assert_eq!(
        fields("34028236692093846346337460743176821145.5e-2147483648"),
        "Ok(Finite { negative: false, digits: 0, scale: 0 })"
    );
    assert_eq!(
        Number::parse("34028236692093846346337460743176821145.6e-2147483648"),
        Err(ParseError::PosOverflow)
    );
    assert_eq!(fields("1e-2147483648"), "Ok(Finite { negative: false, digits: 0, scale: 0 })");
    assert_eq!(Number::literal("1.5e-2147483648"), Some(num("0")));
}

#[test]
fn division_by_zero_does_not_fail() {
    assert!(matches!(num("1") / num("0"), Number::Infinite { negative: false }));
    assert!(matches!(num("-1") / num("0"), Number::Infinite { negative: true }));
    assert!(matches!(num("1") / num("-0"), Number::Infinite { negative: true }));
    assert!(matches!(num("inf") / num("0"), Number::Infinite { negative: false }));
    assert!(matches!(num("0") / num("0"), Number::NotANumber { negative: false }));
    assert!(matches!(num("-0.00") / num("0"), Number::NotANumber { negative: false }));
    assert!(matches!(num("inf") / num("inf"), Number::NotANumber { .. }));
    assert!(matches!(num("1") / num("inf"), Number::Finite { digits: 0, .. }));
}

#[test]
fn equality_is_numeric() {
    assert_eq!(num("1.0"), num("1.000"));
    assert_eq!(num("0"), num("-0"));
    assert_ne!(num("1"), num("-1"));
    assert_ne!(num("nan"), num("nan"));
    assert_eq!(num("inf"), num("inf"));
    assert_ne!(num("inf"), num("-inf"));
    assert_ne!(num("inf"), num("1"));
}

#[test]
fn order_goes_by_sign_then_magnitude() {
    assert!(num("1") < num("2"));
    assert!(num("-2") < num("-1"));
    assert!(num("-1") < num("0.5"));
    assert!(num("0.10") < num("0.2"));
    assert!(!(num("1.0") < num("1")));
    assert!(num("-0") < num("0"));
    assert!(num("5") < num("inf"));
    assert!(num("-inf") < num("-5"));
    assert!(num("inf") < num("nan"));
    assert!(num("2") > num("1"));
    assert!(num("1") <= num("1.0"));
    assert!(num("1") >= num("1.0"));
}

#[test]
fn sign_and_class() {
    assert_eq!(num("-3").absolute(), num("3"));
    assert_eq!(num("-3").abs(), num("3"));
    assert_eq!(num("3").negate(), num("-3"));
    assert!(num("0.00").is_zero_number());
    assert!(!num("0.01").is_zero_number());
    assert!(num("inf").is_infinite_number());
    assert!(num("nan").is_nan_number());
    assert!(num("1").is_finite_number());
    assert!(num("-1").is_sign_negative());
    assert!(matches!(Number::nan().absolute(), Number::NotANumber { negative: false }));
    assert!(matches!(Number::nan().negate().absolute(), Number::NotANumber { negative: true }));
    assert_eq!(Number::default(), num("0"));
}

#[test]
fn constants_are_the_backends() {
    assert_eq!(Number::zero().to_string(), D128::ZERO.to_string());
    assert_eq!(Number::one().to_string(), D128::ONE.to_string());
    assert_eq!(Number::two().to_string(), D128::TWO.to_string());
    assert_eq!(Number::half().to_string(), D128::HALF.to_string());
    assert_eq!(Number::quarter(), num("0.25"));
    assert_eq!(Number::pi().to_string(), D128::PI.to_string());
    assert_eq!(Number::frac_1_pi().to_string(), D128::FRAC_1_PI.to_string());
    assert_eq!(Number::frac_2_pi().to_string(), D128::FRAC_2_PI.to_string());
    assert_eq!(Number::frac_pi_2().to_string(), D128::FRAC_PI_2.to_string());
    assert_eq!(Number::frac_pi_3().to_string(), D128::FRAC_PI_3.to_string());
    assert_eq!(Number::frac_pi_4().to_string(), D128::FRAC_PI_4.to_string());
    assert_eq!(Number::epsilon().to_string(), D128::EPSILON.to_string());
    assert_eq!(Number::infinity().to_string(), D128::INFINITY.to_string());
    assert!(matches!(Number::epsilon(), Number::Finite { negative: false, digits: 1, scale: 38 }));
}

#[test]
fn square_roots() {
    assert_eq!(num("0").sqrt(), num("0"));
    assert_eq!(num("1").sqrt(), num("1"));
    assert_eq!(num("4").sqrt(), num("2"));
    assert_eq!(num("6.25").square_root(), num("2.5"));
    assert!(matches!(num("-1").sqrt(), Number::NotANumber { .. }));
    let gap = (num("2").sqrt() - num("1.41421356237309504880168872420969807")).absolute();
    assert!(gap < num("0.00000000000000000000000000000000001"));
    assert_eq!(num("3").hypot(num("4")), num("5"));
}

#[test]
fn approximate_equality() {
    assert!(num("1").approx_eq(&num("1.0")));
    assert!(num("1").approx_eq(&num("1.00000000000000000000000000000000000001")));
    assert!(!num("1").approx_eq(&num("1.0000000000000000000000000000000000001")));
    assert!(!num("1").approx_eq(&num("2")));
    assert!(!Number::nan().approx_eq(&Number::nan()));
}

#[test]
fn trigonometry_within_the_angle_range() {
    let close = |a: Number, b: &str| {
        let gap = (a - num(b)).absolute();
        assert!(gap < num("0.000000000000001"), "{} is not {}", a.to_string(), b);
    };
    close(num("0").sin(), "0");
    close(num("0").cos(), "1");
    close(Number::frac_pi_2().sin(), "1");
    close(Number::frac_pi_2().cos(), "0");
    close(Number::pi().cos(), "-1");
    close(Number::pi().sin(), "0");
    close(num("-1").sin(), "-0.8414709848078965");
    close(num("2").cos(), "-0.4161468365471424");
    close(num("7.5").sin(), "0.9379999767747389");
    close(num("-7.5").cos(), "0.3466353178350258");
    close(num("8").sin(), "0.9893582466233818");
    close(num("-8").cos(), "-0.1455000338086135");
    close(num("32").sin(), "0.5514266812416906");
    close(num("-32").sin(), "-0.5514266812416906");
    close(num("32").cos(), "0.8342233605065102");
    close(num("-32").cos(), "0.8342233605065102");
    close(num("20").sin(), "0.9129452507276277");
    close(num("1").tan(), "1.5574077246549023");
    close(num("0.5").asin(), "0.5235987755982989");
    close(num("0.5").acos(), "1.0471975511965979");
    close(num("-1").acos(), "3.1415926535897932");
    close(num("0.5").atan(), "0.4636476090008061");
    close(num("1").atan2(num("2")), "0.4636476090008061");
    close(num("1").atan2(num("-2")), "2.677945044588987");
    close(num("-1").atan2(num("-2")), "-2.677945044588987");
    close(num("3").atan2(num("0")), "1.5707963267948966");
    close(num("-3").atan2(num("0")), "-1.5707963267948966");
    assert_eq!(format!("{:?}", num("3").atan2(num("0"))), format!("{:?}", Number::frac_pi_2()));
    assert_eq!(format!("{:?}", num("-0").atan2(num("0"))), format!("{:?}", -Number::frac_pi_2()));
    close(num("1").atan2(num("-1")), "2.356194490192345");
    close(num("-1").atan2(num("-1")), "-2.356194490192345");
    close(num("0").atan2(num("-1")), "3.141592653589793");
    close(num("1").atan2(num("1")), "0.7853981633974483");
    let steep = Number::frac_pi_2().tan().absolute();
    assert!(steep > num("1e30"), "{:?}", steep);
    close(num("-1").tan(), "-1.5574077246549023");
    close(num("0").tan(), "0");
    let (s, c) = num("1").sin_cos();
    close(s, "0.8414709848078965");
    close(c, "0.5403023058681398");
}

#[test]
fn trigonometry_of_angles_beyond_a_turn() {
    let close = |a: Number, b: &str| {
        let gap = (a - num(b)).absolute();
        assert!(gap < num("0.000000000000001"), "{:?} is not close to {}", a, b);
    };
    close(num("33").sin(), "0.9999118601072672");
    close(num("33").cos(), "-0.0132767472230595");
    close(num("-33").sin(), "-0.9999118601072672");
    close(num("-33").cos(), "-0.0132767472230595");
    close(num("32.5").sin(), "0.8838704235458306");
    close(num("100").sin(), "-0.5063656411097588");
    close(num("-100").cos(), "0.8623188722876839");
    close(num("100").tan(), "-0.5872139151569291");
    close(num("1000").sin(), "0.8268795405320025");
    close(num("1e6").cos(), "0.9367521275331447");
    close(num("1000000").sin(), "-0.3499935021712930");
    close(num("62.831853071795864769252867665590057684").sin(), "0");
    let (s, c) = num("33").sin_cos();
    close(s, "0.9999118601072672");
    close(c, "0.0132767472230595");
    let far = num("1e3000").sin();
    assert!(far.is_finite_number() && far.absolute() <= Number::one());
    assert_eq!(format!("{:?}", num("33").reduce()), format!("{:?}", num("33.0000000000000000000000000000000000000") - num("31.4159265358979323846264338327950288420")));
    assert_eq!(format!("{:?}", num("5").reduce()), format!("{:?}", num("5")));
    assert!(num("-1e3000").reduce().is_sign_negative());
}

#[test]
fn trigonometry_outside_its_domain() {
    assert!(Number::infinity().sin().is_nan_number());
    assert!(Number::nan().cos().is_nan_number());
    assert!(Number::infinity().tan().is_nan_number());
    assert!(num("2").acos().is_nan_number());
    assert!(Number::nan().acos().is_nan_number());
    assert!(num("2").asin().is_nan_number());
    assert!(num("2").atan().is_nan_number());
    assert!(num("0").atan2(num("0")).is_nan_number());
    assert!(num("1").atan2(num("-0")).is_nan_number());
    assert!(num("2").atan2(num("-1")).is_nan_number());
    let (s, c) = Number::infinity().sin_cos();
    assert!(s.is_nan_number() && c.is_nan_number());
    assert!(num("32").within_angle_range());
    assert!(num("-32").within_angle_range());
    assert!(!num("32.01").within_angle_range());
    assert!(!num("-32.01").within_angle_range());
    assert!(num("-1").within_unit_range());
    assert!(!num("1.01").within_unit_range());
}

#[test]
fn equal_numbers_hash_alike() {
    assert_eq!(num("1.500").hash_key(), num("1.5").hash_key());
    assert_eq!(num("1.500").hash_key(), HashKey::Finite { negative: false, digits: 15, scale: 1 });
    assert_eq!(num("1500").hash_key(), HashKey::Finite { negative: false, digits: 15, scale: -2 });
    assert_eq!(num("-20").hash_key(), HashKey::Finite { negative: true, digits: 2, scale: -1 });
    assert_eq!(num("0.000").hash_key(), HashKey::Finite { negative: false, digits: 0, scale: 0 });
    assert_eq!(num("-0").hash_key(), num("0").hash_key());
    assert_eq!(num("inf").hash_key(), HashKey::PositiveInfinity);
    assert_eq!(num("-inf").hash_key(), HashKey::NegativeInfinity);
    assert_eq!(num("nan").hash_key(), HashKey::NotANumber);
    assert_eq!(Number::nan().negate().hash_key(), HashKey::NotANumber);
    assert_ne!(num("1.5").hash_key(), num("-1.5").hash_key());
    assert_ne!(num("1.5").hash_key(), num("15").hash_key());

    let mut seen = HashSet::new();
    seen.insert(num("2.50").hash_key());
    assert!(seen.contains(&num("2.5").hash_key()));
    assert!(!seen.contains(&num("2.51").hash_key()));
    seen.insert(num("inf").hash_key());
    seen.insert(num("nan").hash_key());
    assert_eq!(seen.len(), 3);
}

#[test]
fn positive_difference() {
    assert_eq!(num("5").abs_sub(num("3")), num("2"));
    assert_eq!(num("3").abs_sub(num("5")), num("0"));
    assert_eq!(num("3").abs_sub(num("3")), num("0"));
    assert_eq!(<Number as Zero>::zero(), num("0"));
    assert_eq!(<Number as One>::one(), num("1"));
}
