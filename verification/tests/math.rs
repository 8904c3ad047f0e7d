use villagekit::math::{x_axis, y_axis, z_axis, Affine2, Affine3, Matrix2, Matrix3, Quaternion, Transform3, Vector2, Vector3};
use villagekit::number::{ApproxEq, Number, Sqrt};
use villagekit::unit::{Length, Meters};

fn num(text: &str) -> Number {
    Number::parse(text).unwrap()
}

fn m(text: &str) -> Length {
    Length::from_scalar::<Meters>(num(text))
}

fn v(x: &str, y: &str, z: &str) -> Vector3<Number> {
    Vector3::new(num(x), num(y), num(z))
}

fn vm(x: &str, y: &str, z: &str) -> Vector3<Length> {
    Vector3::new(m(x), m(y), m(z))
}

fn close(a: Number, b: Number) -> bool {
    (a - b).absolute() < num("0.000000000000000000000000000001")
}

fn close_vector(a: Vector3<Number>, b: Vector3<Number>) -> bool {
    close(a.x, b.x) && close(a.y, b.y) && close(a.z, b.z)
}

fn close_lengths(a: Vector3<Length>, b: Vector3<Length>) -> bool {
    close(a.x / m("1"), b.x / m("1")) && close(a.y / m("1"), b.y / m("1")) && close(a.z / m("1"), b.z / m("1"))
}

fn close_matrix(a: Matrix3, b: Matrix3) -> bool {
    close_vector(a.x_axis, b.x_axis) && close_vector(a.y_axis, b.y_axis) && close_vector(a.z_axis, b.z_axis)
}

fn same_rotation(a: Quaternion, b: Quaternion) -> bool {
    let same = close(a.x, b.x) && close(a.y, b.y) && close(a.z, b.z) && close(a.w, b.w);
    let opposite = close(a.x, b.x.negate())
        && close(a.y, b.y.negate())
        && close(a.z, b.z.negate())
        && close(a.w, b.w.negate());
    same || opposite
}

#[test]
fn dot_product() {
    let a = Vector3::new(1, 2, 3);
    let b = Vector3::new(4, 5, 6);
    // 1*4 + 2*5 + 3*6 = 4 + 10 + 18 = 32
    assert_eq!(a.dot(&b), 32);
}

#[test]
fn cross_product() {
    let a = Vector3::new(1, 2, 3);
    let b = Vector3::new(4, 5, 6);
    // The cross product should be:
    // x = 2*6 - 3*5 = 12 - 15 = -3,
    // y = 3*4 - 1*6 = 12 - 6 = 6,
    // z = 1*5 - 2*4 = 5 - 8 = -3.
    let cross = a.cross(&b);
    assert_eq!(cross, Vector3::new(-3, 6, -3));
}

#[test]
fn length_of_vector_with_units() {
    let expected = m("10") * num("3").sqrt();
    let v = Vector3::new(m("10"), m("10"), m("10"));
    let actual = v.length();
    assert_eq!(expected, actual);
}

#[test]
fn determinant_of_identity_matrix() {
    let expected = num("1");
    let matrix = Matrix3::identity();
    let actual = matrix.determinant();
    assert_eq!(expected, actual);
}

#[test]
fn determinant_of_singular_matrix() {
    let expected = num("0");
    let matrix = Matrix3::from_rows(v("1", "2", "3"), v("4", "5", "6"), v("7", "8", "9"));
    let actual = matrix.determinant();
    assert_eq!(expected, actual);
}

#[test]
fn determinant_of_lower_triagular_matrix() {
    let expected = num("7") * num("2") * num("5");
    let matrix = Matrix3::from_rows(v("7", "0", "0"), v("1", "2", "0"), v("3", "4", "5"));
    let actual = matrix.determinant();
    assert_eq!(expected, actual);
}

#[test]
fn determinant_of_upper_triangular_matrix() {
    let expected = num("5") * num("3") * num("6");
    let matrix = Matrix3::from_rows(v("5", "2", "-1"), v("0", "3", "4"), v("0", "0", "6"));
    let actual = matrix.determinant();
    assert_eq!(expected, actual);
}

#[test]
fn determinant_of_random_positive_matrix() {
    let expected = num("-33");
    let matrix = Matrix3::from_rows(v("3", "1", "4"), v("2", "0", "5"), v("7", "8", "6"));
    let actual = matrix.determinant();
    assert_eq!(expected, actual);
}

#[test]
fn determinant_of_random_negative_matrix() {
    let expected = num("139");
    let matrix = Matrix3::from_rows(v("-3", "1", "2"), v("0", "-4", "5"), v("7", "8", "-6"));
    let actual = matrix.determinant();
    assert_eq!(expected, actual);
}

#[test]
fn vectors_add_subtract_and_scale() {
    assert_eq!(v("1", "2", "3") + v("4", "5", "6"), v("5", "7", "9"));
    assert_eq!(v("1", "2", "3") - v("4", "5", "6"), v("-3", "-3", "-3"));
    assert_eq!(v("1", "2", "3") * num("2"), v("2", "4", "6"));
    assert_eq!(num("2") * v("1", "2", "3"), v("2", "4", "6"));
    assert_eq!(v("2", "4", "6") / num("2"), v("1", "2", "3"));
    assert_eq!(v("1", "2", "3").multiply_scalar(num("0.5")), v("0.5", "1", "1.5"));
    assert_eq!(v("1", "2", "3").divide_scalar(num("4")), v("0.25", "0.5", "0.75"));
    assert_eq!(v("3", "0", "4").length(), num("5"));
    assert_eq!(v("1", "2", "3").dot(&v("4", "5", "6")), num("32"));
    assert_eq!(v("1", "2", "3").cross(&v("4", "5", "6")), v("-3", "6", "-3"));
    assert!(v("1", "2", "3").approx_eq(&v("1.0", "2.0", "3.0")));
    let two = Vector2::new(1, 2);
    assert_eq!((two.x, two.y), (1, 2));
}

#[test]
fn normalize_keeps_the_zero_vector() {
    assert_eq!(v("0", "0", "0").normalize(), v("0", "0", "0"));
    assert_eq!(v("0.00", "-0", "0").normalize(), v("0", "0", "0"));
    assert_eq!(v("3", "0", "4").normalize(), v("0.6", "0", "0.8"));
    assert_eq!(v("0", "0", "2").normalize(), v("0", "0", "1"));
    assert_eq!(vm("0", "0", "0").normalize(), vm("0", "0", "0"));
    assert_eq!(vm("0", "5", "0").normalize(), vm("0", "1", "0"));
}

#[test]
fn quaternion_product_is_hamiltons() {
    let i = Quaternion::new(num("1"), num("0"), num("0"), num("0"));
    let j = Quaternion::new(num("0"), num("1"), num("0"), num("0"));
    let k = Quaternion::new(num("0"), num("0"), num("1"), num("0"));
    assert!(i.multiply(j).equals(&k));
    assert!(j.multiply(k).equals(&i));
    assert!(k.multiply(i).equals(&j));
    assert!(j.multiply(i).equals(&k.multipy_scalar(num("-1"))));
    assert!(i.premultiply(j).equals(&j.multiply(i)));
    assert!((i * j).equals(&k));
    assert!(i.multiply(i).equals(&Quaternion::new(num("0"), num("0"), num("0"), num("-1"))));
    assert!(Quaternion::identity().multiply(k).equals(&k));
    assert!(Quaternion::default().equals(&Quaternion::identity()));
}

#[test]
fn quaternion_length_and_normalize() {
    let q = Quaternion::new(num("1"), num("2"), num("2"), num("4"));
    assert_eq!(q.length(), num("5"));
    assert!(q.normalize().equals(&Quaternion::new(num("0.2"), num("0.4"), num("0.4"), num("0.8"))));
    let zero = Quaternion::new(num("0"), num("0"), num("0"), num("0"));
    assert!(zero.normalize().equals(&Quaternion::identity()));
}

#[test]
fn quaternion_from_axis_angle_normalizes_the_axis() {
    let a = Quaternion::from_axis_angle(v("0", "0", "5"), Number::frac_pi_2());
    let b = Quaternion::from_axis_angle(z_axis(), Number::frac_pi_2());
    assert!(same_rotation(a, b));
    let half = num("0.70710678118654752440084436210484903928");
    assert!(same_rotation(b, Quaternion::new(num("0"), num("0"), half, half)));
    let none = Quaternion::from_axis_angle(x_axis(), num("0"));
    assert!(same_rotation(none, Quaternion::identity()));
}

#[test]
fn rotations_compose_right_to_left() {
    let about_z = Quaternion::from_axis_angle(z_axis(), Number::frac_pi_2());
    let about_x = Quaternion::from_axis_angle(x_axis(), Number::frac_pi_2());
    let turned = x_axis().multiply_quaternion(about_x.multiply(about_z));
    assert!(close_vector(turned, v("0", "0", "1")));
    let other = x_axis().multiply_quaternion(about_z.multiply(about_x));
    assert!(close_vector(other, v("0", "1", "0")));
    assert!(close_vector(y_axis().multiply_quaternion(about_z), v("-1", "0", "0")));
    assert!(close_lengths(vm("2", "0", "0").multiply_quaternion(about_z), vm("0", "2", "0")));
}

#[test]
fn matrix_products_and_transpose() {
    let a = Matrix3::from_rows(v("1", "2", "3"), v("4", "5", "6"), v("7", "8", "10"));
    let i = Matrix3::identity();
    assert!(close_matrix(a.mul_matrix3(i), a));
    assert!(close_matrix(i.mul_matrix3(a), a));
    assert_eq!(a.mul_vector3(v("1", "0", "0")), v("1", "4", "7"));
    assert_eq!(a.mul_vector3(v("1", "1", "1")), v("6", "15", "25"));
    assert_eq!(a.row(0), v("1", "2", "3"));
    assert_eq!(a.row(1), v("4", "5", "6"));
    assert_eq!(a.row(2), v("7", "8", "10"));
    assert!(close_matrix(a.transpose(), Matrix3::from_cols(v("1", "2", "3"), v("4", "5", "6"), v("7", "8", "10"))));
    assert!(close_matrix(a.transpose().transpose(), a));
    let b = Matrix3::from_diagonal(v("2", "3", "4"));
    assert!(close_matrix(a.mul_matrix3(b), Matrix3::from_rows(v("2", "6", "12"), v("8", "15", "24"), v("14", "24", "40"))));
    assert!(close_matrix(a.add_matrix3(i), Matrix3::from_rows(v("2", "2", "3"), v("4", "6", "6"), v("7", "8", "11"))));
    assert!(close_matrix(a.sub_matrix3(i), Matrix3::from_rows(v("0", "2", "3"), v("4", "4", "6"), v("7", "8", "9"))));
    assert!(close_matrix(a.mul_number(num("2")), Matrix3::from_rows(v("2", "4", "6"), v("8", "10", "12"), v("14", "16", "20"))));
    assert!(close_matrix(a + i - i, a));
    assert!(close_matrix(num("2") * a, a * num("2")));
    assert!(close_matrix(a * i, a));
    assert!(close_matrix(Matrix3::default(), i));
    let mut c = Matrix3::zero();
    c.set(a);
    assert!(close_matrix(c, a));
    let two = Matrix2::from_rows(Vector2::new(num("1"), num("2")), Vector2::new(num("3"), num("4")));
    assert_eq!(two.x_axis.y, num("3"));
    assert_eq!(Matrix2::identity().y_axis.y, num("1"));
    assert_eq!(Matrix2::from_cols(Vector2::new(num("1"), num("2")), Vector2::new(num("3"), num("4"))).y_axis.x, num("3"));
    let scale: Affine2<Length> = Affine2::from_scale(Vector2::new(num("2.5"), num("2.5")));
    assert_eq!(scale.matrix2.x_axis.x, num("2.5"));
    assert_eq!(scale.translation.x, m("0"));
    let same: Affine2<Length> = Affine2::identity();
    assert_eq!(same.matrix2.y_axis.y, num("1"));
}

#[test]
fn matrix_inverse() {
    let a = Matrix3::from_rows(v("2", "0", "0"), v("0", "4", "0"), v("1", "0", "5"));
    assert!(close_matrix(a.mul_matrix3(a.inverse()), Matrix3::identity()));
    assert!(close_matrix(a.inverse().mul_matrix3(a), Matrix3::identity()));
    let singular = Matrix3::from_rows(v("1", "2", "3"), v("4", "5", "6"), v("7", "8", "9"));
    assert!(close_matrix(singular.inverse(), Matrix3::zero()));
}

#[test]
fn matrix_to_quaternion_takes_each_branch() {
    let turns = [
        (v("0", "0", "1"), num("0.5")),
        (v("1", "0", "0"), Number::pi()),
        (v("0", "1", "0"), Number::pi()),
        (v("0", "0", "1"), Number::pi()),
        (v("1", "2", "3"), num("2.5")),
        (v("3", "1", "0"), num("3")),
        (v("0", "1", "3"), num("-3")),
    ];
    for (axis, angle) in turns {
        let q = Quaternion::from_axis_angle(axis, angle);
        let back = Matrix3::from_quaternion(q).to_quaternion();
        assert!(same_rotation(q, back));
        let again: Quaternion = Matrix3::from_axis_angle(axis, angle).into();
        assert!(same_rotation(q, again));
    }
    assert!(same_rotation(Matrix3::identity().to_quaternion(), Quaternion::identity()));
    let about_x = Matrix3::from_diagonal(v("1", "-1", "-1")).to_quaternion();
    assert!(same_rotation(about_x, Quaternion::new(num("1"), num("0"), num("0"), num("0"))));
    let about_y = Matrix3::from_diagonal(v("-1", "1", "-1")).to_quaternion();
    assert!(same_rotation(about_y, Quaternion::new(num("0"), num("1"), num("0"), num("0"))));
    let about_z = Matrix3::from_diagonal(v("-1", "-1", "1")).to_quaternion();
    assert!(same_rotation(about_z, Quaternion::new(num("0"), num("0"), num("1"), num("0"))));
}

#[test]
fn matrix_to_rotation_and_scale() {
    let rotation = Quaternion::from_axis_angle(v("0", "0", "1"), num("0.5"));
    let m3 = Matrix3::from_quaternion(rotation).mul_matrix3(Matrix3::from_diagonal(v("2", "3", "4")));
    let (q, s) = m3.to_rotation_scale();
    assert!(same_rotation(q, rotation));
    assert!(close_vector(s, v("2", "3", "4")));

    let (q, s) = Matrix3::identity().to_rotation_scale();
    assert!(same_rotation(q, Quaternion::identity()));
    assert_eq!(s, v("1", "1", "1"));

    let mirrored = Matrix3::from_diagonal(v("-2", "3", "4"));
    let (q, s) = mirrored.to_rotation_scale();
    assert!(close_vector(s, v("-2", "3", "4")));
    assert!(same_rotation(q, Quaternion::identity()));

    let flat = Matrix3::from_diagonal(v("2", "0", "4"));
    let (_, s) = flat.to_rotation_scale();
    assert_eq!(s, v("2", "0", "4"));
}

#[test]
fn mirror_reflects_along_the_axis() {
    let mirror = Matrix3::from_mirror_axis(v("0", "0", "3"));
    assert!(close_matrix(mirror, Matrix3::from_diagonal(v("1", "1", "-1"))));
    assert!(close_vector(mirror.mul_vector3(v("1", "2", "3")), v("1", "2", "-3")));
    assert!(close_matrix(mirror.mul_matrix3(mirror), Matrix3::identity()));
    let outer = Matrix3::from_outer(v("1", "2", "3"), v("4", "5", "6"));
    assert_eq!(outer.row(1), v("8", "10", "12"));
}

#[test]
fn affine_translate_rotate_scale() {
    let t = Affine3::identity().translate(m("1"), m("2"), m("3")).translate(m("1"), m("0"), m("0"));
    assert_eq!(t.translation, vm("2", "2", "3"));
    assert!(close_matrix(t.matrix, Matrix3::identity()));

    let scaled = Affine3::default().scale(v("2", "3", "4"));
    assert!(close_matrix(scaled.matrix, Matrix3::from_diagonal(v("2", "3", "4"))));

    let quarter = Quaternion::from_axis_angle(z_axis(), Number::frac_pi_2());
    let spun = Affine3::identity().rotate_with_quaternion(quarter);
    assert!(close_matrix(spun.matrix, Matrix3::from_quaternion(quarter)));

    let built = Affine3::from_translation_rotation_scale(vm("1", "2", "3"), quarter, v("2", "2", "2"));
    let (translation, rotation, scale) = built.to_translation_rotation_scale();
    assert_eq!(translation, vm("1", "2", "3"));
    assert!(same_rotation(rotation, quarter));
    assert!(close_vector(scale, v("2", "2", "2")));

    let mirrored = Affine3::identity().mirror(x_axis());
    assert!(close_matrix(mirrored.matrix, Matrix3::from_diagonal(v("-1", "1", "1"))));
}

#[test]
fn affine_rotate_turns_about_the_origin_given() {
    let start = Affine3::identity().translate(m("2"), m("0"), m("0"));
    let turned = start.rotate(z_axis(), Number::frac_pi_2(), Some(vm("1", "0", "0")));
    assert!(close_lengths(turned.translation, vm("1", "1", "0")));
    let about_zero = start.rotate(z_axis(), Number::frac_pi_2(), None);
    assert!(close_lengths(about_zero.translation, vm("0", "2", "0")));
    assert!(close_matrix(about_zero.matrix, Matrix3::from_axis_angle(z_axis(), Number::frac_pi_2())));
}

#[test]
fn affine_rotate_by_half_a_turn_twice_is_the_start() {
    let start = Affine3::from_translation_rotation_scale(
        vm("2", "-1", "0.5"),
        Quaternion::from_axis_angle(v("1", "1", "0"), num("0.3")),
        v("1", "2", "3"),
    );
    let origin = Some(vm("1", "0", "4"));
    let once = start.rotate(v("0", "1", "1"), Number::pi(), origin);
    let twice = once.rotate(v("0", "1", "1"), Number::pi(), origin);
    assert!(close_lengths(twice.translation, start.translation));
    assert!(close_matrix(twice.matrix, start.matrix));
    assert!(!close_lengths(once.translation, start.translation));
}

#[test]
fn affine_change_basis() {
    let start = Affine3::from_translation_rotation_scale(
        vm("1", "2", "3"),
        Quaternion::from_axis_angle(v("1", "2", "3"), num("0.7")),
        v("1", "2", "3"),
    );
    let same = start.change_basis(Matrix3::identity());
    assert_eq!(same.translation, start.translation);
    assert_eq!(same.matrix.x_axis, start.matrix.x_axis);
    assert_eq!(same.matrix.y_axis, start.matrix.y_axis);
    assert_eq!(same.matrix.z_axis, start.matrix.z_axis);

    let swap = Matrix3::from_cols(y_axis(), z_axis(), x_axis());
    let moved = Affine3::identity().translate(m("1"), m("2"), m("3")).scale(v("2", "3", "4")).change_basis(swap);
    assert!(close_lengths(moved.translation, vm("2", "3", "1")));
    assert!(close_matrix(moved.matrix, Matrix3::from_diagonal(v("3", "4", "2"))));
}

#[test]
fn transform3_rotates_in_place() {
    let quarter = Quaternion::from_axis_angle(z_axis(), Number::frac_pi_2());
    let mut t = Transform3::from_translation_rotation_scale(vm("2", "0", "0"), Quaternion::identity(), v("1", "1", "1"));
    t.rotate_on_axis(vm("1", "0", "0"), z_axis(), Number::frac_pi_2());
    assert!(close_lengths(t.translation, vm("1", "1", "0")));
    let (translation, rotation, scale) = t.to_translation_rotation_scale();
    assert!(close_lengths(translation, vm("1", "1", "0")));
    assert!(same_rotation(rotation, quarter));
    assert!(close_vector(scale, v("1", "1", "1")));
}

#[test]
fn matrices_apply_to_lengths() {
    let a = Matrix3::from_rows(v("1", "2", "3"), v("4", "5", "6"), v("7", "8", "10"));
    assert_eq!(a.mul_lengths(vm("1", "1", "1")), vm("6", "15", "25"));
    assert_eq!(a.apply(vm("1", "0", "2")), vm("7", "16", "27"));
    assert_eq!(a.apply(v("1", "0", "2")), v("7", "16", "27"));
    assert_eq!(Matrix3::identity().mul_lengths(vm("1.5", "-2", "0.25")), vm("1.5", "-2", "0.25"));
}

#[test]
fn every_finite_angle_gives_a_rotation() {
    let near = |a: Number, b: &str| (a - num(b)).absolute() < num("0.00000000000001");
    let q = Quaternion::from_axis_angle(z_axis(), num("66"));
    assert!(near(q.w, "-0.013276747223059479"));
    assert!(near(q.z, "0.9999118601072672"));
    assert!(near(q.x, "0") && near(q.y, "0"));
    let turned = Quaternion::from_axis_angle(z_axis(), num("66") - num("62.831853071795864769252867665590057684"));
    assert!(near(turned.w, "-0.013276747223059479") && near(turned.z, "0.9999118601072672"));
    let back = Quaternion::from_axis_angle(v("0", "3", "0"), num("-1000"));
    assert!(near(back.w, "-0.883849273431478"));
    assert!(near(back.y, "0.46777180532247614"));
    let m3 = Matrix3::from_axis_angle(x_axis(), num("100"));
    assert!(near(m3.y_axis.y, "0.8623188722876839"));
}

#[test]
fn a_column_of_zeros_has_the_scale_zero() {
    let flat = Matrix3::from_cols(v("2", "0", "0"), v("0.00", "0", "-0"), v("0", "0", "3"));
    let (_, scale) = flat.to_rotation_scale();
    assert!(scale.y.is_zero_number());
    assert_eq!(scale.x, num("2"));
    assert_eq!(scale.z, num("3"));
    assert!(v("0", "0.000", "-0").length().is_zero_number());
    let wide = Number::Finite { negative: false, digits: 0, scale: 30000 };
    let zero = wide * wide;
    assert!(matches!(zero, Number::Finite { negative: false, digits: 0, scale: 32767 }));
    let deep = Number::Finite { negative: true, digits: 0, scale: -30000 };
    assert!(matches!(deep * deep, Number::Finite { negative: false, digits: 0, scale: -32768 }));
    assert!(matches!(deep * num("7.5"), Number::Finite { negative: true, digits: 0, scale: -29999 }));
}

#[test]
fn a_quaternion_through_a_matrix_can_leave_the_tolerance() {
    let q = Quaternion::from_axis_angle(v("2", "-1", "5"), num("1.9"));
    let back = Matrix3::from_quaternion(q).to_quaternion();
    assert!(same_rotation(q, back));
    assert!(!back.z.approx_eq(&q.z) && !back.z.approx_eq(&q.z.negate()));
}
