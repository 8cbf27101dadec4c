use ray_tracer::fx::Fx;
use ray_tracer::matrix::Matrix2;
use ray_tracer::matrix::Matrix3;
use ray_tracer::matrix::Matrix4;
use ray_tracer::tuple::Tuple;

fn fx(v: f64) -> Fx {
    Fx::from_bits((v * 4294967296.0).round() as i64)
}

fn mat4(m: [f64; 16]) -> Matrix4 {
    Matrix4::new(
        fx(m[0]),
        fx(m[1]),
        fx(m[2]),
        fx(m[3]),
        fx(m[4]),
        fx(m[5]),
        fx(m[6]),
        fx(m[7]),
        fx(m[8]),
        fx(m[9]),
        fx(m[10]),
        fx(m[11]),
        fx(m[12]),
        fx(m[13]),
        fx(m[14]),
        fx(m[15]),
    )
}

fn tuple(x: f64, y: f64, z: f64, w: f64) -> Tuple {
    Tuple::new(fx(x), fx(y), fx(z), fx(w))
}

#[test]
fn constructing_and_inspecting_a_4x4_matrix() {
    let m = mat4([
        1.0, 2.0, 3.0, 4.0, 5.5, 6.5, 7.5, 8.5, 9.0, 10.0, 11.0, 12.0, 13.5, 14.5, 15.5, 16.5,
    ]);
    assert!(m.get(0, 0).fuzzy_eq(fx(1.0)));
    assert!(m.get(0, 3).fuzzy_eq(fx(4.0)));
    assert!(m.get(1, 0).fuzzy_eq(fx(5.5)));
    assert!(m.get(1, 2).fuzzy_eq(fx(7.5)));
    assert!(m.get(2, 2).fuzzy_eq(fx(11.0)));
    assert!(m.get(3, 0).fuzzy_eq(fx(13.5)));
    assert!(m.get(3, 2).fuzzy_eq(fx(15.5)));
}

#[test]
fn multiplying_two_matrices() {
    let a = mat4([
        1.0, 2.0, 3.0, 4.0, 5.0, 6.0, 7.0, 8.0, 9.0, 8.0, 7.0, 6.0, 5.0, 4.0, 3.0, 2.0,
    ]);
    let b = mat4([
        -2.0, 1.0, 2.0, 3.0, 3.0, 2.0, 1.0, -1.0, 4.0, 3.0, 6.0, 5.0, 1.0, 2.0, 7.0, 8.0,
    ]);
    let expected = mat4([
        20.0, 22.0, 50.0, 48.0, 44.0, 54.0, 114.0, 108.0, 40.0, 58.0, 110.0, 102.0, 16.0, 26.0,
        46.0, 42.0,
    ]);
    assert!(a.mul(b).fuzzy_eq(&expected));
}

#[test]
fn multiplying_a_matrix_by_a_tuple() {
    let a = mat4([
        1.0, 2.0, 3.0, 4.0, 2.0, 4.0, 4.0, 2.0, 8.0, 6.0, 4.0, 1.0, 0.0, 0.0, 0.0, 1.0,
    ]);
    let t = tuple(1.0, 2.0, 3.0, 1.0);
    assert!(a.mul_tuple(t).fuzzy_eq(tuple(18.0, 24.0, 33.0, 1.0)));
}

#[test]
fn multiplying_by_the_identity_matrix_changes_nothing() {
    let a = mat4([
        0.0, 1.0, 2.0, 4.0, 1.0, 2.0, 4.0, 8.0, 2.0, 4.0, 8.0, 16.0, 4.0, 8.0, 16.0, 32.0,
    ]);
    assert!(Matrix4::identity().mul(a).fuzzy_eq(&a));
    let t = tuple(1.0, 2.0, 3.0, 4.0);
    // An exact equality: multiplying a tuple by the identity rounds nowhere.
    assert_eq!(Matrix4::identity().mul_tuple(t), t);
}

#[test]
fn transposing_a_matrix() {
    let a = mat4([
        0.0, 9.0, 3.0, 0.0, 9.0, 8.0, 0.0, 8.0, 1.0, 8.0, 5.0, 3.0, 0.0, 0.0, 5.0, 8.0,
    ]);
    let expected = mat4([
        0.0, 9.0, 1.0, 0.0, 9.0, 8.0, 8.0, 0.0, 3.0, 0.0, 5.0, 5.0, 0.0, 8.0, 3.0, 8.0,
    ]);
    assert!(a.transpose().fuzzy_eq(&expected));
    assert!(Matrix4::identity().transpose().fuzzy_eq(&Matrix4::identity()));
}

#[test]
fn a_submatrix_of_a_4x4_matrix_is_a_3x3_matrix() {
    let m = mat4([
        -6.0, 1.0, 1.0, 6.0, -8.0, 5.0, 8.0, 6.0, -1.0, 0.0, 8.0, 2.0, -7.0, 1.0, -1.0, 1.0,
    ]);
    let sub = m.submatrix(2, 1);
    assert!(sub.get(0, 0).fuzzy_eq(fx(-6.0)));
    assert!(sub.get(0, 2).fuzzy_eq(fx(6.0)));
    assert!(sub.get(1, 1).fuzzy_eq(fx(8.0)));
    assert!(sub.get(2, 2).fuzzy_eq(fx(1.0)));
}

#[test]
fn a_submatrix_of_a_3x3_matrix_is_a_2x2_matrix() {
    let m = Matrix3::new(
        fx(1.0),
        fx(5.0),
        fx(0.0),
        fx(-3.0),
        fx(2.0),
        fx(7.0),
        fx(0.0),
        fx(6.0),
        fx(-3.0),
    );
    let sub = m.submatrix(0, 2);
    assert!(sub.get(0, 0).fuzzy_eq(fx(-3.0)));
    assert!(sub.get(0, 1).fuzzy_eq(fx(2.0)));
    assert!(sub.get(1, 0).fuzzy_eq(fx(0.0)));
    assert!(sub.get(1, 1).fuzzy_eq(fx(6.0)));
}

#[test]
fn determinant_of_a_2x2_matrix() {
    let m = Matrix2::new(fx(1.0), fx(5.0), fx(-3.0), fx(2.0));
    assert!(m.determinant().fuzzy_eq(fx(17.0)));
}

#[test]
fn submatrix_minor_and_cofactor_of_a_3x3_matrix() {
    let m = Matrix3::new(
        fx(3.0),
        fx(5.0),
        fx(0.0),
        fx(2.0),
        fx(-1.0),
        fx(-7.0),
        fx(6.0),
        fx(-1.0),
        fx(5.0),
    );
    assert!(m.minor(1, 0).fuzzy_eq(fx(25.0)));
    assert!(m.cofactor(0, 0).fuzzy_eq(fx(-12.0)));
    assert!(m.cofactor(1, 0).fuzzy_eq(fx(-25.0)));
}

#[test]
fn determinant_of_a_3x3_matrix() {
    let m = Matrix3::new(
        fx(1.0),
        fx(2.0),
        fx(6.0),
        fx(-5.0),
        fx(8.0),
        fx(-4.0),
        fx(2.0),
        fx(6.0),
        fx(4.0),
    );
    assert!(m.determinant().fuzzy_eq(fx(-196.0)));
}

#[test]
fn determinant_and_cofactors_of_a_4x4_matrix() {
    let m = mat4([
        -2.0, -8.0, 3.0, 5.0, -3.0, 1.0, 7.0, 3.0, 1.0, 2.0, -9.0, 6.0, -6.0, 7.0, 7.0, -9.0,
    ]);
    assert!(m.cofactor(0, 0).fuzzy_eq(fx(690.0)));
    assert!(m.cofactor(0, 1).fuzzy_eq(fx(447.0)));
    assert!(m.cofactor(0, 2).fuzzy_eq(fx(210.0)));
    assert!(m.cofactor(0, 3).fuzzy_eq(fx(51.0)));
    assert!(m.determinant().fuzzy_eq(fx(-4071.0)));
}

#[test]
fn an_invertible_matrix_is_recognized() {
    let m = mat4([
        6.0, 4.0, 4.0, 4.0, 5.0, 5.0, 7.0, 6.0, 4.0, -9.0, 3.0, -7.0, 9.0, 1.0, 7.0, -6.0,
    ]);
    assert!(m.determinant().fuzzy_eq(fx(-2120.0)));
    assert!(m.is_invertible());
}

#[test]
fn a_singular_matrix_has_no_inverse() {
    let m = mat4([
        -4.0, 2.0, -2.0, -3.0, 9.0, 6.0, 2.0, 6.0, 0.0, -5.0, 1.0, -5.0, 0.0, 0.0, 0.0, 0.0,
    ]);
    assert!(!m.is_invertible());
    assert!(m.inverse().is_none());
}

#[test]
fn inverting_a_matrix() {
    let m = mat4([
        -5.0, 2.0, 6.0, -8.0, 1.0, -5.0, 1.0, 8.0, 7.0, 7.0, -6.0, -7.0, 1.0, -3.0, 7.0, 4.0,
    ]);
    let inv = m.inverse().unwrap();
    let expected = mat4([
        0.21805, 0.45113, 0.24060, -0.04511, -0.80827, -1.45677, -0.44361, 0.52068, -0.07895,
        -0.22368, -0.05263, 0.19737, -0.52256, -0.81391, -0.30075, 0.30639,
    ]);
    assert!(inv.fuzzy_eq(&expected));
}

#[test]
fn inverting_the_inverse_recovers_the_matrix() {
    let m = mat4([
        3.0, -9.0, 7.0, 3.0, 3.0, -8.0, 2.0, -9.0, -4.0, 4.0, 4.0, 1.0, -6.0, 5.0, -1.0, 1.0,
    ]);
    let double = m.inverse().unwrap().inverse().unwrap();
    assert!(double.fuzzy_eq(&m));
}

#[test]
fn multiplying_a_product_by_an_inverse_recovers_the_factor() {
    let a = mat4([
        3.0, -9.0, 7.0, 3.0, 3.0, -8.0, 2.0, -9.0, -4.0, 4.0, 4.0, 1.0, -6.0, 5.0, -1.0, 1.0,
    ]);
    let b = mat4([
        8.0, 2.0, 2.0, 2.0, 3.0, -1.0, 7.0, 0.0, 7.0, 0.0, 5.0, 4.0, 6.0, -2.0, 0.0, 5.0,
    ]);
    let c = a.mul(b);
    assert!(c.mul(b.inverse().unwrap()).fuzzy_eq(&a));
}
