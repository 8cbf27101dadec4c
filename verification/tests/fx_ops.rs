use ray_tracer::fx::Fx;
use ray_tracer::fx::SCALE;

fn fx(v: f64) -> Fx {
    Fx::from_bits((v * 4294967296.0).round() as i64)
}

fn to_f64(v: Fx) -> f64 {
    v.bits as f64 / 4294967296.0
}

#[test]
fn one_and_zero_have_the_expected_bits() {
    assert_eq!(Fx::one().bits, SCALE);
    assert_eq!(Fx::zero().bits, 0);
    assert_eq!(Fx::from_int(1), Fx::one());
    assert_eq!(Fx::from_int(0), Fx::zero());
}

#[test]
fn from_int_scales_by_one_unit() {
    assert_eq!(Fx::from_int(3).bits, 3 * SCALE);
    assert_eq!(Fx::from_int(-7).bits, -7 * SCALE);
}

#[test]
fn addition_and_subtraction_are_exact() {
    let a = fx(1.5);
    let b = fx(2.25);
    assert_eq!(a.add(b), fx(3.75));
    assert_eq!(a.sub(b), fx(-0.75));
    assert_eq!(b.neg(), fx(-2.25));
}

#[test]
fn addition_saturates_at_the_top_of_the_range() {
    let top = Fx::from_bits(i64::MAX);
    assert_eq!(top.add(Fx::one()).bits, i64::MAX);
    let bottom = Fx::from_bits(i64::MIN);
    assert_eq!(bottom.sub(Fx::one()).bits, i64::MIN);
}

#[test]
fn multiplication_rounds_to_nearest() {
    assert_eq!(fx(2.0).mul(fx(3.0)), fx(6.0));
    assert_eq!(fx(0.5).mul(fx(0.5)), fx(0.25));
    assert_eq!(fx(-1.5).mul(fx(2.0)), fx(-3.0));
    // The smallest step squared rounds to zero.
    assert_eq!(Fx::from_bits(1).mul(Fx::from_bits(1)).bits, 0);
}

#[test]
fn division_rounds_to_nearest() {
    assert_eq!(fx(6.0).div(fx(3.0)), fx(2.0));
    assert_eq!(fx(1.0).div(fx(-4.0)), fx(-0.25));
    assert_eq!(fx(7.0).div(fx(1.0)), fx(7.0));
}

#[test]
fn sqrt_of_perfect_squares_is_exact() {
    assert_eq!(fx(4.0).sqrt(), fx(2.0));
    assert_eq!(fx(9.0).sqrt(), fx(3.0));
    assert_eq!(fx(1.0).sqrt(), fx(1.0));
    assert_eq!(fx(0.0).sqrt(), fx(0.0));
}

#[test]
fn sqrt_of_two_is_close() {
    let r = to_f64(fx(2.0).sqrt());
    assert!((r - std::f64::consts::SQRT_2).abs() < 1e-9);
}

#[test]
fn sine_and_cosine_at_notable_angles() {
    let pi = std::f64::consts::PI;
    assert!(fx(pi / 2.0).sin().fuzzy_eq(fx(1.0)));
    assert!(fx(0.0).sin().fuzzy_eq(fx(0.0)));
    assert!(fx(pi).sin().fuzzy_eq(fx(0.0)));
    assert!(fx(0.0).cos().fuzzy_eq(fx(1.0)));
    assert!(fx(pi).cos().fuzzy_eq(fx(-1.0)));
    assert!(fx(pi / 3.0).cos().fuzzy_eq(fx(0.5)));
    assert!(fx(-pi / 2.0).sin().fuzzy_eq(fx(-1.0)));
}

#[test]
fn sine_and_cosine_survive_a_whole_turn() {
    let pi = std::f64::consts::PI;
    let angle = fx(2.0 * pi + pi / 6.0);
    assert!(angle.sin().fuzzy_eq(fx(0.5)));
    assert!(angle.cos().fuzzy_eq(fx(0.86602540378)));
}

#[test]
fn sine_squared_plus_cosine_squared_is_one() {
    for k in 0..20 {
        let angle = fx(0.37 * k as f64 - 3.0);
        let s = angle.sin();
        let c = angle.cos();
        assert!(s.mul(s).add(c.mul(c)).fuzzy_eq(fx(1.0)));
    }
}

#[test]
fn tangent_of_quarter_pi_is_one() {
    let pi = std::f64::consts::PI;
    assert!(fx(pi / 4.0).tan().fuzzy_eq(fx(1.0)));
}

#[test]
fn integer_powers_multiply_out() {
    assert_eq!(fx(2.0).powi(10), fx(1024.0));
    assert_eq!(fx(0.5).powi(2), fx(0.25));
    assert_eq!(fx(3.0).powi(0), fx(1.0));
}

#[test]
fn fuzzy_eq_tolerates_just_under_the_epsilon() {
    let a = fx(4.3);
    assert!(a.fuzzy_eq(fx(4.300009)));
    assert!(!a.fuzzy_eq(fx(4.30002)));
}
