use ray_tracer::fx::Fx;
use ray_tracer::tuple::Rgba;
use ray_tracer::tuple::Tuple;

fn fx(v: f64) -> Fx {
    Fx::from_bits((v * 4294967296.0).round() as i64)
}

fn point(x: f64, y: f64, z: f64) -> Tuple {
    Tuple::point(fx(x), fx(y), fx(z))
}

fn vector(x: f64, y: f64, z: f64) -> Tuple {
    Tuple::vector(fx(x), fx(y), fx(z))
}

fn color(r: f64, g: f64, b: f64, a: f64) -> Tuple {
    Tuple::color(fx(r), fx(g), fx(b), fx(a))
}

fn tuple(x: f64, y: f64, z: f64, w: f64) -> Tuple {
    Tuple::new(fx(x), fx(y), fx(z), fx(w))
}

#[test]
fn a_point_has_w_one_and_a_vector_w_zero() {
    let p = point(4.0, -4.0, 3.0);
    assert!(p.is_point());
    assert!(!p.is_vector());
    let v = vector(4.0, -4.0, 3.0);
    assert!(v.is_vector());
    assert!(!v.is_point());
    assert!(p.fuzzy_eq(tuple(4.0, -4.0, 3.0, 1.0)));
    assert!(v.fuzzy_eq(tuple(4.0, -4.0, 3.0, 0.0)));
}

#[test]
fn tuples_compare_fuzzily() {
    let a = tuple(4.3, -4.2, 3.1, 1.0);
    assert!(a.fuzzy_eq(tuple(4.3, -4.2, 3.1, 1.0)));
    assert!(a.fuzzy_eq(tuple(4.300009, -4.200009, 3.100009, 1.0)));
    assert!(!a.fuzzy_eq(tuple(4.3, -4.2, 10.1, 1.0)));
    assert!(!a.fuzzy_eq(tuple(4.30002, -4.20002, 3.10002, 1.0)));
}

#[test]
fn adding_two_tuples() {
    let a = tuple(3.0, -2.0, 5.0, 1.0);
    let b = tuple(-2.0, 3.0, 1.0, 0.0);
    assert!(a.add(b).fuzzy_eq(tuple(1.0, 1.0, 6.0, 1.0)));
}

#[test]
fn subtracting_points_and_vectors() {
    assert!(point(3.0, 2.0, 1.0).sub(point(5.0, 6.0, 7.0)).fuzzy_eq(vector(-2.0, -4.0, -6.0)));
    assert!(point(3.0, 2.0, 1.0).sub(vector(5.0, 6.0, 7.0)).fuzzy_eq(point(-2.0, -4.0, -6.0)));
    assert!(vector(3.0, 2.0, 1.0).sub(vector(5.0, 6.0, 7.0)).fuzzy_eq(vector(-2.0, -4.0, -6.0)));
    assert!(vector(1.0, -2.0, 3.0).sub(vector(0.0, 0.0, 0.0)).fuzzy_eq(vector(1.0, -2.0, 3.0)));
}

#[test]
fn negating_a_tuple() {
    assert!(tuple(1.0, -2.0, 3.0, -4.0).neg().fuzzy_eq(tuple(-1.0, 2.0, -3.0, 4.0)));
}

#[test]
fn scaling_a_tuple_by_a_scalar_and_a_fraction() {
    let a = tuple(1.0, -2.0, 3.0, -4.0);
    assert!(a.scale(fx(3.5)).fuzzy_eq(tuple(3.5, -7.0, 10.5, -14.0)));
    assert!(a.scale(fx(0.5)).fuzzy_eq(tuple(0.5, -1.0, 1.5, -2.0)));
    assert!(a.div_scalar(fx(2.0)).fuzzy_eq(tuple(0.5, -1.0, 1.5, -2.0)));
}

#[test]
fn magnitude_of_unit_and_general_vectors() {
    assert!(vector(1.0, 0.0, 0.0).magnitude().fuzzy_eq(fx(1.0)));
    assert!(vector(0.0, 1.0, 0.0).magnitude().fuzzy_eq(fx(1.0)));
    assert!(vector(0.0, 0.0, 1.0).magnitude().fuzzy_eq(fx(1.0)));
    assert!(vector(1.0, 2.0, 3.0).magnitude().fuzzy_eq(fx(14.0_f64.sqrt())));
    assert!(vector(-1.0, -2.0, -3.0).magnitude().fuzzy_eq(fx(14.0_f64.sqrt())));
}

#[test]
fn normalizing_vectors() {
    assert!(vector(4.0, 0.0, 0.0).normalize().fuzzy_eq(vector(1.0, 0.0, 0.0)));
    assert!(vector(1.0, 2.0, 3.0).normalize().fuzzy_eq(vector(0.26726, 0.53452, 0.80178)));
    assert!(vector(1.0, 2.0, 3.0).normalize().magnitude().fuzzy_eq(fx(1.0)));
}

#[test]
fn normalizing_the_zero_vector_returns_it_unchanged() {
    let z = vector(0.0, 0.0, 0.0);
    assert_eq!(z.normalize(), z);
}

#[test]
fn dot_product_of_two_tuples() {
    let a = vector(1.0, 2.0, 3.0);
    let b = vector(2.0, 3.0, 4.0);
    assert!(a.dot(b).fuzzy_eq(fx(20.0)));
}

#[test]
fn cross_product_of_two_vectors() {
    let a = vector(1.0, 2.0, 3.0);
    let b = vector(2.0, 3.0, 4.0);
    assert!(a.cross(b).fuzzy_eq(vector(-1.0, 2.0, -1.0)));
    assert!(b.cross(a).fuzzy_eq(vector(1.0, -2.0, 1.0)));
}

#[test]
fn color_arithmetic() {
    let c1 = color(0.9, 0.6, 0.75, 0.2);
    let c2 = color(0.7, 0.1, 0.25, 0.3);
    assert!(c1.add(c2).fuzzy_eq(color(1.6, 0.7, 1.0, 0.5)));
    let c3 = color(0.9, 0.6, 0.75, 0.2);
    let c4 = color(0.7, 0.1, 0.25, 0.2);
    assert!(c3.sub(c4).fuzzy_eq(color(0.2, 0.5, 0.5, 0.0)));
    let c5 = color(0.2, 0.3, 0.4, 0.5);
    assert!(c5.scale(fx(2.0)).fuzzy_eq(color(0.4, 0.6, 0.8, 1.0)));
}

#[test]
fn blending_colors_componentwise() {
    let c1 = color(1.0, 0.2, 0.4, 0.5);
    let c2 = color(0.9, 1.0, 0.1, 0.2);
    assert!(c1.hadamard(c2).fuzzy_eq(color(0.9, 0.2, 0.04, 0.1)));
}

#[test]
fn rgb_eq_ignores_the_alpha_lane() {
    let c1 = color(0.1, 0.2, 0.3, 0.0);
    let c2 = color(0.1, 0.2, 0.3, 9.0);
    assert!(c1.rgb_eq(c2));
    assert!(!c1.rgb_eq(color(0.1, 0.2, 0.4, 0.0)));
}

#[test]
fn repairing_a_tuple_to_a_vector() {
    let t = tuple(-2.0, 1.0, 4.0, 3.0);
    let repaired = t.repair_vector_after_translation();
    assert!(repaired.is_vector());
    assert!(repaired.fuzzy_eq(vector(-2.0, 1.0, 4.0)));
}

#[test]
fn reflecting_a_vector_approaching_at_45_degrees() {
    let v = vector(1.0, -1.0, 0.0);
    let n = vector(0.0, 1.0, 0.0);
    assert!(v.reflect(n).fuzzy_eq(vector(1.0, 1.0, 0.0)));
}

#[test]
fn reflecting_a_vector_off_a_slanted_surface() {
    let half_sqrt2 = 2.0_f64.sqrt() / 2.0;
    let v = vector(0.0, -1.0, 0.0);
    let n = vector(half_sqrt2, half_sqrt2, 0.0);
    assert!(v.reflect(n).fuzzy_eq(vector(1.0, 0.0, 0.0)));
}

#[test]
fn to_rgba_scales_rounds_and_clamps() {
    let c = color(1.0, 0.5, 0.0, 1.0);
    assert_eq!(c.to_rgba(), Rgba { red: 255, green: 128, blue: 0, alpha: 255 });
    let over = color(1.5, -0.5, 0.2, 1.0);
    assert_eq!(over.to_rgba(), Rgba { red: 255, green: 0, blue: 51, alpha: 255 });
}
