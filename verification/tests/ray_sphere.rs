use ray_tracer::fx::Fx;
use ray_tracer::matrix::Matrix4;
use ray_tracer::ray::Ray;
use ray_tracer::sphere::Sphere;
use ray_tracer::transform::Transform;
use ray_tracer::tuple::Tuple;

fn fx(v: f64) -> Fx {
    Fx::from_bits((v * 4294967296.0).round() as i64)
}

fn point(x: f64, y: f64, z: f64) -> Tuple {
    Tuple::point(fx(x), fx(y), fx(z))
}

fn vector(x: f64, y: f64, z: f64) -> Tuple {
    Tuple::vector(fx(x), fx(y), fx(z))
}

#[test]
fn creating_and_querying_a_ray() {
    let origin = point(1.0, 2.0, 3.0);
    let direction = vector(4.0, 5.0, 6.0);
    let r = Ray::new(origin, direction);
    assert_eq!(r.origin, origin);
    assert_eq!(r.direction, direction);
}

#[test]
fn computing_a_point_from_a_distance() {
    let r = Ray::new(point(2.0, 3.0, 4.0), vector(1.0, 0.0, 0.0));
    assert!(r.position(fx(0.0)).fuzzy_eq(point(2.0, 3.0, 4.0)));
    assert!(r.position(fx(1.0)).fuzzy_eq(point(3.0, 3.0, 4.0)));
    assert!(r.position(fx(-1.0)).fuzzy_eq(point(1.0, 3.0, 4.0)));
    assert!(r.position(fx(2.5)).fuzzy_eq(point(4.5, 3.0, 4.0)));
}

#[test]
fn translating_a_ray() {
    let r = Ray::new(point(1.0, 2.0, 3.0), vector(0.0, 1.0, 0.0));
    let m = Matrix4::translation(fx(3.0), fx(4.0), fx(5.0));
    let r2 = r.transform(&m);
    assert!(r2.origin.fuzzy_eq(point(4.0, 6.0, 8.0)));
    assert!(r2.direction.fuzzy_eq(vector(0.0, 1.0, 0.0)));
}

#[test]
fn scaling_a_ray() {
    let r = Ray::new(point(1.0, 2.0, 3.0), vector(0.0, 1.0, 0.0));
    let m = Matrix4::scaling(fx(2.0), fx(3.0), fx(4.0));
    let r2 = r.transform(&m);
    assert!(r2.origin.fuzzy_eq(point(2.0, 6.0, 12.0)));
    assert!(r2.direction.fuzzy_eq(vector(0.0, 3.0, 0.0)));
}

#[test]
fn a_ray_intersects_a_sphere_at_two_points() {
    let r = Ray::new(point(0.0, 0.0, -5.0), vector(0.0, 0.0, 1.0));
    let s = Sphere::new(0);
    let xs = s.intersect(&r);
    assert_eq!(xs.len(), 2);
    assert!(xs.get(0).t.fuzzy_eq(fx(4.0)));
    assert!(xs.get(1).t.fuzzy_eq(fx(6.0)));
}

#[test]
fn a_ray_intersects_a_sphere_at_a_tangent() {
    let r = Ray::new(point(0.0, 1.0, -5.0), vector(0.0, 0.0, 1.0));
    let s = Sphere::new(0);
    let xs = s.intersect(&r);
    assert_eq!(xs.len(), 2);
    assert!(xs.get(0).t.fuzzy_eq(fx(5.0)));
    assert!(xs.get(1).t.fuzzy_eq(fx(5.0)));
}

#[test]
fn a_ray_misses_a_sphere() {
    let r = Ray::new(point(0.0, 2.0, -5.0), vector(0.0, 0.0, 1.0));
    let s = Sphere::new(0);
    assert_eq!(s.intersect(&r).len(), 0);
    assert!(s.intersect(&r).is_empty());
}

#[test]
fn a_ray_originates_inside_a_sphere() {
    let r = Ray::new(point(0.0, 0.0, 0.0), vector(0.0, 0.0, 1.0));
    let s = Sphere::new(0);
    let xs = s.intersect(&r);
    assert_eq!(xs.len(), 2);
    assert!(xs.get(0).t.fuzzy_eq(fx(-1.0)));
    assert!(xs.get(1).t.fuzzy_eq(fx(1.0)));
}

#[test]
fn a_sphere_is_behind_a_ray() {
    let r = Ray::new(point(0.0, 0.0, 5.0), vector(0.0, 0.0, 1.0));
    let s = Sphere::new(0);
    let xs = s.intersect(&r);
    assert_eq!(xs.len(), 2);
    assert!(xs.get(0).t.fuzzy_eq(fx(-6.0)));
    assert!(xs.get(1).t.fuzzy_eq(fx(-4.0)));
}

#[test]
fn intersect_sets_the_object_on_the_intersection() {
    let r = Ray::new(point(0.0, 0.0, -5.0), vector(0.0, 0.0, 1.0));
    let s = Sphere::new(7);
    let xs = s.intersect(&r);
    assert_eq!(xs.len(), 2);
    assert!(xs.get(0).object.same_object(&s));
    assert!(xs.get(1).object.same_object(&s));
}

#[test]
fn a_degenerate_ray_direction_yields_no_intersections() {
    let r = Ray::new(point(0.0, 0.0, 0.0), vector(0.0, 0.0, 0.0));
    let s = Sphere::new(0);
    assert_eq!(s.intersect(&r).len(), 0);
}

#[test]
fn two_equal_spheres_have_different_ids() {
    let s1 = Sphere::new(0);
    let s2 = Sphere::new(1);
    assert!(s1.fuzzy_eq(&s2));
    assert!(s1.same_object(&s1));
    assert!(!s1.same_object(&s2));
}

#[test]
fn a_spheres_default_transformation_is_the_identity() {
    let s = Sphere::new(0);
    assert_eq!(s.transform(), Matrix4::identity());
    assert_eq!(s.transform_inverse(), Matrix4::identity());
}

#[test]
fn changing_a_spheres_transformation() {
    let mut s = Sphere::new(0);
    s.set_transform(Transform::new().translate(fx(2.0), fx(3.0), fx(4.0))).unwrap();
    assert_eq!(s.transform(), Matrix4::translation(fx(2.0), fx(3.0), fx(4.0)));
}

#[test]
fn a_singular_transform_is_rejected_and_changes_nothing() {
    let mut s = Sphere::new(0);
    let outcome = s.set_transform(Transform::new().scale(fx(0.0), fx(0.0), fx(0.0)));
    assert!(outcome.is_err());
    assert_eq!(s.transform(), Matrix4::identity());
    assert_eq!(s.transform_inverse(), Matrix4::identity());
}

#[test]
fn intersecting_a_scaled_sphere_with_a_ray() {
    let r = Ray::new(point(0.0, 0.0, -5.0), vector(0.0, 0.0, 1.0));
    let mut s = Sphere::new(0);
    s.set_transform(Transform::new().scale(fx(2.0), fx(2.0), fx(2.0))).unwrap();
    let xs = s.intersect(&r);
    assert_eq!(xs.len(), 2);
    assert!(xs.get(0).t.fuzzy_eq(fx(3.0)));
    assert!(xs.get(1).t.fuzzy_eq(fx(7.0)));
}

#[test]
fn intersecting_a_translated_sphere_with_a_ray() {
    let r = Ray::new(point(0.0, 0.0, -5.0), vector(0.0, 0.0, 1.0));
    let mut s = Sphere::new(0);
    s.set_transform(Transform::new().translate(fx(5.0), fx(0.0), fx(0.0))).unwrap();
    assert_eq!(s.intersect(&r).len(), 0);
}

#[test]
fn normals_on_a_sphere_at_axial_points() {
    let s = Sphere::new(0);
    assert!(s.normal_at(point(1.0, 0.0, 0.0)).fuzzy_eq(vector(1.0, 0.0, 0.0)));
    assert!(s.normal_at(point(0.0, 1.0, 0.0)).fuzzy_eq(vector(0.0, 1.0, 0.0)));
    assert!(s.normal_at(point(0.0, 0.0, 1.0)).fuzzy_eq(vector(0.0, 0.0, 1.0)));
}

#[test]
fn normal_on_a_sphere_at_a_nonaxial_point() {
    let s = Sphere::new(0);
    let third_sqrt3 = 3.0_f64.sqrt() / 3.0;
    let n = s.normal_at(point(third_sqrt3, third_sqrt3, third_sqrt3));
    assert!(n.fuzzy_eq(vector(third_sqrt3, third_sqrt3, third_sqrt3)));
    assert!(n.fuzzy_eq(n.normalize()));
}

#[test]
fn computing_the_normal_on_a_translated_sphere() {
    let mut s = Sphere::new(0);
    s.set_transform(Transform::new().translate(fx(0.0), fx(1.0), fx(0.0))).unwrap();
    let n = s.normal_at(point(0.0, 1.70711, -0.70711));
    assert!(n.fuzzy_eq(vector(0.0, 0.70711, -0.70711)));
}

#[test]
fn computing_the_normal_on_a_transformed_sphere() {
    let pi = std::f64::consts::PI;
    let mut s = Sphere::new(0);
    s.set_transform(Transform::new().rotate_z(fx(pi / 5.0)).scale(fx(1.0), fx(0.5), fx(1.0)))
        .unwrap();
    let half_sqrt2 = 2.0_f64.sqrt() / 2.0;
    let n = s.normal_at(point(0.0, half_sqrt2, -half_sqrt2));
    assert!(n.fuzzy_eq(vector(0.0, 0.97014, -0.24254)));
}
