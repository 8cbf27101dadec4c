use ray_tracer::camera::Camera;
use ray_tracer::canvas::Canvas;
use ray_tracer::fx::Fx;
use ray_tracer::matrix::Matrix4;
use ray_tracer::transform::view_transform;
use ray_tracer::transform::Transform;
use ray_tracer::tuple::Tuple;
use ray_tracer::world::World;

fn fx(v: f64) -> Fx {
    Fx::from_bits((v * 4294967296.0).round() as i64)
}

fn point(x: f64, y: f64, z: f64) -> Tuple {
    Tuple::point(fx(x), fx(y), fx(z))
}

fn vector(x: f64, y: f64, z: f64) -> Tuple {
    Tuple::vector(fx(x), fx(y), fx(z))
}

fn color(r: f64, g: f64, b: f64) -> Tuple {
    Tuple::color(fx(r), fx(g), fx(b), fx(1.0))
}

#[test]
fn creating_a_canvas_fills_it_with_black() {
    let c = Canvas::new(10, 20);
    assert_eq!(c.width, 10);
    assert_eq!(c.height, 20);
    for y in 0..20 {
        for x in 0..10 {
            assert!(c.pixel_at(x, y).rgb_eq(color(0.0, 0.0, 0.0)));
        }
    }
}

#[test]
fn writing_a_pixel_to_a_canvas() {
    let mut c = Canvas::new(10, 20);
    let red = color(1.0, 0.0, 0.0);
    c.write_pixel(2, 3, red);
    assert_eq!(c.pixel_at(2, 3), red);
    assert!(c.pixel_at(0, 0).rgb_eq(color(0.0, 0.0, 0.0)));
}

#[test]
fn canvas_bytes_hold_four_channels_per_pixel() {
    let mut c = Canvas::new(2, 1);
    c.write_pixel(0, 0, color(1.0, 0.5, 0.0));
    c.write_pixel(1, 0, color(0.0, 0.0, 1.0));
    let bytes = c.to_rgba_bytes();
    assert_eq!(bytes, vec![255, 128, 0, 255, 0, 0, 255, 255]);
}

#[test]
fn constructing_a_camera() {
    let pi = std::f64::consts::PI;
    let c = Camera::new(160, 120, fx(pi / 2.0));
    assert_eq!(c.size(), (160, 120));
    assert!(c.field_of_view().fuzzy_eq(fx(pi / 2.0)));
    assert_eq!(c.transform, Matrix4::identity());
}

#[test]
fn the_pixel_size_for_a_horizontal_canvas() {
    let pi = std::f64::consts::PI;
    let c = Camera::new(200, 125, fx(pi / 2.0));
    assert!(c.pixel_size.fuzzy_eq(fx(0.01)));
}

#[test]
fn the_pixel_size_for_a_vertical_canvas() {
    let pi = std::f64::consts::PI;
    let c = Camera::new(125, 200, fx(pi / 2.0));
    assert!(c.pixel_size.fuzzy_eq(fx(0.01)));
}

#[test]
fn a_ray_through_the_center_of_the_canvas() {
    let pi = std::f64::consts::PI;
    let c = Camera::new(201, 101, fx(pi / 2.0));
    let r = c.ray_for_pixel(100, 50);
    assert!(r.origin.fuzzy_eq(point(0.0, 0.0, 0.0)));
    assert!(r.direction.fuzzy_eq(vector(0.0, 0.0, -1.0)));
}

#[test]
fn a_ray_through_a_corner_of_the_canvas() {
    let pi = std::f64::consts::PI;
    let c = Camera::new(201, 101, fx(pi / 2.0));
    let r = c.ray_for_pixel(0, 0);
    assert!(r.origin.fuzzy_eq(point(0.0, 0.0, 0.0)));
    assert!(r.direction.fuzzy_eq(vector(0.66519, 0.33259, -0.66851)));
}

#[test]
fn a_ray_when_the_camera_is_transformed() {
    let pi = std::f64::consts::PI;
    let mut c = Camera::new(201, 101, fx(pi / 2.0));
    c.set_transform(
        Transform::new()
            .translate(fx(0.0), fx(-2.0), fx(5.0))
            .rotate_y(fx(pi / 4.0))
            .build(),
    )
        .unwrap();
    let r = c.ray_for_pixel(100, 50);
    let half_sqrt2 = 2.0_f64.sqrt() / 2.0;
    assert!(r.origin.fuzzy_eq(point(0.0, 2.0, -5.0)));
    assert!(r.direction.fuzzy_eq(vector(half_sqrt2, 0.0, -half_sqrt2)));
}

#[test]
fn a_singular_camera_transform_is_rejected() {
    let pi = std::f64::consts::PI;
    let mut c = Camera::new(11, 11, fx(pi / 2.0));
    let outcome = c.set_transform(Matrix4::scaling(fx(0.0), fx(0.0), fx(0.0)));
    assert!(outcome.is_err());
    assert_eq!(c.transform, Matrix4::identity());
}

#[test]
fn rendering_a_world_with_a_camera() {
    let pi = std::f64::consts::PI;
    let w = World::default();
    let mut c = Camera::new(11, 11, fx(pi / 2.0));
    c.set_transform(view_transform(
        point(0.0, 0.0, -5.0),
        point(0.0, 0.0, 0.0),
        vector(0.0, 1.0, 0.0),
    ))
        .unwrap();
    let image = c.render(&w);
    assert!(image.pixel_at(5, 5).rgb_eq(color(0.38066, 0.47583, 0.2855)));
}
