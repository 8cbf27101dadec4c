//! The camera: pixel-to-ray mapping through a view transform, and the
//! render loop over a canvas.

use crate::canvas::Canvas;
use crate::fx::fx_div;
use crate::fx::fx_mul;
use crate::fx::fx_of_int;
use crate::fx::fx_tan;
use crate::fx::Fx;
use crate::fx::HALF_SCALE;
use crate::fx::NEG_SCALE;
use crate::fx::SCALE;
use crate::matrix::det4_s;
use crate::matrix::identity_s;
use crate::matrix::inverse_s;
use crate::matrix::mat_tuple_s;
use crate::matrix::Matrix4;
use crate::ray::Ray;
use crate::sphere::TWO_BITS;
use crate::tuple::normalize_s;
use crate::tuple::tuple_add_s;
use crate::tuple::tuple_scale_s;
use crate::tuple::tuple_sub_s;
use crate::tuple::Tuple;
use crate::world::color_at_post;
use crate::world::World;
use vstd::prelude::*;

verus! {

/// A camera over a canvas of `hsize` by `vsize` pixels, with a field of
/// view and a view transform whose inverse and world-space origin are
/// kept in sync with it.
#[derive(Clone, Debug)]
pub struct Camera {
    pub hsize: usize,
    pub vsize: usize,
    pub field_of_view: Fx,
    pub transform: Matrix4,
    pub transform_inverse: Matrix4,
    pub origin: Tuple,
    pub pixel_size: Fx,
    pub half_width: Fx,
    pub half_height: Fx,
}

/// Half the world-space width of the canvas: the tangent of half the
/// field of view, scaled down by the aspect ratio when the canvas is
/// taller than wide.
pub open spec fn half_width_s(hsize: int, vsize: int, fov: int) -> int {
    let half_view = fx_tan(fx_div(fov, TWO_BITS as int));
    let aspect = fx_div(fx_of_int(hsize), fx_of_int(vsize));
    if aspect >= SCALE as int {
        half_view
    } else {
        fx_mul(half_view, aspect)
    }
}

/// Half the world-space height of the canvas.
pub open spec fn half_height_s(hsize: int, vsize: int, fov: int) -> int {
    let half_view = fx_tan(fx_div(fov, TWO_BITS as int));
    let aspect = fx_div(fx_of_int(hsize), fx_of_int(vsize));
    if aspect >= SCALE as int {
        fx_div(half_view, aspect)
    } else {
        half_view
    }
}

/// The world-space side length of one pixel.
pub open spec fn pixel_size_s(hsize: int, vsize: int, fov: int) -> int {
    fx_div(fx_mul(half_width_s(hsize, vsize, fov), TWO_BITS as int), fx_of_int(hsize))
}

/// The ray through the center of pixel `(x, y)`: the pixel's offset from
/// the canvas corner is mapped through the inverse view transform (the
/// canvas lies at z = -1 in camera space), and the ray runs from the
/// camera origin toward that world point.
pub open spec fn ray_for_pixel_s(c: Camera, x: int, y: int) -> Ray {
    let pixel_edge = Tuple {
        x: Fx { bits: fx_of_int(x) as i64 },
        y: Fx { bits: fx_of_int(y) as i64 },
        z: Fx { bits: 0 },
        w: Fx { bits: 0 },
    };
    let half_pixel = Tuple {
        x: Fx { bits: HALF_SCALE },
        y: Fx { bits: HALF_SCALE },
        z: Fx { bits: 0 },
        w: Fx { bits: 0 },
    };
    let offset = tuple_scale_s(tuple_add_s(pixel_edge, half_pixel), c.pixel_size@);
    let corner = Tuple {
        x: c.half_width,
        y: c.half_height,
        z: Fx { bits: NEG_SCALE },
        w: Fx { bits: SCALE },
    };
    let world_coords = tuple_sub_s(corner, offset);
    let pixel = mat_tuple_s(c.transform_inverse, world_coords);
    Ray { origin: c.origin, direction: normalize_s(tuple_sub_s(pixel, c.origin)) }
}

impl Camera {
    /// A camera over an `hsize` by `vsize` canvas with the given field
    /// of view, initially with the identity view transform.
    pub fn new(hsize: usize, vsize: usize, field_of_view: Fx) -> (r: Camera)
        requires
            1 <= hsize <= i64::MAX,
            1 <= vsize <= i64::MAX,
        ensures
            r.hsize == hsize,
            r.vsize == vsize,
            r.field_of_view == field_of_view,
            r.transform == identity_s(),
            r.transform_inverse == identity_s(),
            r.origin == (Tuple {
                x: Fx { bits: 0 },
                y: Fx { bits: 0 },
                z: Fx { bits: 0 },
                w: Fx { bits: SCALE },
            }),
            r.half_width@ == half_width_s(hsize as int, vsize as int, field_of_view@),
            r.half_height@ == half_height_s(hsize as int, vsize as int, field_of_view@),
            r.pixel_size@ == pixel_size_s(hsize as int, vsize as int, field_of_view@),
    {
        let half_view = field_of_view.div(Fx { bits: TWO_BITS }).tan();
        let h = Fx::from_int(hsize as i64);
        let v = Fx::from_int(vsize as i64);
        proof {
            lemma_of_int_positive(hsize as int);
            lemma_of_int_positive(vsize as int);
        }
        let aspect = h.div(v);
        let (half_width, half_height) = if aspect.bits >= SCALE {
            (half_view, half_view.div(aspect))
        } else {
            (half_view.mul(aspect), half_view)
        };
        let pixel_size = half_width.mul(Fx { bits: TWO_BITS }).div(h);
        let origin = Tuple::point(Fx::zero(), Fx::zero(), Fx::zero());
        proof {
            crate::matrix::lemma_identity_inverse();
            crate::matrix::lemma_identity_mul_tuple(origin);
        }
        Camera {
            hsize,
            vsize,
            field_of_view,
            transform: Matrix4::identity(),
            transform_inverse: Matrix4::identity(),
            origin,
            pixel_size,
            half_width,
            half_height,
        }
    }

    /// The canvas size `(hsize, vsize)`.
    pub fn size(&self) -> (r: (usize, usize))
        ensures
            r.0 == self.hsize,
            r.1 == self.vsize,
    {
        (self.hsize, self.vsize)
    }

    /// The field of view in radians.
    pub fn field_of_view(&self) -> (r: Fx)
        ensures
            r == self.field_of_view,
    {
        self.field_of_view
    }

    /// Replaces the view transform, recomputing the cached inverse and
    /// the world-space origin; fails, leaving the camera unchanged,
    /// exactly when the matrix is singular.
    pub fn set_transform(&mut self, transform: Matrix4) -> (r: Result<(), &'static str>)
        ensures
            det4_s(transform) != 0 ==> r is Ok && *final(self) == (Camera {
                transform,
                transform_inverse: inverse_s(transform),
                origin: mat_tuple_s(
                    inverse_s(transform),
                    Tuple {
                        x: Fx { bits: 0 },
                        y: Fx { bits: 0 },
                        z: Fx { bits: 0 },
                        w: Fx { bits: SCALE },
                    },
                ),
                ..*old(self)
            }),
            det4_s(transform) == 0 ==> r is Err && *final(self) == *old(self),
    {
        match transform.inverse() {
            Some(inv) => {
                self.transform = transform;
                self.transform_inverse = inv;
                self.origin = inv.mul_tuple(
                    Tuple::point(Fx::zero(), Fx::zero(), Fx::zero()),
                );
                Ok(())
            },
            None => Err("transform matrix must be invertible"),
        }
    }

    /// The ray through the center of pixel `(x, y)`.
    pub fn ray_for_pixel(&self, x: usize, y: usize) -> (r: Ray)
        requires
            x < self.hsize <= i64::MAX,
            y < self.vsize <= i64::MAX,
        ensures
            r == ray_for_pixel_s(*self, x as int, y as int),
    {
        let pixel_edge = Tuple::vector(
            Fx::from_int(x as i64),
            Fx::from_int(y as i64),
            Fx::zero(),
        );
        let half_pixel = Tuple::vector(Fx { bits: HALF_SCALE }, Fx { bits: HALF_SCALE }, Fx::zero());
        let offset = pixel_edge.add(half_pixel).scale(self.pixel_size);
        let corner = Tuple::point(self.half_width, self.half_height, Fx { bits: NEG_SCALE });
        let world_coords = corner.sub(offset);
        let pixel = self.transform_inverse.mul_tuple(world_coords);
        let direction = pixel.sub(self.origin).normalize();
        Ray::new(self.origin, direction)
    }

    /// Renders the world: every canvas pixel receives the color seen
    /// along the ray through it.
    #[verifier::rlimit(100)]
    pub fn render(&self, world: &World) -> (r: Canvas)
        requires
            self.hsize * self.vsize <= usize::MAX,
            1 <= self.hsize <= i64::MAX,
            1 <= self.vsize <= i64::MAX,
            world.light is Some,
        ensures
            r.width == self.hsize,
            r.height == self.vsize,
            r.wf(),
            forall|x: int, y: int|
                0 <= x < self.hsize && 0 <= y < self.vsize ==> color_at_post(
                    *world,
                    ray_for_pixel_s(*self, x, y),
                    #[trigger] r@[y * self.hsize + x],
                ),
    {
        let mut image = Canvas::new(self.hsize, self.vsize);
        let mut x: usize = 0;
        while x < self.hsize
            invariant
                x <= self.hsize,
                self.hsize * self.vsize <= usize::MAX,
                1 <= self.hsize <= i64::MAX,
                1 <= self.vsize <= i64::MAX,
                world.light is Some,
                image.width == self.hsize,
                image.height == self.vsize,
                image.wf(),
                forall|px: int, py: int|
                    0 <= px < x && 0 <= py < self.vsize ==> color_at_post(
                        *world,
                        ray_for_pixel_s(*self, px, py),
                        #[trigger] image@[py * self.hsize + px],
                    ),
            decreases self.hsize - x,
        {
            let mut y: usize = 0;
            while y < self.vsize
                invariant
                    x < self.hsize,
                    y <= self.vsize,
                    self.hsize * self.vsize <= usize::MAX,
                    1 <= self.hsize <= i64::MAX,
                    1 <= self.vsize <= i64::MAX,
                    world.light is Some,
                    image.width == self.hsize,
                    image.height == self.vsize,
                    image.wf(),
                    forall|px: int, py: int|
                        0 <= px < x && 0 <= py < self.vsize ==> color_at_post(
                            *world,
                            ray_for_pixel_s(*self, px, py),
                            #[trigger] image@[py * self.hsize + px],
                        ),
                    forall|py: int|
                        0 <= py < y ==> color_at_post(
                            *world,
                            ray_for_pixel_s(*self, x as int, py),
                            #[trigger] image@[py * self.hsize + x as int],
                        ),
                decreases self.vsize - y,
            {
                let ray = self.ray_for_pixel(x, y);
                let color = world.color_at(ray);
                let ghost before = image@;
                image.write_pixel(x, y, color);
                proof {
                    let h = self.hsize as int;
                    let written = (y as int) * h + (x as int);
                    assert(image@ == before.update(written, color));
                    assert(before.len() == h * (self.vsize as int) && 0 <= written
                        && written < before.len()) by (nonlinear_arith)
                        requires
                            before.len() == (self.hsize as int) * (self.vsize as int),
                            h == self.hsize as int,
                            written == (y as int) * h + (x as int),
                            0 <= (x as int) < h,
                            0 <= (y as int) < (self.vsize as int),
                    ;
                    assert forall|px: int, py: int|
                        0 <= px < x && 0 <= py < self.vsize implies color_at_post(
                        *world,
                        ray_for_pixel_s(*self, px, py),
                        #[trigger] image@[py * h + px],
                    ) by {
                        assert(py * h + px != written && 0 <= py * h + px < before.len())
                            by (nonlinear_arith)
                            requires
                                0 <= px < x as int,
                                (x as int) < h,
                                written == (y as int) * h + (x as int),
                                0 <= py < self.vsize as int,
                                (y as int) < self.vsize as int,
                                before.len() == h * (self.vsize as int),
                        ;
                        assert(before.update(written, color)[py * h + px] == before[py * h
                            + px]);
                        assert(image@[py * h + px] == before[py * h + px]);
                    }
                    assert forall|py: int| 0 <= py < y + 1 implies color_at_post(
                        *world,
                        ray_for_pixel_s(*self, x as int, py),
                        #[trigger] image@[py * h + x as int],
                    ) by {
                        if py < y {
                            assert(py * h + (x as int) != written && 0 <= py * h + (x as int)
                                && py * h + (x as int) < before.len()) by (nonlinear_arith)
                                requires
                                    0 <= py,
                                    py < y as int,
                                    h >= 1,
                                    0 <= (x as int) < h,
                                    (y as int) < self.vsize as int,
                                    before.len() == h * (self.vsize as int),
                                    written == (y as int) * h + (x as int),
                            ;
                            assert(before.update(written, color)[py * h + (x as int)]
                                == before[py * h + (x as int)]);
                            assert(image@[py * h + x as int] == before[py * h + x as int]);
                        } else {
                            assert(0 <= written < before.len()) by (nonlinear_arith)
                                requires
                                    0 <= (x as int) < h,
                                    0 <= (y as int) < self.vsize as int,
                                    before.len() == h * (self.vsize as int),
                                    written == (y as int) * h + (x as int),
                            ;
                            assert(image@[written] == color);
                        }
                    }
                }
                y = y + 1;
            }
            proof {
                let h = self.hsize as int;
                assert forall|px: int, py: int|
                    0 <= px < x + 1 && 0 <= py < self.vsize implies color_at_post(
                    *world,
                    ray_for_pixel_s(*self, px, py),
                    #[trigger] image@[py * h + px],
                ) by {
                    if px == x as int {
                        assert(color_at_post(
                            *world,
                            ray_for_pixel_s(*self, x as int, py),
                            image@[py * h + x as int],
                        ));
                    }
                }
            }
            x = x + 1;
        }
        image
    }
}

/// The fixed-point value of a positive integer is positive.
proof fn lemma_of_int_positive(n: int)
    requires
        n >= 1,
    ensures
        fx_of_int(n) > 0,
{
    assert(n * SCALE >= SCALE) by (nonlinear_arith)
        requires
            n >= 1,
            SCALE > 0,
    ;
}

} // verus!
