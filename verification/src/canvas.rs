//! The pixel buffer that a render fills: a rectangle of color tuples in
//! row-major order, and its conversion to 8-bit color bytes.

use crate::fx::Fx;
use crate::fx::SCALE;
use crate::tuple::rgba_s;
use crate::tuple::Tuple;
use vstd::prelude::*;

verus! {

/// A rectangle of color tuples, stored row by row.
#[derive(Debug)]
pub struct Canvas {
    pub width: usize,
    pub height: usize,
    pub pixels: Vec<Tuple>,
}

/// The initial color of every pixel: black with a full alpha lane.
pub open spec fn canvas_black_s() -> Tuple {
    Tuple {
        x: Fx { bits: 0 },
        y: Fx { bits: 0 },
        z: Fx { bits: 0 },
        w: Fx { bits: SCALE },
    }
}

impl View for Canvas {
    type V = Seq<Tuple>;

    open spec fn view(&self) -> Seq<Tuple> {
        self.pixels@
    }
}

impl Canvas {
    /// Whether the buffer has one pixel per grid cell.
    pub open spec fn wf(self) -> bool {
        self@.len() == self.width * self.height
    }

    /// A canvas of the given size with every pixel black.
    pub fn new(width: usize, height: usize) -> (r: Canvas)
        requires
            width * height <= usize::MAX,
        ensures
            r.width == width,
            r.height == height,
            r.wf(),
            forall|i: int| 0 <= i < r@.len() ==> r@[i] == canvas_black_s(),
    {
        let black = Tuple::color(Fx::zero(), Fx::zero(), Fx::zero(), Fx::one());
        let count = width * height;
        let mut pixels: Vec<Tuple> = Vec::new();
        let mut i: usize = 0;
        while i < count
            invariant
                i == pixels@.len() <= count,
                black == canvas_black_s(),
                forall|j: int| 0 <= j < pixels@.len() ==> pixels@[j] == canvas_black_s(),
            decreases count - i,
        {
            pixels.push(black);
            i = i + 1;
        }
        Canvas { width, height, pixels }
    }

    /// Stores `color` at the pixel `(x, y)`.
    pub fn write_pixel(&mut self, x: usize, y: usize, color: Tuple)
        requires
            old(self).wf(),
            x < old(self).width,
            y < old(self).height,
        ensures
            final(self).width == old(self).width,
            final(self).height == old(self).height,
            final(self).wf(),
            final(self)@ == old(self)@.update(y * old(self).width + x, color),
    {
        let _len: usize = self.pixels.len();
        proof {
            lemma_grid_index_in_range(x as int, y as int, self.width as int, self.height as int);
        }
        let index = y * self.width + x;
        self.pixels.set(index, color);
    }

    /// The color stored at the pixel `(x, y)`.
    pub fn pixel_at(&self, x: usize, y: usize) -> (r: Tuple)
        requires
            self.wf(),
            x < self.width,
            y < self.height,
        ensures
            r == self@[y * self.width + x],
    {
        let _len: usize = self.pixels.len();
        proof {
            lemma_grid_index_in_range(x as int, y as int, self.width as int, self.height as int);
        }
        self.pixels[y * self.width + x]
    }

    /// The whole buffer as 8-bit color bytes: four bytes per pixel, in
    /// storage order.
    pub fn to_rgba_bytes(&self) -> (r: Vec<u8>)
        requires
            self@.len() * 4 <= usize::MAX,
        ensures
            r@.len() == self@.len() * 4,
            forall|p: int|
                0 <= p < self@.len() ==> {
                    &&& r@[4 * p] == rgba_s(#[trigger] self@[p]).red
                    &&& r@[4 * p + 1] == rgba_s(self@[p]).green
                    &&& r@[4 * p + 2] == rgba_s(self@[p]).blue
                    &&& r@[4 * p + 3] == rgba_s(self@[p]).alpha
                },
    {
        let mut data: Vec<u8> = Vec::new();
        let mut p: usize = 0;
        while p < self.pixels.len()
            invariant
                p <= self@.len(),
                self@.len() * 4 <= usize::MAX,
                data@.len() == p * 4,
                forall|q: int|
                    0 <= q < p ==> {
                        &&& data@[4 * q] == rgba_s(#[trigger] self@[q]).red
                        &&& data@[4 * q + 1] == rgba_s(self@[q]).green
                        &&& data@[4 * q + 2] == rgba_s(self@[q]).blue
                        &&& data@[4 * q + 3] == rgba_s(self@[q]).alpha
                    },
            decreases self@.len() - p,
        {
            let rgba = self.pixels[p].to_rgba();
            data.push(rgba.red);
            data.push(rgba.green);
            data.push(rgba.blue);
            data.push(rgba.alpha);
            p = p + 1;
        }
        data
    }
}

/// A grid position indexes inside the buffer: `y * width + x` is below
/// `width * height` whenever `x < width` and `y < height`.
proof fn lemma_grid_index_in_range(x: int, y: int, width: int, height: int)
    requires
        0 <= x < width,
        0 <= y < height,
    ensures
        0 <= y * width + x < width * height,
{
    assert(0 <= y * width + x < width * height) by (nonlinear_arith)
        requires
            0 <= x < width,
            0 <= y < height,
    ;
}

} // verus!
