//! The offscreen render target, modelled as a row-major pixel buffer in
//! display range.

use vstd::prelude::*;
use crate::pixel::Pixel;

verus! {

/// An image read back from the offscreen render target: a fixed
/// `width` x `height` grid of pixels, stored row by row from the top.
pub struct Image {
    pub width: usize,
    pub height: usize,
    pub pixels: Vec<Pixel>,
}

impl Image {
    /// The buffer holds exactly one pixel per grid coordinate.
    pub open spec fn wf(self) -> bool {
        self.pixels@.len() == self.spec_width() * self.spec_height()
    }

    pub open spec fn spec_width(self) -> int {
        self.width as int
    }

    pub open spec fn spec_height(self) -> int {
        self.height as int
    }

    /// The pixel at column `x` of row `y`, rows counted from the top.
    pub open spec fn spec_pixel(self, x: int, y: int) -> Pixel {
        self.pixels@[y * self.spec_width() + x]
    }

    /// Build an image from a buffer that lists each row in turn, top row
    /// first.
    pub fn from_rows(width: usize, height: usize, pixels: Vec<Pixel>) -> (img: Image)
        requires
            pixels@.len() == width * height,
        ensures
            img.wf(),
            img.spec_width() == width,
            img.spec_height() == height,
            forall|x: int, y: int|
                0 <= x < width && 0 <= y < height ==> #[trigger] img.spec_pixel(x, y) == pixels@[y
                    * width + x],
    {
        Image { width, height, pixels }
    }

    pub fn width(&self) -> (w: usize)
        ensures
            w == self.spec_width(),
    {
        self.width
    }

    pub fn height(&self) -> (h: usize)
        ensures
            h == self.spec_height(),
    {
        self.height
    }

    /// Sample the pixel at `(x, y)`.
    pub fn pixel(&self, x: usize, y: usize) -> (p: Pixel)
        requires
            self.wf(),
            x < self.spec_width(),
            y < self.spec_height(),
        ensures
            p == self.spec_pixel(x as int, y as int),
    {
        let n = self.pixels.len();
        proof {
            assert(y * self.spec_width() + x < self.spec_width() * self.spec_height())
                by (nonlinear_arith)
                requires
                    0 <= x < self.spec_width(),
                    0 <= y < self.spec_height(),
            ;
            assert(y * self.spec_width() + x < n);
        }
        let i: usize = y * self.width + x;
        self.pixels[i]
    }
}

} // verus!
