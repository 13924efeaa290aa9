//! The raw pixel dump: one line of text per grid coordinate, in
//! column-major order.

use vstd::prelude::*;
use vstd::string::StringExecFns;
use crate::decimal::{dec_rep, dec_string};
use crate::image::Image;
use crate::pixel::Pixel;

verus! {

/// The dump line for the pixel `p` sampled at `(x, y)`.
pub open spec fn dump_line(x: int, y: int, p: Pixel) -> Seq<char> {
    "Pixel at ("@ + dec_rep(x) + ", "@ + dec_rep(y) + "): ["@ + dec_rep(p.r as int) + ","@
        + dec_rep(p.g as int) + ","@ + dec_rep(p.b as int) + "]"@
}

/// Render the dump line for one sampled pixel.
pub fn dump_line_string(x: usize, y: usize, p: Pixel) -> (s: String)
    ensures
        s@ == dump_line(x as int, y as int, p),
{
    let mut s = "Pixel at (".to_owned();
    s.append(dec_string(x as u64).as_str());
    s.append(", ");
    s.append(dec_string(y as u64).as_str());
    s.append("): [");
    s.append(dec_string(p.r as u64).as_str());
    s.append(",");
    s.append(dec_string(p.g as u64).as_str());
    s.append(",");
    s.append(dec_string(p.b as u64).as_str());
    s.append("]");
    proof {
        assert(s@ =~= dump_line(x as int, y as int, p));
    }
    s
}

proof fn lemma_col_index_bound(x2: int, y2: int, x: int, height: int)
    requires
        0 <= x2 < x,
        0 <= y2 < height,
    ensures
        x2 * height + y2 < x * height,
{
    assert(x2 * height + y2 < x * height) by (nonlinear_arith)
        requires
            0 <= x2 < x,
            0 <= y2 < height,
    ;
}

/// Produce the full pixel dump of an image: for every coordinate of the
/// grid exactly one line, the lines ordered column by column (`x` outer,
/// `y` inner).
pub fn pixel_dump(img: &Image) -> (lines: Vec<String>)
    requires
        img.wf(),
    ensures
        lines@.len() == img.spec_width() * img.spec_height(),
        forall|x: int, y: int|
            0 <= x < img.spec_width() && 0 <= y < img.spec_height() ==> lines@[x
                * img.spec_height() + y]@ == dump_line(x, y, #[trigger] img.spec_pixel(x, y)),
{
    let width = img.width();
    let height = img.height();
    let mut lines: Vec<String> = Vec::new();
    let mut x: usize = 0;
    while x < width
        invariant
            img.wf(),
            width == img.spec_width(),
            height == img.spec_height(),
            x <= width,
            lines@.len() == x * height,
            forall|x2: int, y2: int|
                0 <= x2 < x && 0 <= y2 < height ==> lines@[x2 * height + y2]@ == dump_line(
                    x2,
                    y2,
                    #[trigger] img.spec_pixel(x2, y2),
                ),
        decreases width - x,
    {
        let mut y: usize = 0;
        while y < height
            invariant
                img.wf(),
                width == img.spec_width(),
                height == img.spec_height(),
                x < width,
                y <= height,
                lines@.len() == x * height + y,
                forall|x2: int, y2: int|
                    0 <= x2 < x && 0 <= y2 < height ==> lines@[x2 * height + y2]@ == dump_line(
                        x2,
                        y2,
                        #[trigger] img.spec_pixel(x2, y2),
                    ),
                forall|y2: int|
                    0 <= y2 < y ==> lines@[x * height + y2]@ == dump_line(
                        x as int,
                        y2,
                        #[trigger] img.spec_pixel(x as int, y2),
                    ),
            decreases height - y,
        {
            let p = img.pixel(x, y);
            let line = dump_line_string(x, y, p);
            lines.push(line);
            y = y + 1;
            proof {
                assert forall|x2: int, y2: int|
                    0 <= x2 < x && 0 <= y2 < height implies lines@[x2 * height + y2]@ == dump_line(
                    x2,
                    y2,
                    #[trigger] img.spec_pixel(x2, y2),
                ) by {
                    lemma_col_index_bound(x2, y2, x as int, height as int);
                };
            }
        }
        x = x + 1;
        proof {
            assert forall|x2: int, y2: int|
                0 <= x2 < x && 0 <= y2 < height implies lines@[x2 * height + y2]@ == dump_line(
                x2,
                y2,
                #[trigger] img.spec_pixel(x2, y2),
            ) by {
                if x2 < x - 1 {
                    lemma_col_index_bound(x2, y2, x as int - 1, height as int);
                }
            };
            assert(lines@.len() == x * height) by (nonlinear_arith)
                requires
                    lines@.len() == (x - 1) * height + height,
            ;
        }
    }
    lines
}

} // verus!
