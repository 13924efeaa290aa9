//! The ASCII silhouette: one character per pixel, one row of the image per
//! row of text.

use vstd::prelude::*;
use vstd::string::StringExecFns;
use crate::image::Image;
use crate::pixel::Pixel;

verus! {

/// The silhouette character for one pixel: a space when every channel is
/// zero, `'x'` otherwise.
pub open spec fn sil_char(p: Pixel) -> char {
    if p.spec_is_set() {
        'x'
    } else {
        ' '
    }
}

/// One rendered row: the silhouette characters of row `y` left to right,
/// followed by the fixed row terminator.
pub open spec fn sil_row(img: Image, y: int) -> Seq<char> {
    Seq::new(img.spec_width() as nat, |x: int| sil_char(img.spec_pixel(x, y))) + "\r\n"@
}

/// The first `rows` rendered rows, top row first.
pub open spec fn sil_rows(img: Image, rows: int) -> Seq<char>
    decreases rows,
{
    if rows <= 0 {
        Seq::empty()
    } else {
        sil_rows(img, rows - 1) + sil_row(img, rows - 1)
    }
}

/// The full silhouette of an image: every row from top to bottom.
pub open spec fn sil_text(img: Image) -> Seq<char> {
    sil_rows(img, img.spec_height())
}

fn sil_char_str(p: Pixel) -> (s: &'static str)
    ensures
        s@ == seq![sil_char(p)],
{
    if p.is_set() {
        proof {
            reveal_strlit("x");
        }
        "x"
    } else {
        proof {
            reveal_strlit(" ");
        }
        " "
    }
}

fn sil_row_string(img: &Image, y: usize) -> (s: String)
    requires
        img.wf(),
        y < img.spec_height(),
    ensures
        s@ == sil_row(*img, y as int),
{
    let width = img.width();
    let mut s = String::new();
    let mut x: usize = 0;
    while x < width
        invariant
            img.wf(),
            width == img.spec_width(),
            y < img.spec_height(),
            x <= width,
            s@ =~= Seq::new(x as nat, |x2: int| sil_char(img.spec_pixel(x2, y as int))),
        decreases width - x,
    {
        let p = img.pixel(x, y);
        s.append(sil_char_str(p));
        x = x + 1;
        proof {
            assert(s@ =~= Seq::new(x as nat, |x2: int| sil_char(img.spec_pixel(x2, y as int))));
        }
    }
    s.append("\r\n");
    proof {
        assert(s@ =~= sil_row(*img, y as int));
    }
    s
}

/// Render the ASCII silhouette of an image: rows emitted top to bottom,
/// each pixel a space exactly when all of its channels are zero and an
/// `'x'` otherwise, each row closed by the fixed terminator.
pub fn silhouette(img: &Image) -> (s: String)
    requires
        img.wf(),
    ensures
        s@ == sil_text(*img),
{
    let height = img.height();
    let mut s = String::new();
    let mut y: usize = 0;
    while y < height
        invariant
            img.wf(),
            height == img.spec_height(),
            y <= height,
            s@ == sil_rows(*img, y as int),
        decreases height - y,
    {
        let row = sil_row_string(img, y);
        s.append(row.as_str());
        y = y + 1;
    }
    s
}

} // verus!
