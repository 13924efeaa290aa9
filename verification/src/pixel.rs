//! A pixel in display range, and the silhouette classification rule.

use vstd::prelude::*;

verus! {

/// One pixel of the offscreen render target, with its red, green and blue
/// channels already converted to display range (0 to 255).
#[derive(Clone, Copy, PartialEq, Eq, Structural, Debug)]
pub struct Pixel {
    pub r: u8,
    pub g: u8,
    pub b: u8,
}

impl Pixel {
    /// A pixel is part of the silhouette exactly when some channel is non-zero.
    pub open spec fn spec_is_set(self) -> bool {
        self.r != 0 || self.g != 0 || self.b != 0
    }

    pub fn new(r: u8, g: u8, b: u8) -> (p: Pixel)
        ensures
            p == (Pixel { r, g, b }),
    {
        Pixel { r, g, b }
    }

    /// Classify this pixel as silhouette foreground or background.
    pub fn is_set(&self) -> (set: bool)
        ensures
            set == self.spec_is_set(),
    {
        self.r != 0 || self.g != 0 || self.b != 0
    }
}

} // verus!
