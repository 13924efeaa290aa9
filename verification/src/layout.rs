//! The two-state frame layout of the debug overlay: the whole terminal for
//! the camera view, or a primary region over a log panel when the debug
//! flag is set.

use vstd::prelude::*;

verus! {

/// Share of the frame height, in percent, that the primary region keeps
/// when the debug overlay is shown.
pub const PRIMARY_PERCENT: u16 = 66;

/// Runtime switches read each frame.
#[derive(Clone, Copy, PartialEq, Eq, Structural, Debug)]
pub struct Flags {
    /// Show the debug overlay: an FPS title and a scrolling log panel.
    pub debug: bool,
}

impl Default for Flags {
    /// The overlay starts hidden.
    fn default() -> (f: Flags)
        ensures
            !f.debug,
    {
        Flags { debug: false }
    }
}

/// A rectangular cell region of the terminal plane.
#[derive(Clone, Copy, PartialEq, Eq, Structural, Debug)]
pub struct Region {
    pub x: u16,
    pub y: u16,
    pub width: u16,
    pub height: u16,
}

/// Subtraction on cell counts that stops at zero.
pub open spec fn sat_sub(a: int, b: int) -> int {
    if a - b < 0 {
        0
    } else {
        a - b
    }
}

impl Region {
    /// The region lies inside the addressable terminal plane.
    pub open spec fn wf(self) -> bool {
        self.x + self.width <= 0xffff && self.y + self.height <= 0xffff
    }

    /// The interior left for content when a border one cell thick is drawn
    /// on every edge of this region: one cell in from each side, and empty
    /// in a dimension the border already exhausts.
    pub open spec fn spec_inner(self) -> Region {
        Region {
            x: (if self.width == 0 {
                self.x as int
            } else {
                self.x + 1
            }) as u16,
            y: (if self.height == 0 {
                self.y as int
            } else {
                self.y + 1
            }) as u16,
            width: sat_sub(self.width as int, 2) as u16,
            height: sat_sub(self.height as int, 2) as u16,
        }
    }

    /// Compute the interior of this region behind a full border.
    pub fn inner(&self) -> (r: Region)
        requires
            self.wf(),
        ensures
            r == self.spec_inner(),
            r.wf(),
    {
        let x: u16 = if self.width == 0 {
            self.x
        } else {
            self.x + 1
        };
        let y: u16 = if self.height == 0 {
            self.y
        } else {
            self.y + 1
        };
        let width: u16 = if self.width >= 2 {
            self.width - 2
        } else {
            0
        };
        let height: u16 = if self.height >= 2 {
            self.height - 2
        } else {
            0
        };
        Region { x, y, width, height }
    }
}

/// `p` percent of a frame height of `h` cells, rounded to the nearest
/// whole cell with halves rounding up.
pub open spec fn spec_percent_height(h: int, p: int) -> int {
    (h * p + 50) / 100
}

/// Compute the rounded percentage split of a frame height.
pub fn percent_height(h: u16, p: u16) -> (r: u16)
    requires
        p <= 100,
    ensures
        r == spec_percent_height(h as int, p as int),
        r <= h,
{
    proof {
        assert((h as int * p as int + 50) / 100 <= h as int) by (nonlinear_arith)
            requires
                0 <= h as int,
                0 <= p as int <= 100,
        ;
    }
    let v: u32 = (h as u32) * (p as u32) + 50;
    (v / 100) as u16
}

/// How one terminal frame is laid out.
#[derive(Clone, Copy, PartialEq, Eq, Debug)]
pub struct FrameLayout {
    /// The region the bordered frame is drawn on.
    pub frame: Region,
    /// The interior of the bordered frame, where the live camera view is
    /// rendered.
    pub primary: Region,
    /// The region of the scrolling log panel, present exactly when the
    /// debug overlay is shown.
    pub secondary: Option<Region>,
}

/// Lay out one frame.  With the debug flag clear, the camera view gets
/// the interior of the whole bordered frame and there is no log panel.
/// With it set, the frame is split: the top `PRIMARY_PERCENT` percent of
/// its height (rounded to the nearest cell) is bordered and its interior
/// given to the camera view, and the remaining bottom cells hold the log
/// panel.
pub fn debug_frame(area: Region, flags: &Flags) -> (l: FrameLayout)
    requires
        area.wf(),
    ensures
        l.frame.wf(),
        l.primary.wf(),
        l.secondary matches Some(panel) ==> panel.wf(),
        !flags.debug ==> l == (FrameLayout {
            frame: area,
            primary: area.spec_inner(),
            secondary: None,
        }),
        flags.debug ==> ({
            let split = spec_percent_height(area.height as int, PRIMARY_PERCENT as int);
            let top = (Region {
                x: area.x,
                y: area.y,
                width: area.width,
                height: split as u16,
            });
            let bottom = (Region {
                x: area.x,
                y: (area.y + split) as u16,
                width: area.width,
                height: (area.height - split) as u16,
            });
            l == (FrameLayout { frame: top, primary: top.spec_inner(), secondary: Some(bottom) })
        }),
{
    if flags.debug {
        let split = percent_height(area.height, PRIMARY_PERCENT);
        let top = Region { x: area.x, y: area.y, width: area.width, height: split };
        let bottom = Region {
            x: area.x,
            y: area.y + split,
            width: area.width,
            height: area.height - split,
        };
        FrameLayout { frame: top, primary: top.inner(), secondary: Some(bottom) }
    } else {
        FrameLayout { frame: area, primary: area.inner(), secondary: None }
    }
}

} // verus!
