//! Geometry and visibility of the overlay indicator shown after a selection.

use vstd::prelude::*;

verus! {

/// A screen rectangle: top-left corner plus extent.
#[derive(Clone, Copy, Debug, PartialEq, Eq, Structural)]
pub struct IconRect {
    pub x: i32,
    pub y: i32,
    pub width: i32,
    pub height: i32,
}

impl IconRect {
    /// Whether `(px, py)` lies in the rectangle, all four edges included.
    pub open spec fn covers(self, px: int, py: int) -> bool {
        &&& self.x <= px <= self.x + self.width
        &&& self.y <= py <= self.y + self.height
    }

    /// Tests a point against the rectangle with inclusive edges.
    pub fn contains(&self, px: i32, py: i32) -> (inside: bool)
        ensures
            inside == self.covers(px as int, py as int),
    {
        let right: i64 = self.x as i64 + self.width as i64;
        let bottom: i64 = self.y as i64 + self.height as i64;
        self.x <= px && px as i64 <= right && self.y <= py && py as i64 <= bottom
    }
}

/// Where the overlay indicator sits and whether it is currently shown.
///
/// The rectangle is absent until the first call of [`IconBounds::set_bounds`].
#[derive(Clone, Copy, Debug, PartialEq, Eq, Structural)]
pub struct IconBounds {
    pub rect: Option<IconRect>,
    pub visible: bool,
}

impl IconBounds {
    /// Whether a click at `(px, py)` counts as landing on the indicator:
    /// the indicator is shown, has a rectangle, and the rectangle covers the
    /// point. Hidden bounds contain nothing.
    pub open spec fn holds(self, px: int, py: int) -> bool {
        &&& self.visible
        &&& self.rect matches Some(r)
        &&& r.covers(px, py)
    }

    /// Whether a press at `(px, py)` is a click away from a shown indicator.
    pub open spec fn misses(self, px: int, py: int) -> bool {
        self.visible && !self.holds(px, py)
    }

    /// A hidden indicator without a rectangle.
    pub fn new() -> (bounds: IconBounds)
        ensures
            bounds == (IconBounds { rect: None, visible: false }),
    {
        IconBounds { rect: None, visible: false }
    }

    /// Records the rectangle the indicator occupies; visibility is untouched.
    pub fn set_bounds(&mut self, x: i32, y: i32, width: i32, height: i32)
        ensures
            final(self).rect == Some(IconRect { x, y, width, height }),
            final(self).visible == old(self).visible,
    {
        self.rect = Some(IconRect { x, y, width, height });
    }

    /// Shows or hides the indicator; the rectangle is untouched.
    pub fn set_visible(&mut self, visible: bool)
        ensures
            final(self).visible == visible,
            final(self).rect == old(self).rect,
    {
        self.visible = visible;
    }

    /// Tests a click against the indicator with inclusive edges.
    pub fn contains(&self, px: i32, py: i32) -> (inside: bool)
        ensures
            inside == self.holds(px as int, py as int),
    {
        if !self.visible {
            return false;
        }
        match self.rect {
            Some(r) => r.contains(px, py),
            None => false,
        }
    }

    /// Whether a press at `(px, py)` should be reported as a click outside
    /// the indicator: only while it is shown, and only off its rectangle.
    pub fn is_click_outside(&self, px: i32, py: i32) -> (outside: bool)
        ensures
            outside == self.misses(px as int, py as int),
    {
        self.visible && !self.contains(px, py)
    }
}

/// Both corners of the rectangle are inside visible bounds whenever the
/// extent is non-negative: the test is inclusive at all four edges.
pub proof fn lemma_contains_inclusive_at_corners(bounds: IconBounds, r: IconRect)
    requires
        bounds.visible,
        bounds.rect == Some(r),
        r.width >= 0,
        r.height >= 0,
    ensures
        bounds.holds(r.x as int, r.y as int),
        bounds.holds(r.x + r.width, r.y + r.height),
        bounds.holds(r.x + r.width, r.y as int),
        bounds.holds(r.x as int, r.y + r.height),
        !bounds.holds(r.x - 1, r.y as int),
        !bounds.holds(r.x as int, r.y - 1),
        !bounds.holds(r.x + r.width + 1, r.y as int),
        !bounds.holds(r.x as int, r.y + r.height + 1),
{
}

/// Hidden bounds report every point as outside, whatever rectangle was set.
pub proof fn lemma_hidden_contains_nothing(bounds: IconBounds, px: int, py: int)
    requires
        !bounds.visible,
    ensures
        !bounds.holds(px, py),
        !bounds.misses(px, py),
{
}

} // verus!
