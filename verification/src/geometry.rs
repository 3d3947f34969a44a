//! Plain integer geometry for surface sizes and window rectangles.

use vstd::prelude::*;

verus! {

/// A surface size in device pixels, fixed at surface creation.
#[derive(Clone, Copy, PartialEq, Eq, Structural, Debug)]
pub struct SurfaceSize {
    pub width: i32,
    pub height: i32,
}

/// A window rectangle in screen coordinates, as the windowing system reports
/// it: `left`/`top` is the upper-left corner, `right`/`bottom` the lower-right.
#[derive(Clone, Copy, PartialEq, Eq, Structural, Debug)]
pub struct WidgetBounds {
    pub left: i32,
    pub top: i32,
    pub right: i32,
    pub bottom: i32,
}

impl WidgetBounds {
    /// A rectangle is representable when its corners are ordered and its
    /// extent fits in an `i32`.
    pub open spec fn representable(self) -> bool {
        &&& self.left <= self.right
        &&& self.top <= self.bottom
        &&& self.right - self.left <= i32::MAX
        &&& self.bottom - self.top <= i32::MAX
    }

    /// The size of the rectangle.
    pub open spec fn size_spec(self) -> SurfaceSize {
        SurfaceSize {
            width: (self.right - self.left) as i32,
            height: (self.bottom - self.top) as i32,
        }
    }

    /// Checks that the rectangle is representable, and returns its size.
    pub fn size(&self) -> (r: Option<SurfaceSize>)
        ensures
            r == (if self.representable() {
                Some(self.size_spec())
            } else {
                None::<SurfaceSize>
            }),
    {
        let width = self.right as i64 - self.left as i64;
        let height = self.bottom as i64 - self.top as i64;
        if 0 <= width && width <= i32::MAX as i64 && 0 <= height && height <= i32::MAX as i64 {
            Some(SurfaceSize { width: width as i32, height: height as i32 })
        } else {
            None
        }
    }
}

} // verus!
