use vstd::prelude::*;
use crate::size::Size;

verus! {

/// Box of texels copied from a captured frame's buffer into the composition
/// surface. It is anchored at the top-left corner and spans one slice.
#[derive(Clone, Copy, Debug, PartialEq, Eq, Structural)]
pub struct CopyRegion {
    pub left: u32,
    pub top: u32,
    pub front: u32,
    pub right: u32,
    pub bottom: u32,
    pub back: u32,
}

/// `content` clamped into `0..=limit`.
pub open spec fn clamp_dim(content: int, limit: int) -> int {
    if content < 0 {
        0
    } else if content > limit {
        limit
    } else {
        content
    }
}

/// The smaller of two dimensions.
pub open spec fn min_dim(a: int, b: int) -> int {
    if a <= b {
        a
    } else {
        b
    }
}

/// A surface dimension as a bound on a copy: a negative one admits nothing.
pub open spec fn dim_limit(v: i32) -> int {
    if v < 0 {
        0
    } else {
        v as int
    }
}

/// The top-left region of `content` clamped into a `width` by `height` box.
pub open spec fn clamped_region(content: Size, width: int, height: int) -> CopyRegion {
    CopyRegion {
        left: 0,
        top: 0,
        front: 0,
        right: clamp_dim(content.width as int, width) as u32,
        bottom: clamp_dim(content.height as int, height) as u32,
        back: 1,
    }
}

/// A top-left region whose copy stays within a `width` by `height` buffer.
pub open spec fn fits_within(r: CopyRegion, width: int, height: int) -> bool {
    r.left == 0 && r.top == 0 && r.front == 0 && r.back == 1 && r.right <= width && r.bottom
        <= height
}

/// `content` clamped into `0..=limit`, where `limit` is unsigned.
fn clamp_to(content: i32, limit: u32) -> (r: u32)
    ensures
        r as int == clamp_dim(content as int, limit as int),
{
    if content < 0 {
        0
    } else if content as u32 > limit {
        limit
    } else {
        content as u32
    }
}

/// The region of a frame to copy: the frame's content size clamped, in each
/// dimension, between zero and the frame's buffer size. A content size larger
/// than the buffer (the capture target grew) is cut down to the buffer; a
/// negative one becomes empty.
pub fn clamp_region(content: Size, buffer_width: u32, buffer_height: u32) -> (r: CopyRegion)
    ensures
        r == clamped_region(content, buffer_width as int, buffer_height as int),
        fits_within(r, buffer_width as int, buffer_height as int),
{
    CopyRegion {
        left: 0,
        top: 0,
        front: 0,
        right: clamp_to(content.width, buffer_width),
        bottom: clamp_to(content.height, buffer_height),
        back: 1,
    }
}

/// The fixed-size surface that every frame is composed onto before format
/// conversion. Its size is chosen once and never changes.
pub struct Compositor {
    surface: Size,
}

impl Compositor {
    /// The size of the composition surface.
    pub closed spec fn surface_spec(&self) -> Size {
        self.surface
    }

    /// A compositor over a surface of size `surface`.
    pub fn new(surface: Size) -> (r: Self)
        ensures
            r.surface_spec() == surface,
    {
        Compositor { surface }
    }

    /// The size of the composition surface.
    pub fn surface(&self) -> (r: Size)
        ensures
            r == self.surface_spec(),
    {
        self.surface
    }

    /// The region of a frame to copy onto the surface: its content size
    /// clamped to the frame's buffer and to the surface, so that the copy
    /// reads only inside the buffer and writes only inside the surface.
    /// Everything of the surface outside the region is cleared beforehand.
    pub fn region_for(&self, content: Size, buffer_width: u32, buffer_height: u32) -> (r:
        CopyRegion)
        ensures
            r == clamped_region(
                content,
                min_dim(buffer_width as int, dim_limit(self.surface_spec().width)),
                min_dim(buffer_height as int, dim_limit(self.surface_spec().height)),
            ),
            fits_within(r, buffer_width as int, buffer_height as int),
            fits_within(
                r,
                dim_limit(self.surface_spec().width),
                dim_limit(self.surface_spec().height),
            ),
    {
        let sw: u32 = if self.surface.width < 0 {
            0
        } else {
            self.surface.width as u32
        };
        let sh: u32 = if self.surface.height < 0 {
            0
        } else {
            self.surface.height as u32
        };
        let w: u32 = if buffer_width <= sw {
            buffer_width
        } else {
            sw
        };
        let h: u32 = if buffer_height <= sh {
            buffer_height
        } else {
            sh
        };
        clamp_region(content, w, h)
    }
}

} // verus!
