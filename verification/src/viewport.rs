use vstd::prelude::*;

verus! {

/// Pixel rectangle of the window that the 3D scene is drawn into.
#[derive(Clone, Copy, Debug)]
pub struct SceneViewport {
    pub offset_x: u32,
    pub offset_y: u32,
    pub width: u32,
    pub height: u32,
}

/// `v` limited to `lo..=hi` (for `lo <= hi`).
pub open spec fn clamp_spec(v: int, lo: int, hi: int) -> int {
    if v < lo {
        lo
    } else if v > hi {
        hi
    } else {
        v
    }
}

/// `v` limited to `lo..=hi`.
pub fn clamp_u32(v: u32, lo: u32, hi: u32) -> (r: u32)
    requires
        lo <= hi,
    ensures
        r == clamp_spec(v as int, lo as int, hi as int),
{
    if v < lo {
        lo
    } else if v > hi {
        hi
    } else {
        v
    }
}

impl SceneViewport {
    /// The viewport covering a whole `width` x `height` surface.
    pub fn full(width: u32, height: u32) -> (r: Self)
        ensures
            r.offset_x == 0,
            r.offset_y == 0,
            r.width == width,
            r.height == height,
    {
        SceneViewport { offset_x: 0, offset_y: 0, width, height }
    }

    /// The viewport moved and shrunk so that it lies inside a
    /// `width` x `height` surface; an empty surface gives the empty viewport.
    pub open spec fn clamped_spec(self, width: u32, height: u32) -> Self {
        if width == 0 || height == 0 {
            Self::full_spec(0, 0)
        } else {
            let offset_x = if self.offset_x < width { self.offset_x } else { (width - 1) as u32 };
            let offset_y = if self.offset_y < height { self.offset_y } else { (height - 1) as u32 };
            SceneViewport {
                offset_x,
                offset_y,
                width: clamp_spec(self.width as int, 1, width - offset_x) as u32,
                height: clamp_spec(self.height as int, 1, height - offset_y) as u32,
            }
        }
    }

    /// The viewport lies inside a `width` x `height` surface and covers at
    /// least one pixel.
    pub open spec fn inside(self, width: u32, height: u32) -> bool {
        &&& 1 <= self.width
        &&& 1 <= self.height
        &&& self.offset_x + self.width <= width
        &&& self.offset_y + self.height <= height
    }

    pub fn clamped(self, width: u32, height: u32) -> (r: Self)
        ensures
            r == self.clamped_spec(width, height),
            (width > 0 && height > 0) ==> r.inside(width, height),
    {
        if width == 0 || height == 0 {
            return Self::full(0, 0);
        }
        let offset_x = self.offset_x.min(width.saturating_sub(1));
        let offset_y = self.offset_y.min(height.saturating_sub(1));
        let max_width = width.saturating_sub(offset_x).max(1);
        let max_height = height.saturating_sub(offset_y).max(1);
        SceneViewport {
            offset_x,
            offset_y,
            width: clamp_u32(self.width, 1, max_width),
            height: clamp_u32(self.height, 1, max_height),
        }
    }

    pub open spec fn full_spec(width: u32, height: u32) -> Self {
        SceneViewport { offset_x: 0, offset_y: 0, width, height }
    }
}

/// Clamping a viewport that already lies inside the surface leaves it as it
/// is, so clamping twice is clamping once.
pub proof fn lemma_clamped_idempotent(v: SceneViewport, width: u32, height: u32)
    ensures
        (width > 0 && height > 0 && v.inside(width, height)) ==> v.clamped_spec(width, height) == v,
        v.clamped_spec(width, height).clamped_spec(width, height) == v.clamped_spec(width, height),
{
}

} // verus!
