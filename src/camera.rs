//! The aspect ratio that the projection is built with.
use vstd::prelude::*;

verus! {

/// A width-to-height ratio, kept as the two sides of the fraction.
#[derive(Debug, Copy, Clone, PartialEq, Eq, Structural)]
pub struct AspectRatio {
    pub width: u32,
    pub height: u32,
}

/// The ratio of a surface of the given size; a degenerate surface (either side
/// zero, as when a window is minimized) falls back to 16:9.
pub open spec fn aspect_of(width: u32, height: u32) -> AspectRatio {
    if width == 0 || height == 0 {
        AspectRatio { width: 16, height: 9 }
    } else {
        AspectRatio { width, height }
    }
}

pub fn get_aspect(width: u32, height: u32) -> (r: AspectRatio)
    ensures
        r == aspect_of(width, height),
        r.width > 0 && r.height > 0,
{
    if width == 0 || height == 0 {
        AspectRatio { width: 16, height: 9 }
    } else {
        AspectRatio { width, height }
    }
}

} // verus!
