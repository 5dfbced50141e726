//! Two cameras side by side, each on half of the window.
use vstd::prelude::*;

verus! {

/// A rectangle of the window in physical pixels, and the order in which its
/// camera renders.
#[derive(Debug, Clone, Copy, PartialEq, Eq, Structural)]
pub struct Viewport {
    pub x: u32,
    pub y: u32,
    pub width: u32,
    pub height: u32,
    pub order: isize,
}

/// The viewports of the left and the right camera for a window of `width`
/// by `height` physical pixels: each is half the width (rounded down) and
/// the full height, the left one at the origin rendering first, the right
/// one starting at half the width.
pub fn split_viewports(width: u32, height: u32) -> (r: (Viewport, Viewport))
    ensures
        r.0 == (Viewport { x: 0, y: 0, width: width / 2, height, order: 1 }),
        r.1 == (Viewport { x: width / 2, y: 0, width: width / 2, height, order: 2 }),
{
    let half = width / 2;
    (
        Viewport { x: 0, y: 0, width: half, height, order: 1 },
        Viewport { x: half, y: 0, width: half, height, order: 2 },
    )
}

} // verus!
