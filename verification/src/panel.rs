//! Geometry of the panel and of the draw buffer that feeds it.

use vstd::prelude::*;

verus! {

/// Horizontal resolution of the panel, in pixels.
pub const PANEL_WIDTH: u32 = 800;

/// Vertical resolution of the panel, in pixels.
pub const PANEL_HEIGHT: u32 = 480;

/// The largest number of scanlines that are buffered in memory at once.
pub const BATCH_HEIGHT: u32 = 12;

/// Capacity of the draw buffer, in pixels: one batch of full-width scanlines.
pub const DRAW_BUFFER_PIXELS: u32 = 9600;

/// The draw buffer holds exactly one batch of full-width scanlines.
pub proof fn lemma_draw_buffer_is_one_batch()
    ensures
        DRAW_BUFFER_PIXELS == PANEL_WIDTH * BATCH_HEIGHT,
{
}

/// Whether the point `(x, y)` lies on the panel.
pub open spec fn on_panel(x: int, y: int) -> bool {
    0 <= x < PANEL_WIDTH && 0 <= y < PANEL_HEIGHT
}

/// Tests whether the point `(x, y)` lies on the panel.
pub fn is_on_panel(x: i32, y: i32) -> (r: bool)
    ensures
        r == on_panel(x as int, y as int),
{
    0 <= x && x < 800 && 0 <= y && y < 480
}

} // verus!
