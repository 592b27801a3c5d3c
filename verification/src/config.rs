//! Fixed parameters of the panel and of the frame pipeline.

use vstd::prelude::*;

verus! {

/// Width of the panel in pixels.
pub const LCD_WIDTH: usize = 320;

/// Height of the panel in pixels.
pub const LCD_HEIGHT: usize = 240;

/// Number of pixels in one full frame.
pub const LCD_BUFFER_SIZE: usize = LCD_WIDTH * LCD_HEIGHT;

/// Number of framebuffers that cycle between the two stages.
pub const BUFFER_COUNT: usize = 2;

/// Capacity of each of the two queues. It matches the number of buffers, so
/// a stage that hands a buffer on always finds room for its token.
pub const QUEUE_CAPACITY: usize = BUFFER_COUNT;

} // verus!
