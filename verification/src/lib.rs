pub mod codec;
pub mod dispatch;
pub mod geometry;
pub mod grid;
pub mod names;
pub mod pipeline;

use vstd::prelude::*;

verus! {

/// Side length, in pixels, of every generated thumbnail: thumbnails are
/// always exact squares of this size.
pub const THUMB_SIZE: u32 = 100;

} // verus!
