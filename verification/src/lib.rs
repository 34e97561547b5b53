//! Integer geometry for a 2D multimedia layer: points and axis-aligned
//! rectangles with overflow-safe arithmetic, plus the small value types
//! (colors, input state, window settings) that travel with them.

pub mod scalar;
pub mod color;
pub mod enclose;
pub mod events;
pub mod line_clip;
pub mod point;
pub mod rect;
pub mod timing;
pub mod window;
