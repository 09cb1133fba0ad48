//! Drawing the overlay in programs that present with Direct3D 12.

pub mod draw;
pub mod fence;
pub mod rtv;
pub mod setup;
