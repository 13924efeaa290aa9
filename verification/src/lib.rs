//! Text-mode rendering rules for a small physics demo scene.
//!
//! A host engine simulates a falling block over a static ground and hands
//! this library plain values: pixel buffers read back from an offscreen
//! render target, and the terminal area to lay a frame out in.  The library
//! holds the verified rules for what is printed: the per-pixel dump lines,
//! the ASCII silhouette, and the two-state debug-overlay frame layout.

pub mod decimal;
pub mod dump;
pub mod image;
pub mod layout;
pub mod pixel;
pub mod silhouette;
