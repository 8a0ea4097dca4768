//! A stylized "pixel art" rendering core.
//!
//! The library models, and verifies, the decision logic of a two-camera
//! pixel-art renderer: a full-resolution reference view and a low-resolution
//! stylized view of the same scene are produced independently, then merged by
//! a depth-aware compositor.  Colors, depths and shading coefficients are
//! carried as fixed-point integers so that every stage is exact and provable;
//! the host engine that owns the GPU performs the actual draws and feeds this
//! library plain values.

pub mod capture;
pub mod color;
pub mod compositor;
pub mod dither;
pub mod fixed;
pub mod palette;
pub mod params;
pub mod pipeline;
pub mod schedule;
pub mod shading;
pub mod toon;
