//! Verified core of a CPU ray tracer: P3 pixmap encoding, scene planning
//! for the built-in presets, texture lookups and the preview scheduler.

pub mod ppm;
pub mod presets;
pub mod preview;
pub mod render;
pub mod texture;
