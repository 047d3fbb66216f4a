//! Hex-tile scene core: camera and tiling state, deterministic terrain
//! generation, and models of the GPU-side resources (instance buffers,
//! framebuffers, render passes) that the windowing shell drives.
//!
//! Lengths, angles and scales are carried as integers in thousandths
//! (`*_milli` fields), so every rule about them is exact.

pub mod camera;
pub mod controls;
pub mod mesh;
pub mod multisampled_framebuffer;
pub mod pipeline;
pub mod renderer;
pub mod scene;
pub mod settings;
pub mod sprite;
pub mod terrain;
pub mod texture;
