//! Noise-driven terrain strip: a scrolling viewport, a sampler that turns a
//! coherent-noise value into a surface row, and a compositor that fills an
//! RGBA pixel buffer column by column.

pub mod compositor;
pub mod input;
pub mod offset;
pub mod pixels;
pub mod sampler;
pub mod viewer;
pub mod world;
