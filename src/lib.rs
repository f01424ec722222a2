//! Typed vertex and pixel buffers over a graphics driver's buffer objects.
//!
//! The driver side is described by a [`context::Context`]: its version, its
//! extensions, and the handles it hands out. Buffers keep their layout,
//! their contents as seen by the element type, and the fences that the GPU
//! still has to signal before their memory may be touched.

pub mod context;
pub mod buffer;
pub mod vertex;
pub mod vertex_buffer;
pub mod pixel_buffer;
