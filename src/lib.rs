//! A real-time rendering core: declarative pipeline resources, an offscreen
//! framebuffer that is composited onto the surface, and the discrete parts of
//! the camera input handling.

pub mod catalog;
pub mod pipeline;
pub mod framebuffer;
pub mod draw;
pub mod frame;
pub mod input;
pub mod scene;

