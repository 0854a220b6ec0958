//! Decision core of a small real-time frame renderer.

pub mod device;
pub mod draw_flags;
pub mod draw_objects;
pub mod draw_theorems;
pub mod frame;
pub mod frame_theorems;
pub mod graphics;
pub mod pipelines;
pub mod swapchain;
pub mod uniform;
