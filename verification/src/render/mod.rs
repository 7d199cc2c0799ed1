//! The render side: device, window surfaces and the per-frame pipeline.

pub mod contexts;
pub mod device;
pub mod frame;
pub mod surface;
pub mod windows;
