//! Render bridge between a simulated world and a GPU device.
//!
//! The simulation owns entity transforms and renderable payloads; the render
//! side owns the device and the window surfaces. The two meet only in render
//! proxies, which hand over one complete snapshot per tick.
//!
//! The library decides and the host acts: every GPU call, window call and
//! clock reading is the host's, and each of them is reported here as a plain
//! value. What to do next comes back as a plain value too.
//!
//! - [`component`]: transforms, payloads, primitives, pipeline labels and
//!   render proxies.
//! - [`buffer`]: vertex data and its layout in a vertex buffer.
//! - [`render`]: the device context, the life cycle of each surface, and the
//!   frame driver.
//! - [`runtime`]: dispatch of host events, the simulation tick, frame pacing.

pub mod buffer;
pub mod component;
pub mod render;
pub mod runtime;
