//! Entities as the simulation sees them: transforms, payloads, primitives,
//! and the proxies that mirror them for the render side.

pub mod label;
pub mod primitive;
pub mod proxy;
pub mod transform;
