//! What runs the bridge: host events, the simulation tick, frame pacing.

pub mod events;
pub mod stat;
pub mod tick;
