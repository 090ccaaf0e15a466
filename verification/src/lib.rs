//! Input translation core of a controller-to-virtual-Xbox-360 bridge: key name
//! lookup, button remapping, axis shaping, per-session input state and the
//! device filter, each stated and proved with Verus.

pub mod cli;
pub mod config;
pub mod devices;
pub mod keys;
pub mod mapping;
pub mod session;
pub mod viiper_bridge;
