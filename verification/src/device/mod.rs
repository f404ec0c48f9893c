//! Devices: the per-device vocabulary and the manager of the fleet.
pub mod devices;
pub mod fleet;
pub mod forwarding;
pub mod laws;
pub mod manager;
pub mod recording;
pub mod routing;
pub mod turn;
