//! Recording the telemetry of a device.
pub mod laws;
pub mod pointcloud;
pub mod recorder;
pub mod schemas;
pub mod session;
pub mod steps;
pub mod task;
pub mod text;
