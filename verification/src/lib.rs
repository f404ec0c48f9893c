//! Decision core of a sonar fleet service.
//!
//! The crate holds the rules by which a fleet of Ping sonar devices is
//! supervised: device identity, the lifecycle of a device record, the
//! routing of client requests, the fan-out of telemetry to subscribers and
//! the bookkeeping of recording sessions. Everything here works on plain
//! values; transports, tasks and sockets belong to the runtime that drives
//! these functions and carries out the orders they return.
pub mod device;
pub mod server;

use vstd::prelude::*;

verus! {

/// A client request together with the module that has to serve it.
#[derive(Debug)]
pub enum ModuleType {
    DeviceManager(device::manager::Request),
}

} // verus!
