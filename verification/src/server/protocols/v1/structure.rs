//! The envelope of the answers that tell all clients about a change.
use vstd::prelude::*;
use vstd::string::StringExecFns;

verus! {

/// What was done.
#[derive(Debug, Clone, Copy, PartialEq, Eq, Structural)]
pub enum Operation {
    Get,
    Put,
    Settings,
}

/// An answer about an operation, under the name of the service.
#[derive(Debug)]
pub struct AnsPackage {
    pub device: String,
    pub operation: Operation,
}

/// The names of the devices of a fleet.
#[derive(Debug)]
pub struct DevicesList {
    pub list: Vec<String>,
}

impl AnsPackage {
    /// The answer about `operation`. Every such answer is meant for all
    /// clients: the caller publishes it to the subscribers, without a
    /// device.
    pub fn new(operation: Operation) -> (package: AnsPackage)
        ensures
            package.device@ == "NI"@,
            package.operation == operation,
    {
        AnsPackage { device: String::from_str("NI"), operation }
    }
}

} // verus!
