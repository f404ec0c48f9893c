//! What the service says to its clients.
pub mod protocols;
