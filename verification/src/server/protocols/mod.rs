//! The protocols that clients speak, by version.
pub mod v1;
