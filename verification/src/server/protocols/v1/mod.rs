//! The first version of the client protocol.
pub mod rest;
pub mod structure;
pub mod websocket;
