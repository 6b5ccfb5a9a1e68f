//! Gateways.
pub mod backend;
