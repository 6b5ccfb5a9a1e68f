//! The ways to reach gateways.
pub mod mqtt;
pub mod registry;
pub mod templates;
pub mod v3_json;
