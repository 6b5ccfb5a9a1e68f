//! What the operations are for. Each law speaks of the arguments and the result of a call, and says
//! what holds of them in terms of nothing else.
pub mod devices;
pub mod history;
pub mod identifiers;
pub mod mqtt;
pub mod registry;
pub mod service;
pub mod templates;
pub mod v3_json;
