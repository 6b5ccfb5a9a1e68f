//! Extensions of a LoRaWAN network server.
//!
//! `alinkwise` is a service for tenants: it lists their devices and the events of a device, and
//! clears what is stored of a gateway or a device. `gateway` talks to gateways through an MQTT
//! broker, also to those that speak JSON of the third version. What both decide and compute stands
//! here; whatever reaches a database, the store or the broker is done by the caller, who is told
//! what to do next and hands back what came of it.
pub mod alinkwise;
pub mod eui64;
pub mod gateway;
pub mod json;
pub mod laws;
pub mod rows;
pub mod tags;
pub mod text;
pub mod time;
pub mod uuids;
