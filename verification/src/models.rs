//! Data models of the cloud control-plane payloads and responses: identity,
//! image, network, server and volume resources.
pub mod auth;
pub mod image;
pub mod network;
pub mod server;
pub mod volume;
