//! The verified core of a desktop application's backend bridge.
//!
//! The host application loads one configuration record at startup and then
//! forwards requests of its front-end to a remote backend API. This crate
//! holds the decisions of that bridge: which profile is active, what the
//! outbound request looks like, and how the backend's answer becomes the
//! result that the front-end sees. The host performs the network exchange
//! itself and reports each outcome back as an event.

pub mod config;
pub mod json;
pub mod query;
pub mod query_enum;
pub mod request;
pub mod forward;
