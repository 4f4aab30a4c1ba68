//! A client core for a media-center appliance that speaks JSON-RPC over
//! HTTP with Basic authentication: credential building, request
//! construction, reply interpretation, random episode resolution, the
//! multi-user show selection, and the decisions of the idle-driven
//! autoplay loop. The network round-trip itself stays with the caller;
//! everything here works on plain values under explicit contracts.

pub mod auth;
pub mod autoplay;
pub mod client;
pub mod codec;
pub mod error;
pub mod json;
pub mod player;
pub mod request;
pub mod resolve;
pub mod select;
