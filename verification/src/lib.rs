//! Connection acceptance, protocol negotiation and server lifecycle for an
//! HTTP server, together with the small configuration types that sit around
//! them.

pub mod conn;
pub mod cors;
pub mod error;
pub mod extract;
pub mod http;
pub mod oapi;
pub mod proxy;
pub mod routing;
pub mod serve_static;
pub mod server;
pub mod service;
pub mod text;
pub mod tower_compat;
