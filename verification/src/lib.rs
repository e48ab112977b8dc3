//! An edge gateway's decisions: configuration rules, the reverse proxy's
//! rewriting of paths and headers, and the hardening applied to every
//! response on the TLS side.

pub mod config;
pub mod gateway;
pub mod headers;
pub mod laws;
pub mod middleware;
pub mod proxy;
pub mod text;
