//! The backend-identity layer of a reverse proxy.
//!
//! For each virtual host the layer keeps the upstream targets that may serve
//! a request, with the strategy that picks one of them, and the TLS server
//! configuration of the host, which a reload replaces while handshakes go on.

pub mod backend;
pub mod error;
pub mod utils;
