//! Helpers that the proxy shares with the backend layer.

pub mod byte_name;
