//! Typed payloads of the first metered API server.

pub mod data;
