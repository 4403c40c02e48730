//! Typed payloads of the second metered API server.

pub mod records;
pub mod data;
