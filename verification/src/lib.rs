//! Building blocks for small REST back-ends: a bounded, UTF-8-validated
//! request-body value, uniform JSON reply envelopes with status-code
//! mapping, and environment-driven server configuration.
//!
//! The crate is framework-agnostic: a host web framework supplies the raw
//! request bytes and carries the replies over the wire; everything between
//! those two edges is specified and verified here.

pub mod api;
pub mod app;
pub mod config;
pub mod decimal;
