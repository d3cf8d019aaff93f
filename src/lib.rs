//! Authentication and anti-replay core of a telemetry ingestion endpoint.
//!
//! A signed envelope is checked in a fixed order: its HMAC-SHA-256 signature,
//! the structure of the message, the freshness of its expiry, and finally the
//! novelty of its nonce against a two-generation replay cache.
pub mod error;
pub mod timing;
pub mod nonce_cache;
pub mod signature;
pub mod text;
pub mod json;
pub mod ip;
pub mod message;
pub mod pipeline;
