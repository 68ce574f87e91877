//! In-memory state core for a local agent that brokers privileged requests
//! on behalf of a single paired remote client.
//!
//! The core keeps three pieces of volatile state: a single pending
//! registration slot with a five-minute expiry, a map of authentication
//! tokens each with its own expiry, and a registry of cancellation handles
//! keyed by request identifier. Expiry is checked lazily, at the moment of
//! use, against a caller-supplied timestamp in milliseconds.

mod clock;
pub mod laws;
pub mod state;
pub mod sync_map;
