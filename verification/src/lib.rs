//! Verified core of a client for a vendor's browser-only media API.
//!
//! The library covers the pure logic of the client: extracting an
//! application id and candidate signing secrets from the vendor's script
//! bundle, validating candidate secrets against probe verdicts, building
//! signed request parameters, falling back across stream qualities, and a
//! bounded LRU cache for downloaded audio payloads.  All network traffic
//! is left to the surrounding application, which feeds plain values into
//! these functions and carries their decisions out.

pub mod bundle;
pub mod cache;
pub mod client;
pub mod error;
pub mod quality;
pub mod request;
pub mod stream;
pub mod text;
