//! Ingestion engine for "now playing" radio metadata.
//!
//! The crate models the decision core of a poller that watches a fleet of
//! radio-station endpoints (HTTP JSON/XML/RSS/text and WebSocket JSON),
//! extracts track fields from their payloads through declarative mappings,
//! deduplicates observations, and schedules the next poll adaptively.
//! All I/O (HTTP, WebSocket, database) lives in the surrounding binary;
//! the functions here are pure state transformers with verified contracts.

pub mod strutil;
pub mod hashing;
pub mod json;
pub mod jsontext;
pub mod times;
pub mod transport;
pub mod xml;
pub mod mapping;
pub mod headers;
pub mod model;
pub mod schedule;
pub mod pipeline;
pub mod writer;
pub mod ws;
pub mod supervisor;
