//! Storage core of a paste service: compact entry identifiers, a zstd codec
//! for stored text, an SQLite-backed entry store with expiry and
//! burn-after-reading, and an LRU cache of rendered views.

pub mod cache;
pub mod codec;
pub mod db;
pub mod errors;
pub mod id;
pub mod json;
