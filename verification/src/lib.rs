//! Weather-forecast acquisition and normalization library.
//!
//! Fetch-outcome classification, the cache fallback policy, and the
//! normalization of a raw forecast payload into display-ready records
//! are implemented and verified here; network and file I/O stay with
//! the caller.

pub mod cache;
pub mod codes;
pub mod dates;
pub mod daynight;
pub mod display;
pub mod errors;
pub mod fetch;
pub mod model;
pub mod text;
