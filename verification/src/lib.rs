//! A join cache for live audio/video streams.
//!
//! A publish session feeds every metadata, audio and video unit into a
//! [`cache::Cache`]. The cache keeps the latest metadata, the latest codec
//! sequence headers and a bounded window of closed groups of pictures, so that
//! a subscriber who joins late can be brought up to the live edge.

pub mod cache;
pub mod channel;
pub mod errors;
pub mod gop;
pub mod metadata;
pub mod payload;
pub mod tag;
