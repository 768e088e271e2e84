//! Extraction and normalisation engine of a privacy-preserving viewer for a
//! short-video platform.
//!
//! The library classifies what a visitor typed, finds the state that the
//! platform embeds in its pages, resolves it into users, videos and tags, and
//! decides which media addresses may be proxied. It performs no I/O: the
//! server around it fetches pages and hands their text in.

pub mod error;
pub mod percent;
pub mod routes;
pub mod text;
pub mod tiktok;
