//! Content-provenance attestations for generated images: a perceptual
//! fingerprint, a canonical witness with its binding commitment, and a
//! provenance marker embedded into PNG and JPEG byte streams.

pub mod bytes;
pub mod config;
pub mod embed;
pub mod fingerprint;
pub mod models;
pub mod pipeline;
pub mod witness;
