//! Core logic of a local speech-transcription service: decode-pass
//! orchestration with quality fallbacks, a round-robin pool of inference
//! handles, cross-process model acquisition, configuration parsing, and
//! transcript formatting.
//!
//! Everything here is plain computation over strings and integers; the
//! surrounding process (HTTP, filesystem, network, the inference engine
//! itself) drives these types from outside and hands them plain values.

pub mod api;
pub mod audio;
pub mod backend;
pub mod config;
pub mod error;
pub mod formats;
pub mod model_store;
pub mod text;
