//! Ingestion core of a background transcription server: framing of the
//! legacy marker-delimited byte stream, classification of payloads, the
//! JSON request envelope and the conversion between the two wire formats.

pub mod alerting;
pub mod audio;
pub mod compat;
pub mod envelope;
pub mod environment;
pub mod frame;
pub mod ingest;
pub mod monitoring;
pub mod performance;
pub mod server;
pub mod transcription;
