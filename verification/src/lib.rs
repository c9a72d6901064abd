//! Build cache and replay engine for single-file scripts.
//!
//! A script is compiled once by an external compiler; the artifact, or the
//! diagnostics of a failed build, is kept in a content-addressed store under
//! a fingerprint of the script's raw bytes. This crate holds the rules of that
//! process: fingerprinting, splitting a script into configuration and source,
//! deriving the build manifest, normalising exit codes, and the state machine
//! that decides between building and replaying.

pub mod engine;
pub mod fingerprint;
pub mod manifest;
pub mod replay;
pub mod script;
pub mod status;
pub mod tee;
pub mod workspace;
