//! A verified multipart upload engine for build artifacts.
//!
//! The engine splits a file into parts, plans batches bounded by a
//! concurrency limit, and drives the three-phase protocol
//! (initiate, transfer parts, complete or abort) as a state machine.
//! All remote calls are performed by the embedding program, which feeds
//! their outcomes back to the engine as events.

pub mod api;
pub mod artifact;
pub mod batch;
pub mod ci_metadata;
pub mod config;
pub mod engine;
pub mod error;
pub mod file_config;
pub mod metadata;
pub mod numbers;
pub mod plan;
pub mod progress;
pub mod text;

pub use api::{BuildPlatform, DeletionPolicy};
pub use config::Config;
pub use engine::{UploadAction, UploadEngine, UploadOptions, UploadPhase};
pub use error::Error;
