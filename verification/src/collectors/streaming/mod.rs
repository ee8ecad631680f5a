//! Streaming collected artifacts into an archive on an upload target.
pub mod progress;
