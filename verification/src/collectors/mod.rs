//! Artifact collection: storage paths, the platform collectors and their
//! choice of collection method, and process memory collection.
pub mod collector;
pub mod permission_tracker;
pub mod platforms;
pub mod memory;
pub mod regex;
pub mod volatile;
pub mod streaming;
