//! Collecting the files of a directory whose names match a pattern.
pub mod helpers;
pub mod walker;
pub mod collector;
