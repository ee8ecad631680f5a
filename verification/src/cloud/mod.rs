//! Uploads of collected artifacts: retries, SFTP and S3 upload plans, and
//! the part buffer of streaming uploads.
pub mod retry;
pub mod sftp;
pub mod s3;
pub mod streaming_target;
pub mod streaming;
