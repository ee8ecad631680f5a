//! Limits and defaults shared across the collector.
use vstd::prelude::*;

verus! {

/// Default limit on the memory collected from all processes together: 1 GiB.
pub const DEFAULT_MAX_TOTAL_MEMORY: u64 = 1073741824;

/// Default limit on the memory collected from one process: 512 MiB.
pub const DEFAULT_MAX_PROCESS_MEMORY: u64 = 536870912;

/// Regions smaller than this many bytes are not dumped.
pub const MIN_DUMP_REGION_SIZE: u64 = 4096;

/// Default smallest region size selected by a region filter: 4 KiB.
pub const DEFAULT_MIN_REGION_SIZE: u64 = 4096;

/// Default SFTP port.
pub const SFTP_DEFAULT_PORT: u16 = 22;

/// Default number of parallel SFTP connections.
pub const SFTP_DEFAULT_CONCURRENT_CONNECTIONS: usize = 4;

/// Default SFTP transfer buffer: 8 MiB.
pub const SFTP_BUFFER_SIZE: usize = 8388608;

/// Default connection timeout in seconds.
pub const DEFAULT_CONNECTION_TIMEOUT_SECS: u64 = 30;

/// How many times an upload is attempted.
pub const MAX_UPLOAD_RETRIES: usize = 3;

/// Files of this many bytes or more are uploaded in parts: 50 MiB.
pub const LARGE_FILE_THRESHOLD: u64 = 52428800;

/// Size of one part of an S3 multipart upload: 8 MiB.
pub const S3_UPLOAD_CHUNK_SIZE: usize = 8388608;

/// Smallest part S3 accepts in a multipart upload (but the last): 5 MiB.
pub const S3_MIN_PART_SIZE: usize = 5242880;

/// Delay before the first retry, in milliseconds, doubled for each further attempt.
pub const RETRY_BASE_DELAY_MS: u64 = 250;

/// Longest delay between two attempts, in seconds.
pub const RETRY_MAX_DELAY_SECS: u64 = 30;

/// Bytes per mebibyte.
pub const MIB: usize = 1048576;

/// Size of one chunk when a large memory region is read piece by piece: 1 MiB.
pub const MEMORY_CHUNK_SIZE: usize = 1048576;

/// Regions larger than this many bytes are read in chunks: 10 MiB.
pub const LARGE_REGION_SIZE: usize = 10485760;

/// A chunked read gives up after this many failed chunks.
pub const MAX_CHUNK_FAILURES: u32 = 5;

} // verus!
