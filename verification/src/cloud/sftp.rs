//! SFTP uploads: their configuration, retry settings, progress, remote
//! paths and the choice between a whole-file and a chunked upload.
use vstd::prelude::*;
use crate::constants::{
    SFTP_DEFAULT_PORT, SFTP_DEFAULT_CONCURRENT_CONNECTIONS, SFTP_BUFFER_SIZE,
    DEFAULT_CONNECTION_TIMEOUT_SECS, MAX_UPLOAD_RETRIES, LARGE_FILE_THRESHOLD, RETRY_BASE_DELAY_MS,
    RETRY_MAX_DELAY_SECS, MIB,
};
use crate::cloud::retry::{backoff, backoff_delay_ms};
use crate::text::{chars_of, string_of, append_chars, append_str, decimal, decimal_exec, trim_end_char, trim_end_char_exec};

verus! {

/// How to reach an SFTP server and where to upload.
#[derive(Debug, Clone)]
pub struct SFTPConfig {
    pub host: String,
    pub port: u16,
    pub username: String,
    /// The SSH private key used to authenticate.
    pub private_key_path: String,
    /// The directory on the server that receives the files.
    pub remote_path: String,
    pub concurrent_connections: usize,
    pub buffer_size_mb: usize,
    pub connection_timeout_sec: u64,
    pub max_retries: usize,
}

impl Default for SFTPConfig {
    /// No server, port 22, 4 connections, an 8 MiB buffer, a 30 s timeout
    /// and 3 attempts.
    fn default() -> (c: SFTPConfig)
        ensures
            c.host@ == Seq::<char>::empty(),
            c.port == SFTP_DEFAULT_PORT,
            c.username@ == Seq::<char>::empty(),
            c.private_key_path@ == Seq::<char>::empty(),
            c.remote_path@ == Seq::<char>::empty(),
            c.concurrent_connections == SFTP_DEFAULT_CONCURRENT_CONNECTIONS,
            c.buffer_size_mb == SFTP_BUFFER_SIZE / MIB,
            c.connection_timeout_sec == DEFAULT_CONNECTION_TIMEOUT_SECS,
            c.max_retries == MAX_UPLOAD_RETRIES,
    {
        SFTPConfig {
            host: String::new(),
            port: SFTP_DEFAULT_PORT,
            username: String::new(),
            private_key_path: String::new(),
            remote_path: String::new(),
            concurrent_connections: SFTP_DEFAULT_CONCURRENT_CONNECTIONS,
            buffer_size_mb: SFTP_BUFFER_SIZE / MIB,
            connection_timeout_sec: DEFAULT_CONNECTION_TIMEOUT_SECS,
            max_retries: MAX_UPLOAD_RETRIES,
        }
    }
}

/// How often and after which delays an SFTP upload is tried again.
#[derive(Debug, Clone, Copy)]
pub struct RetryConfig {
    pub max_attempts: usize,
    /// Delay before the first retry, in milliseconds.
    pub base_delay_ms: u64,
    /// Longest delay, in milliseconds.
    pub max_delay_ms: u64,
}

impl Default for RetryConfig {
    /// 3 attempts, 250 ms doubled each time, at most 30 s.
    fn default() -> (r: RetryConfig)
        ensures
            r.max_attempts == MAX_UPLOAD_RETRIES,
            r.base_delay_ms == RETRY_BASE_DELAY_MS,
            r.max_delay_ms == RETRY_MAX_DELAY_SECS * 1000,
    {
        RetryConfig {
            max_attempts: MAX_UPLOAD_RETRIES,
            base_delay_ms: RETRY_BASE_DELAY_MS,
            max_delay_ms: RETRY_MAX_DELAY_SECS * 1000,
        }
    }
}

impl RetryConfig {
    /// The delay after failed attempt `attempt`: the base delay doubled
    /// `attempt` times, at most the longest delay.
    pub fn delay_ms(&self, attempt: u32) -> (r: u64)
        ensures
            r == backoff(self.base_delay_ms as nat, attempt as nat, self.max_delay_ms as nat),
    {
        backoff_delay_ms(self.base_delay_ms, attempt, self.max_delay_ms)
    }
}

/// An SFTP client: its configuration, retry settings and progress.
#[derive(Debug, Clone)]
pub struct SFTPClient {
    pub config: SFTPConfig,
    pub retry_config: RetryConfig,
    /// Bytes of all files handed to the client.
    pub total_bytes: u64,
    /// Bytes uploaded so far.
    pub bytes_uploaded: u64,
}

/// The remote path of a file: the remote directory without trailing `/`,
/// then `/` and the file name.
pub open spec fn remote_file_path(remote_dir: Seq<char>, filename: Seq<char>) -> Seq<char> {
    trim_end_char(remote_dir, '/') + seq!['/'] + filename
}

/// The URL of an uploaded file: `sftp://user@host:port` followed by the
/// remote directory, `/` and the file name.
pub open spec fn sftp_url_of(c: SFTPConfig, filename: Seq<char>) -> Seq<char> {
    "sftp://"@ + c.username@ + "@"@ + c.host@ + ":"@ + decimal(c.port as nat) + c.remote_path@ + "/"@
        + filename
}

/// The number of parts of `chunk` bytes (the last one shorter) that `size` bytes fill.
pub open spec fn chunks_for(size: nat, chunk: nat) -> nat {
    if size % chunk == 0 {
        size / chunk
    } else {
        size / chunk + 1
    }
}

/// Rounding up a division: `(n + c - 1) / c` counts the parts of `c` that `n` fills.
pub proof fn lemma_ceil_div(n: int, c: int)
    requires
        0 <= n,
        0 < c,
    ensures
        (n + c - 1) / c == chunks_for(n as nat, c as nat),
{
    let q = n / c;
    let m = n % c;
    assert(n == q * c + m && 0 <= m < c) by (nonlinear_arith)
        requires
            q == n / c,
            m == n % c,
            0 < c,
    ;
    if m == 0 {
        assert((n + c - 1) / c == q) by (nonlinear_arith)
            requires
                n == q * c,
                0 < c,
        ;
    } else {
        assert((n + c - 1) / c == q + 1) by (nonlinear_arith)
            requires
                n == q * c + m,
                0 < m < c,
        ;
    }
}

impl SFTPClient {
    /// A client for `config`, with the default retry delays, as many attempts
    /// as the configuration allows, and no progress yet.
    pub fn new(config: SFTPConfig) -> (c: Self)
        ensures
            c.config == config,
            c.retry_config.max_attempts == config.max_retries,
            c.retry_config.base_delay_ms == RETRY_BASE_DELAY_MS,
            c.retry_config.max_delay_ms == RETRY_MAX_DELAY_SECS * 1000,
            c.total_bytes == 0,
            c.bytes_uploaded == 0,
    {
        let defaults = RetryConfig::default();
        let max_attempts = config.max_retries;
        SFTPClient {
            config,
            retry_config: RetryConfig { max_attempts, ..defaults },
            total_bytes: 0,
            bytes_uploaded: 0,
        }
    }

    /// The progress: (bytes uploaded, total bytes).
    pub fn get_progress(&self) -> (r: (u64, u64))
        ensures
            r == (self.bytes_uploaded, self.total_bytes),
    {
        (self.bytes_uploaded, self.total_bytes)
    }

    /// Counts `n` more bytes to upload (wrapping around as an atomic counter does).
    pub fn add_total_bytes(&mut self, n: u64)
        ensures
            final(self).total_bytes == (old(self).total_bytes + n) % 0x1_0000_0000_0000_0000,
            final(self).bytes_uploaded == old(self).bytes_uploaded,
            final(self).config == old(self).config,
            final(self).retry_config == old(self).retry_config,
    {
        self.total_bytes = self.total_bytes.wrapping_add(n);
    }

    /// Counts `n` more bytes uploaded (wrapping around as an atomic counter does).
    pub fn add_uploaded_bytes(&mut self, n: u64)
        ensures
            final(self).bytes_uploaded == (old(self).bytes_uploaded + n) % 0x1_0000_0000_0000_0000,
            final(self).total_bytes == old(self).total_bytes,
            final(self).config == old(self).config,
            final(self).retry_config == old(self).retry_config,
    {
        self.bytes_uploaded = self.bytes_uploaded.wrapping_add(n);
    }

    /// Where a file named `filename` is uploaded, as `remote_file_path` says.
    pub fn remote_path_for(&self, filename: &str) -> (r: String)
        ensures
            r@ == remote_file_path(self.config.remote_path@, filename@),
    {
        let dir = chars_of(self.config.remote_path.as_str());
        let mut v = trim_end_char_exec(&dir, '/');
        v.push('/');
        append_str(&mut v, filename);
        string_of(&v)
    }

    /// The URL of an uploaded file, as `sftp_url_of` says.
    pub fn sftp_url(&self, filename: &str) -> (r: String)
        ensures
            r@ == sftp_url_of(self.config, filename@),
    {
        let mut v = chars_of("sftp://");
        append_str(&mut v, self.config.username.as_str());
        v.push('@');
        append_str(&mut v, self.config.host.as_str());
        v.push(':');
        let port = decimal_exec(self.config.port as u64);
        append_chars(&mut v, &port);
        append_str(&mut v, self.config.remote_path.as_str());
        v.push('/');
        append_str(&mut v, filename);
        proof {
            reveal_strlit("@");
            reveal_strlit(":");
            reveal_strlit("/");
        }
        assert(v@ =~= sftp_url_of(self.config, filename@));
        string_of(&v)
    }

    /// Whether a file of `file_size` bytes is uploaded in chunks: from 50 MiB on.
    pub fn is_large_file(file_size: u64) -> (r: bool)
        ensures
            r == (file_size >= LARGE_FILE_THRESHOLD),
    {
        file_size >= LARGE_FILE_THRESHOLD
    }

    /// The transfer buffer in bytes: the configured size in MiB.
    pub fn buffer_size_bytes(&self) -> (r: usize)
        requires
            self.config.buffer_size_mb * MIB <= usize::MAX,
        ensures
            r == self.config.buffer_size_mb * MIB,
    {
        self.config.buffer_size_mb * MIB
    }

    /// The number of chunks a file of `file_size` bytes is uploaded in.
    pub fn chunk_count(&self, file_size: u64) -> (r: u64)
        requires
            self.config.buffer_size_mb > 0,
            self.config.buffer_size_mb * MIB <= u64::MAX,
            self.config.buffer_size_mb * MIB <= usize::MAX,
            file_size + self.config.buffer_size_mb * MIB <= u64::MAX,
        ensures
            r == chunks_for(file_size as nat, (self.config.buffer_size_mb * MIB) as nat),
    {
        let size = self.buffer_size_bytes();
        let chunk = size as u64;
        assert(chunk == self.config.buffer_size_mb * MIB);
        let r = (file_size + chunk - 1) / chunk;
        proof {
            lemma_ceil_div(file_size as int, chunk as int);
        }
        r
    }

    /// The delay in milliseconds before retrying after failed attempt `attempt`.
    pub fn retry_delay_ms(&self, attempt: u32) -> (r: u64)
        ensures
            r == backoff(
                self.retry_config.base_delay_ms as nat,
                attempt as nat,
                self.retry_config.max_delay_ms as nat,
            ),
    {
        self.retry_config.delay_ms(attempt)
    }
}

} // verus!
