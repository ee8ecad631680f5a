//! The command line of the collector: its options, target systems and
//! subcommands.
use vstd::prelude::*;

verus! {

/// The options of the collector.
#[derive(Debug, Clone)]
pub struct Args {
    /// S3 bucket to upload to.
    pub bucket: Option<String>,
    /// S3 prefix of the uploaded objects.
    pub prefix: Option<String>,
    /// AWS region of the bucket.
    pub region: Option<String>,
    /// AWS profile whose credentials are used.
    pub profile: Option<String>,
    /// Whether S3 uploads are encrypted on the server.
    pub encrypt: bool,
    /// SFTP server to upload to.
    pub sftp_host: Option<String>,
    /// SFTP server port (22 by default).
    pub sftp_port: u16,
    /// SFTP user name.
    pub sftp_user: Option<String>,
    /// SSH private key for SFTP.
    pub sftp_key: Option<String>,
    /// Remote directory on the SFTP server.
    pub sftp_path: Option<String>,
    /// Parallel SFTP connections (4 by default).
    pub sftp_connections: usize,
    /// Local output directory.
    pub output: Option<String>,
    /// Whether uploading is skipped.
    pub skip_upload: bool,
    /// Whether logging is verbose.
    pub verbose: bool,
    /// Configuration file.
    pub config: Option<String>,
    /// Artifact types to collect, comma-separated.
    pub artifact_types: Option<String>,
    /// Target operating system.
    pub target_os: Option<TargetOS>,
    /// Whether to go on without elevated privileges.
    pub force: bool,
    /// Whether artifacts are streamed to the upload target without local storage.
    pub stream: bool,
    /// Streaming buffer in MiB (8 by default).
    pub buffer_size: usize,
    /// Whether volatile data collection is skipped.
    pub no_volatile_data: bool,
    /// Whether process memory is dumped.
    pub dump_process_memory: bool,
    /// Process names to dump, comma-separated.
    pub process: Option<String>,
    /// Process IDs to dump, comma-separated.
    pub pid: Option<String>,
    /// Most memory to dump, in MiB (4096 by default).
    pub max_memory_size: usize,
    /// Whether system processes are dumped.
    pub include_system_processes: bool,
    /// Memory regions to dump ("all" by default).
    pub memory_regions: String,
    /// Hexadecimal pattern to search process memory for.
    pub memory_search: Option<String>,
    /// YARA rules to scan process memory with.
    pub memory_yara: Option<String>,
    /// One memory region to dump, as `pid:address:size`.
    pub dump_memory_region: Option<String>,
    /// The subcommand, if any.
    pub command: Option<Commands>,
}

/// A target operating system.
#[derive(Debug, Clone, Copy, PartialEq, Eq, Structural)]
pub enum TargetOS {
    Windows,
    Linux,
    MacOS,
}

/// The name of a target operating system: "windows", "linux" or "macos".
pub open spec fn target_os_name(t: TargetOS) -> Seq<char> {
    match t {
        TargetOS::Windows => "windows"@,
        TargetOS::Linux => "linux"@,
        TargetOS::MacOS => "macos"@,
    }
}

impl TargetOS {
    /// The name of this target, as `target_os_name` says.
    pub fn to_string(&self) -> (s: String)
        ensures
            s@ == target_os_name(*self),
    {
        match self {
            TargetOS::Windows => String::from_str("windows"),
            TargetOS::Linux => String::from_str("linux"),
            TargetOS::MacOS => String::from_str("macos"),
        }
    }
}

/// The subcommands of the collector.
#[derive(Debug, Clone)]
pub enum Commands {
    /// Writes a default configuration file to `path`, for `target_os` where given.
    InitConfig { path: String, target_os: Option<TargetOS> },
    /// Writes a build script for a collector with an embedded configuration.
    Build(BuildOpts),
}

/// The options of the build subcommand.
#[derive(Debug, Clone)]
pub struct BuildOpts {
    /// Configuration file to embed.
    pub config: String,
    /// Where the build script goes.
    pub output: Option<String>,
    /// Name of the built collector.
    pub name: Option<String>,
    /// Target operating system of the build.
    pub target_os: Option<TargetOS>,
}

} // verus!
