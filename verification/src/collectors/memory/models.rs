//! What process memory collection records: regions, modules, processes and
//! the options that steer it.
use vstd::prelude::*;

verus! {

/// The kind of a memory region.
#[derive(Debug, Clone, Copy, PartialEq, Eq, Hash, Structural)]
pub enum MemoryRegionType {
    /// Heap memory.
    Heap,
    /// Stack memory.
    Stack,
    /// Code or other executable memory.
    Code,
    /// A memory-mapped file.
    MappedFile,
    /// Any other region.
    Other,
}

/// The display name of a region type: its variant name.
pub open spec fn region_type_name(t: MemoryRegionType) -> Seq<char> {
    match t {
        MemoryRegionType::Heap => "Heap"@,
        MemoryRegionType::Stack => "Stack"@,
        MemoryRegionType::Code => "Code"@,
        MemoryRegionType::MappedFile => "MappedFile"@,
        MemoryRegionType::Other => "Other"@,
    }
}

impl MemoryRegionType {
    /// The display name, as `region_type_name` says.
    pub fn to_string(&self) -> (s: String)
        ensures
            s@ == region_type_name(*self),
    {
        match self {
            MemoryRegionType::Heap => String::from_str("Heap"),
            MemoryRegionType::Stack => String::from_str("Stack"),
            MemoryRegionType::Code => String::from_str("Code"),
            MemoryRegionType::MappedFile => String::from_str("MappedFile"),
            MemoryRegionType::Other => String::from_str("Other"),
        }
    }
}

/// The access a memory region allows.
#[derive(Debug, Clone, Copy, PartialEq, Eq, Hash, Structural)]
pub struct MemoryProtection {
    pub read: bool,
    pub write: bool,
    pub execute: bool,
}

/// One memory region of a process.
#[derive(Debug, Clone)]
pub struct MemoryRegionInfo {
    /// Its first address.
    pub base_address: u64,
    /// Its size in bytes.
    pub size: u64,
    pub region_type: MemoryRegionType,
    pub protection: MemoryProtection,
    /// A name or description, such as the module it belongs to.
    pub name: Option<String>,
    /// The file mapped into it, if any.
    pub mapped_file: Option<String>,
    /// Whether it was dumped.
    pub dumped: bool,
    /// Where it was dumped, relative to the process directory.
    pub dump_path: Option<String>,
}

/// A module loaded into a process.
#[derive(Debug, Clone)]
pub struct ModuleInfo {
    pub base_address: u64,
    pub size: u64,
    /// The module's file.
    pub path: String,
    pub name: String,
    pub version: Option<String>,
}

/// What was collected from one process.
#[derive(Debug, Clone)]
pub struct ProcessMemoryInfo {
    pub pid: u32,
    pub name: String,
    pub command_line: Option<String>,
    pub path: Option<String>,
    pub start_time: u64,
    pub user: Option<String>,
    pub parent_pid: Option<u32>,
    pub regions: Vec<MemoryRegionInfo>,
    pub modules: Vec<ModuleInfo>,
    /// Total size of the selected regions in bytes.
    pub total_memory_size: u64,
    /// Total size of the dumped data in bytes.
    pub dumped_memory_size: u64,
    /// When the collection took place (RFC 3339).
    pub collection_time: String,
    /// "Success", "Skipped" or "Failed".
    pub status: String,
    pub error: Option<String>,
}

/// What steers a memory collection.
#[derive(Debug, Clone)]
pub struct MemoryCollectionOptions {
    /// The most memory to collect from all processes together, in bytes.
    pub max_total_size: u64,
    /// The most memory to collect from one process, in bytes.
    pub max_process_size: u64,
    pub include_system_processes: bool,
    /// Process names to collect (empty: all).
    pub process_filters: Vec<String>,
    /// Process IDs to collect (empty: all).
    pub pid_filters: Vec<u32>,
    /// Region types to collect.
    pub region_types: Vec<MemoryRegionType>,
}

impl Default for MemoryCollectionOptions {
    /// 4 GiB in all, 512 MiB per process, no system processes, no process
    /// filters, and heap, stack and code regions.
    fn default() -> (o: MemoryCollectionOptions)
        ensures
            o.max_total_size == 4294967296,
            o.max_process_size == 536870912,
            !o.include_system_processes,
            o.process_filters@.len() == 0,
            o.pid_filters@.len() == 0,
            o.region_types@ == seq![MemoryRegionType::Heap, MemoryRegionType::Stack, MemoryRegionType::Code],
    {
        let mut region_types = Vec::new();
        region_types.push(MemoryRegionType::Heap);
        region_types.push(MemoryRegionType::Stack);
        region_types.push(MemoryRegionType::Code);
        MemoryCollectionOptions {
            max_total_size: 4294967296,
            max_process_size: 536870912,
            include_system_processes: false,
            process_filters: Vec::new(),
            pid_filters: Vec::new(),
            region_types,
        }
    }
}

/// One process in a collection summary.
#[derive(Debug, Clone)]
pub struct ProcessSummary {
    pub pid: u32,
    pub name: String,
    pub region_count: usize,
    pub regions_dumped: usize,
    pub total_memory_size: u64,
    pub dumped_memory_size: u64,
    pub status: String,
}

} // verus!
