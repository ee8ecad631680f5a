//! What is recorded of a running system: its identity, CPUs, network,
//! memory and disks, and the summary of a volatile data collection.
use vstd::prelude::*;

verus! {

/// The identity of the system.
#[derive(Debug, Clone)]
pub struct SystemInfo {
    pub hostname: Option<String>,
    pub os_name: Option<String>,
    pub os_version: Option<String>,
    pub kernel_version: Option<String>,
    pub cpu_info: CpuInfo,
}

/// The CPUs of the system.
#[derive(Debug, Clone)]
pub struct CpuInfo {
    pub count: usize,
    pub vendor: Option<String>,
    pub brand: Option<String>,
    /// Frequency in MHz.
    pub frequency: u64,
}

/// One network interface.
#[derive(Debug, Clone)]
pub struct NetworkInterface {
    pub name: String,
    pub mac: Option<String>,
    pub ips: Vec<String>,
    pub received_bytes: u64,
    pub transmitted_bytes: u64,
}

/// One network connection.
#[derive(Debug, Clone)]
pub struct NetworkConnection {
    pub protocol: String,
    pub local_address: String,
    pub local_port: u16,
    pub remote_address: Option<String>,
    pub remote_port: Option<u16>,
    pub state: Option<String>,
    pub process_id: Option<u32>,
}

/// The network interfaces and connections.
#[derive(Debug, Clone)]
pub struct NetworkInfo {
    pub interfaces: Vec<NetworkInterface>,
    pub connections: Vec<NetworkConnection>,
}

/// Memory and swap, in KiB.
#[derive(Debug, Clone, Copy)]
pub struct MemoryInfo {
    pub total_memory: u64,
    pub used_memory: u64,
    pub total_swap: u64,
    pub used_swap: u64,
}

/// One disk.
#[derive(Debug, Clone)]
pub struct DiskInfo {
    pub name: String,
    pub mount_point: Option<String>,
    pub total_space: u64,
    pub available_space: u64,
    pub file_system: Option<String>,
    pub is_removable: bool,
}

/// The summary of a volatile data collection.
#[derive(Debug, Clone)]
pub struct VolatileDataSummary {
    pub system_name: Option<String>,
    pub os_version: Option<String>,
    pub cpu_count: usize,
    /// Total memory in MiB.
    pub total_memory_mb: u64,
    pub process_count: usize,
    pub network_interface_count: usize,
    pub disk_count: usize,
}

impl VolatileDataSummary {
    /// The summary of a collection that found `system`, `process_count`
    /// processes, `network`, `memory` and `disk_count` disks: the host name
    /// and OS version, the CPU count, the memory in MiB and the counts.
    pub fn summarize(
        system: &SystemInfo,
        process_count: usize,
        network: &NetworkInfo,
        memory: &MemoryInfo,
        disk_count: usize,
    ) -> (s: VolatileDataSummary)
        ensures
            s.system_name == system.hostname,
            s.os_version == system.os_version,
            s.cpu_count == system.cpu_info.count,
            s.total_memory_mb == memory.total_memory / 1024,
            s.process_count == process_count,
            s.network_interface_count == network.interfaces@.len(),
            s.disk_count == disk_count,
    {
        VolatileDataSummary {
            system_name: match &system.hostname {
                Some(h) => Some(h.clone()),
                None => None,
            },
            os_version: match &system.os_version {
                Some(v) => Some(v.clone()),
                None => None,
            },
            cpu_count: system.cpu_info.count,
            total_memory_mb: memory.total_memory / 1024,
            process_count,
            network_interface_count: network.interfaces.len(),
            disk_count,
        }
    }
}

/// The state a process is in, as the system reports it.
#[derive(Debug, Clone, Copy, PartialEq, Eq, Structural)]
pub enum ProcessState {
    Run,
    Sleep,
    Stop,
    Zombie,
    Idle,
    /// Any other state the system reports.
    Other,
}

/// The word recorded for a process state.
pub open spec fn process_state_word(s: ProcessState) -> Seq<char> {
    match s {
        ProcessState::Run => "Running"@,
        ProcessState::Sleep => "Sleeping"@,
        ProcessState::Stop => "Stopped"@,
        ProcessState::Zombie => "Zombie"@,
        ProcessState::Idle => "Idle"@,
        ProcessState::Other => "Unknown"@,
    }
}

/// The word recorded for the state `state`, as `process_state_word` says.
pub fn process_status_name(state: ProcessState) -> (r: String)
    ensures
        r@ == process_state_word(state),
{
    match state {
        ProcessState::Run => String::from_str("Running"),
        ProcessState::Sleep => String::from_str("Sleeping"),
        ProcessState::Stop => String::from_str("Stopped"),
        ProcessState::Zombie => String::from_str("Zombie"),
        ProcessState::Idle => String::from_str("Idle"),
        ProcessState::Other => String::from_str("Unknown"),
    }
}

} // verus!
