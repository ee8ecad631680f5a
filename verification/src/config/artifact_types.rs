//! The kinds of artifacts a collection can name.
use vstd::prelude::*;

verus! {

/// OS-agnostic artifact types.
#[derive(Debug, Clone, Copy, PartialEq, Eq, Hash, Structural)]
pub enum ArtifactType {
    FileSystem,
    Logs,
    UserData,
    SystemInfo,
    Memory,
    Network,
    Windows(WindowsArtifactType),
    Linux(LinuxArtifactType),
    MacOS(MacOSArtifactType),
    VolatileData(VolatileDataType),
    Custom,
}

/// Volatile data artifact types.
#[derive(Debug, Clone, Copy, PartialEq, Eq, Hash, Structural)]
pub enum VolatileDataType {
    SystemInfo,
    Processes,
    NetworkConnections,
    Memory,
    Disks,
}

/// Windows-specific artifact types.
#[derive(Debug, Clone, Copy, PartialEq, Eq, Hash, Structural)]
pub enum WindowsArtifactType {
    MFT,
    Registry,
    EventLog,
    Prefetch,
    USNJournal,
    ShimCache,
    AmCache,
}

/// Linux-specific artifact types.
#[derive(Debug, Clone, Copy, PartialEq, Eq, Hash, Structural)]
pub enum LinuxArtifactType {
    SysLogs,
    Journal,
    Proc,
    Audit,
    Cron,
    Bash,
    Apt,
    Dpkg,
    Yum,
    Systemd,
}

/// macOS-specific artifact types.
#[derive(Debug, Clone, Copy, PartialEq, Eq, Hash, Structural)]
pub enum MacOSArtifactType {
    UnifiedLogs,
    Plist,
    Spotlight,
    FSEvents,
    Quarantine,
    KnowledgeC,
    LaunchAgents,
    LaunchDaemons,
}

/// The variant name of a Windows artifact type.
pub open spec fn windows_type_name(t: WindowsArtifactType) -> Seq<char> {
    match t {
        WindowsArtifactType::MFT => "MFT"@,
        WindowsArtifactType::Registry => "Registry"@,
        WindowsArtifactType::EventLog => "EventLog"@,
        WindowsArtifactType::Prefetch => "Prefetch"@,
        WindowsArtifactType::USNJournal => "USNJournal"@,
        WindowsArtifactType::ShimCache => "ShimCache"@,
        WindowsArtifactType::AmCache => "AmCache"@,
    }
}

/// The variant name of a Linux artifact type.
pub open spec fn linux_type_name(t: LinuxArtifactType) -> Seq<char> {
    match t {
        LinuxArtifactType::SysLogs => "SysLogs"@,
        LinuxArtifactType::Journal => "Journal"@,
        LinuxArtifactType::Proc => "Proc"@,
        LinuxArtifactType::Audit => "Audit"@,
        LinuxArtifactType::Cron => "Cron"@,
        LinuxArtifactType::Bash => "Bash"@,
        LinuxArtifactType::Apt => "Apt"@,
        LinuxArtifactType::Dpkg => "Dpkg"@,
        LinuxArtifactType::Yum => "Yum"@,
        LinuxArtifactType::Systemd => "Systemd"@,
    }
}

/// The variant name of a macOS artifact type.
pub open spec fn macos_type_name(t: MacOSArtifactType) -> Seq<char> {
    match t {
        MacOSArtifactType::UnifiedLogs => "UnifiedLogs"@,
        MacOSArtifactType::Plist => "Plist"@,
        MacOSArtifactType::Spotlight => "Spotlight"@,
        MacOSArtifactType::FSEvents => "FSEvents"@,
        MacOSArtifactType::Quarantine => "Quarantine"@,
        MacOSArtifactType::KnowledgeC => "KnowledgeC"@,
        MacOSArtifactType::LaunchAgents => "LaunchAgents"@,
        MacOSArtifactType::LaunchDaemons => "LaunchDaemons"@,
    }
}

/// The display name of a volatile data type.
pub open spec fn volatile_type_name(t: VolatileDataType) -> Seq<char> {
    match t {
        VolatileDataType::SystemInfo => "SystemInfo"@,
        VolatileDataType::Processes => "Processes"@,
        VolatileDataType::NetworkConnections => "NetworkConnections"@,
        VolatileDataType::Memory => "Memory"@,
        VolatileDataType::Disks => "Disks"@,
    }
}

/// The display name of an artifact type: the variant name, and for an
/// OS-specific or volatile type the family, a dash and the inner name.
pub open spec fn artifact_type_name(t: ArtifactType) -> Seq<char> {
    match t {
        ArtifactType::FileSystem => "FileSystem"@,
        ArtifactType::Logs => "Logs"@,
        ArtifactType::UserData => "UserData"@,
        ArtifactType::SystemInfo => "SystemInfo"@,
        ArtifactType::Memory => "Memory"@,
        ArtifactType::Network => "Network"@,
        ArtifactType::Windows(w) => "Windows-"@ + windows_type_name(w),
        ArtifactType::Linux(l) => "Linux-"@ + linux_type_name(l),
        ArtifactType::MacOS(m) => "MacOS-"@ + macos_type_name(m),
        ArtifactType::VolatileData(v) => "VolatileData-"@ + volatile_type_name(v),
        ArtifactType::Custom => "Custom"@,
    }
}

impl WindowsArtifactType {
    /// The variant name.
    pub fn name(&self) -> (s: String)
        ensures
            s@ == windows_type_name(*self),
    {
        match self {
            WindowsArtifactType::MFT => String::from_str("MFT"),
            WindowsArtifactType::Registry => String::from_str("Registry"),
            WindowsArtifactType::EventLog => String::from_str("EventLog"),
            WindowsArtifactType::Prefetch => String::from_str("Prefetch"),
            WindowsArtifactType::USNJournal => String::from_str("USNJournal"),
            WindowsArtifactType::ShimCache => String::from_str("ShimCache"),
            WindowsArtifactType::AmCache => String::from_str("AmCache"),
        }
    }
}

impl LinuxArtifactType {
    /// The variant name.
    pub fn name(&self) -> (s: String)
        ensures
            s@ == linux_type_name(*self),
    {
        match self {
            LinuxArtifactType::SysLogs => String::from_str("SysLogs"),
            LinuxArtifactType::Journal => String::from_str("Journal"),
            LinuxArtifactType::Proc => String::from_str("Proc"),
            LinuxArtifactType::Audit => String::from_str("Audit"),
            LinuxArtifactType::Cron => String::from_str("Cron"),
            LinuxArtifactType::Bash => String::from_str("Bash"),
            LinuxArtifactType::Apt => String::from_str("Apt"),
            LinuxArtifactType::Dpkg => String::from_str("Dpkg"),
            LinuxArtifactType::Yum => String::from_str("Yum"),
            LinuxArtifactType::Systemd => String::from_str("Systemd"),
        }
    }
}

impl MacOSArtifactType {
    /// The variant name.
    pub fn name(&self) -> (s: String)
        ensures
            s@ == macos_type_name(*self),
    {
        match self {
            MacOSArtifactType::UnifiedLogs => String::from_str("UnifiedLogs"),
            MacOSArtifactType::Plist => String::from_str("Plist"),
            MacOSArtifactType::Spotlight => String::from_str("Spotlight"),
            MacOSArtifactType::FSEvents => String::from_str("FSEvents"),
            MacOSArtifactType::Quarantine => String::from_str("Quarantine"),
            MacOSArtifactType::KnowledgeC => String::from_str("KnowledgeC"),
            MacOSArtifactType::LaunchAgents => String::from_str("LaunchAgents"),
            MacOSArtifactType::LaunchDaemons => String::from_str("LaunchDaemons"),
        }
    }
}

impl VolatileDataType {
    /// The display name: the variant name.
    pub fn to_string(&self) -> (s: String)
        ensures
            s@ == volatile_type_name(*self),
    {
        match self {
            VolatileDataType::SystemInfo => String::from_str("SystemInfo"),
            VolatileDataType::Processes => String::from_str("Processes"),
            VolatileDataType::NetworkConnections => String::from_str("NetworkConnections"),
            VolatileDataType::Memory => String::from_str("Memory"),
            VolatileDataType::Disks => String::from_str("Disks"),
        }
    }
}

impl ArtifactType {
    /// The display name, such as `Logs` or `Windows-Registry`.
    pub fn to_string(&self) -> (s: String)
        ensures
            s@ == artifact_type_name(*self),
    {
        match self {
            ArtifactType::FileSystem => String::from_str("FileSystem"),
            ArtifactType::Logs => String::from_str("Logs"),
            ArtifactType::UserData => String::from_str("UserData"),
            ArtifactType::SystemInfo => String::from_str("SystemInfo"),
            ArtifactType::Memory => String::from_str("Memory"),
            ArtifactType::Network => String::from_str("Network"),
            ArtifactType::Windows(w) => String::from_str("Windows-").concat(w.name().as_str()),
            ArtifactType::Linux(l) => String::from_str("Linux-").concat(l.name().as_str()),
            ArtifactType::MacOS(m) => String::from_str("MacOS-").concat(m.name().as_str()),
            ArtifactType::VolatileData(v) => String::from_str("VolatileData-").concat(
                v.to_string().as_str(),
            ),
            ArtifactType::Custom => String::from_str("Custom"),
        }
    }
}

} // verus!
