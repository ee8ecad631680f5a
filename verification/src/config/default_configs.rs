//! The built-in default configurations, one per platform.
use vstd::prelude::*;
use std::collections::HashMap;
use crate::config::artifact_types::{ArtifactType, LinuxArtifactType, MacOSArtifactType, WindowsArtifactType};
use crate::config::collection_config::{Artifact, ArtifactSpec, CollectionConfig, artifact_view, is_plain_config};

verus! {

/// The artifacts of the default windows configuration.
pub open spec fn windows_defaults() -> Seq<ArtifactSpec> {
    seq![
        ("MFT"@, ArtifactType::Windows(WindowsArtifactType::MFT), "\\\\?\\C:\\$MFT"@, "MFT"@, Some("Master File Table"@), true),
        ("SYSTEM"@, ArtifactType::Windows(WindowsArtifactType::Registry), "\\\\?\\C:\\Windows\\System32\\config\\SYSTEM"@, "SYSTEM"@, Some("System registry hive"@), true),
        ("SOFTWARE"@, ArtifactType::Windows(WindowsArtifactType::Registry), "\\\\?\\C:\\Windows\\System32\\config\\SOFTWARE"@, "SOFTWARE"@, Some("Software registry hive"@), true),
        ("SECURITY"@, ArtifactType::Windows(WindowsArtifactType::Registry), "\\\\?\\C:\\Windows\\System32\\config\\SECURITY"@, "SECURITY"@, Some("Security registry hive"@), true),
        ("SAM"@, ArtifactType::Windows(WindowsArtifactType::Registry), "\\\\?\\C:\\Windows\\System32\\config\\SAM"@, "SAM"@, Some("SAM registry hive"@), true),
        ("NTUSER.DAT"@, ArtifactType::Windows(WindowsArtifactType::Registry), "\\\\?\\%USERPROFILE%\\NTUSER.DAT"@, "NTUSER.DAT"@, Some("User registry hive"@), false),
        ("System.evtx"@, ArtifactType::Windows(WindowsArtifactType::EventLog), "\\\\?\\C:\\Windows\\System32\\winevt\\Logs\\System.evtx"@, "System.evtx"@, Some("System event log"@), true),
        ("Security.evtx"@, ArtifactType::Windows(WindowsArtifactType::EventLog), "\\\\?\\C:\\Windows\\System32\\winevt\\Logs\\Security.evtx"@, "Security.evtx"@, Some("Security event log"@), true),
        ("Application.evtx"@, ArtifactType::Windows(WindowsArtifactType::EventLog), "\\\\?\\C:\\Windows\\System32\\winevt\\Logs\\Application.evtx"@, "Application.evtx"@, Some("Application event log"@), true),
        ("PowerShell.evtx"@, ArtifactType::Windows(WindowsArtifactType::EventLog), "\\\\?\\C:\\Windows\\System32\\winevt\\Logs\\Microsoft-Windows-PowerShell%4Operational.evtx"@, "PowerShell-Operational.evtx"@, Some("PowerShell event log"@), false),
        ("Sysmon.evtx"@, ArtifactType::Windows(WindowsArtifactType::EventLog), "\\\\?\\C:\\Windows\\System32\\winevt\\Logs\\Microsoft-Windows-Sysmon%4Operational.evtx"@, "Sysmon-Operational.evtx"@, Some("Sysmon event log"@), false),
        ("Prefetch"@, ArtifactType::Windows(WindowsArtifactType::Prefetch), "\\\\?\\C:\\Windows\\Prefetch"@, "Prefetch"@, Some("Prefetch files"@), false),
        ("USN Journal"@, ArtifactType::Windows(WindowsArtifactType::USNJournal), "\\\\?\\C:\\$Extend\\$UsnJrnl:$J"@, "UsnJrnl"@, Some("USN Journal"@), false),
    ]
}

/// The artifacts of the default linux configuration.
pub open spec fn linux_defaults() -> Seq<ArtifactSpec> {
    seq![
        ("syslog"@, ArtifactType::Linux(LinuxArtifactType::SysLogs), "/var/log/syslog"@, "syslog"@, Some("System logs"@), true),
        ("auth.log"@, ArtifactType::Linux(LinuxArtifactType::SysLogs), "/var/log/auth.log"@, "auth.log"@, Some("Authentication logs"@), true),
        ("journal"@, ArtifactType::Linux(LinuxArtifactType::Journal), "/var/log/journal"@, "journal"@, Some("Systemd journal logs"@), false),
        ("proc-cmdline"@, ArtifactType::Linux(LinuxArtifactType::Proc), "/proc/cmdline"@, "proc_cmdline"@, Some("Kernel command line"@), false),
        ("proc-modules"@, ArtifactType::Linux(LinuxArtifactType::Proc), "/proc/modules"@, "proc_modules"@, Some("Loaded kernel modules"@), false),
        ("audit.log"@, ArtifactType::Linux(LinuxArtifactType::Audit), "/var/log/audit/audit.log"@, "audit.log"@, Some("Audit logs"@), false),
        ("crontab"@, ArtifactType::Linux(LinuxArtifactType::Cron), "/etc/crontab"@, "crontab"@, Some("System crontab"@), false),
        ("cron.d"@, ArtifactType::Linux(LinuxArtifactType::Cron), "/etc/cron.d"@, "cron.d"@, Some("System cron jobs"@), false),
        ("bash_history"@, ArtifactType::Linux(LinuxArtifactType::Bash), "$HOME/.bash_history"@, "bash_history"@, Some("Bash command history"@), false),
        ("dpkg.log"@, ArtifactType::Linux(LinuxArtifactType::Dpkg), "/var/log/dpkg.log"@, "dpkg.log"@, Some("Package installation logs"@), false),
        ("systemd-units"@, ArtifactType::Linux(LinuxArtifactType::Systemd), "/etc/systemd/system"@, "systemd_units"@, Some("Systemd unit files"@), false),
    ]
}

/// The artifacts of the default macos configuration.
pub open spec fn macos_defaults() -> Seq<ArtifactSpec> {
    seq![
        ("system.log"@, ArtifactType::MacOS(MacOSArtifactType::UnifiedLogs), "/var/log/system.log"@, "system.log"@, Some("System logs"@), true),
        ("unified_logs"@, ArtifactType::MacOS(MacOSArtifactType::UnifiedLogs), "/private/var/db/diagnostics"@, "unified_logs"@, Some("Unified logging system"@), false),
        ("fseventsd"@, ArtifactType::MacOS(MacOSArtifactType::FSEvents), "/System/Volumes/Data/.fseventsd"@, "fseventsd"@, Some("File system events"@), false),
        ("quarantine"@, ArtifactType::MacOS(MacOSArtifactType::Quarantine), "$HOME/Library/Preferences/com.apple.LaunchServices.QuarantineEventsV2"@, "QuarantineEventsV2"@, Some("Quarantine database"@), false),
        ("knowledgec"@, ArtifactType::MacOS(MacOSArtifactType::KnowledgeC), "$HOME/Library/Application Support/Knowledge/knowledgeC.db"@, "knowledgeC.db"@, Some("User activity database"@), false),
        ("launch_agents"@, ArtifactType::MacOS(MacOSArtifactType::LaunchAgents), "/Library/LaunchAgents"@, "LaunchAgents"@, Some("System launch agents"@), false),
        ("user_launch_agents"@, ArtifactType::MacOS(MacOSArtifactType::LaunchAgents), "$HOME/Library/LaunchAgents"@, "UserLaunchAgents"@, Some("User launch agents"@), false),
        ("launch_daemons"@, ArtifactType::MacOS(MacOSArtifactType::LaunchDaemons), "/Library/LaunchDaemons"@, "LaunchDaemons"@, Some("System launch daemons"@), false),
        ("spotlight_store"@, ArtifactType::MacOS(MacOSArtifactType::Spotlight), "/.Spotlight-V100"@, "Spotlight"@, Some("Spotlight metadata"@), false),
        ("system_plists"@, ArtifactType::MacOS(MacOSArtifactType::Plist), "/Library/Preferences"@, "SystemPreferences"@, Some("System preference plists"@), false),
    ]
}

/// The artifacts of the default minimal configuration.
pub open spec fn minimal_defaults() -> Seq<ArtifactSpec> {
    seq![
        ("hostname"@, ArtifactType::SystemInfo, "/etc/hostname"@, "hostname"@, Some("System hostname"@), false),
        ("logs"@, ArtifactType::Logs, "/var/log"@, "logs"@, Some("System logs"@), false),
    ]
}

impl CollectionConfig {
    /// The default windows configuration: version 1.0 and the artifacts of `windows_defaults`.
    #[verifier::rlimit(50)]
    pub fn default_windows() -> (c: CollectionConfig)
        ensures
            is_plain_config(c, "1.0"@, "Default Windows DFIR triage configuration"@, windows_defaults()),
    {
        let mut artifacts: Vec<Artifact> = Vec::new();
        artifacts.push(Artifact::plain("MFT", ArtifactType::Windows(WindowsArtifactType::MFT), "\\\\?\\C:\\$MFT", "MFT", Some("Master File Table"), true));
        artifacts.push(Artifact::plain("SYSTEM", ArtifactType::Windows(WindowsArtifactType::Registry), "\\\\?\\C:\\Windows\\System32\\config\\SYSTEM", "SYSTEM", Some("System registry hive"), true));
        artifacts.push(Artifact::plain("SOFTWARE", ArtifactType::Windows(WindowsArtifactType::Registry), "\\\\?\\C:\\Windows\\System32\\config\\SOFTWARE", "SOFTWARE", Some("Software registry hive"), true));
        artifacts.push(Artifact::plain("SECURITY", ArtifactType::Windows(WindowsArtifactType::Registry), "\\\\?\\C:\\Windows\\System32\\config\\SECURITY", "SECURITY", Some("Security registry hive"), true));
        artifacts.push(Artifact::plain("SAM", ArtifactType::Windows(WindowsArtifactType::Registry), "\\\\?\\C:\\Windows\\System32\\config\\SAM", "SAM", Some("SAM registry hive"), true));
        artifacts.push(Artifact::plain("NTUSER.DAT", ArtifactType::Windows(WindowsArtifactType::Registry), "\\\\?\\%USERPROFILE%\\NTUSER.DAT", "NTUSER.DAT", Some("User registry hive"), false));
        artifacts.push(Artifact::plain("System.evtx", ArtifactType::Windows(WindowsArtifactType::EventLog), "\\\\?\\C:\\Windows\\System32\\winevt\\Logs\\System.evtx", "System.evtx", Some("System event log"), true));
        artifacts.push(Artifact::plain("Security.evtx", ArtifactType::Windows(WindowsArtifactType::EventLog), "\\\\?\\C:\\Windows\\System32\\winevt\\Logs\\Security.evtx", "Security.evtx", Some("Security event log"), true));
        artifacts.push(Artifact::plain("Application.evtx", ArtifactType::Windows(WindowsArtifactType::EventLog), "\\\\?\\C:\\Windows\\System32\\winevt\\Logs\\Application.evtx", "Application.evtx", Some("Application event log"), true));
        artifacts.push(Artifact::plain("PowerShell.evtx", ArtifactType::Windows(WindowsArtifactType::EventLog), "\\\\?\\C:\\Windows\\System32\\winevt\\Logs\\Microsoft-Windows-PowerShell%4Operational.evtx", "PowerShell-Operational.evtx", Some("PowerShell event log"), false));
        artifacts.push(Artifact::plain("Sysmon.evtx", ArtifactType::Windows(WindowsArtifactType::EventLog), "\\\\?\\C:\\Windows\\System32\\winevt\\Logs\\Microsoft-Windows-Sysmon%4Operational.evtx", "Sysmon-Operational.evtx", Some("Sysmon event log"), false));
        artifacts.push(Artifact::plain("Prefetch", ArtifactType::Windows(WindowsArtifactType::Prefetch), "\\\\?\\C:\\Windows\\Prefetch", "Prefetch", Some("Prefetch files"), false));
        artifacts.push(Artifact::plain("USN Journal", ArtifactType::Windows(WindowsArtifactType::USNJournal), "\\\\?\\C:\\$Extend\\$UsnJrnl:$J", "UsnJrnl", Some("USN Journal"), false));
        let c = CollectionConfig {
            version: String::from_str("1.0"),
            description: String::from_str("Default Windows DFIR triage configuration"),
            artifacts,
            global_options: HashMap::new(),
        };
        assert(c.artifacts@.map_values(|a: Artifact| artifact_view(a)) =~= windows_defaults());
        c
    }

    /// The default linux configuration: version 1.0 and the artifacts of `linux_defaults`.
    #[verifier::rlimit(50)]
    pub fn default_linux() -> (c: CollectionConfig)
        ensures
            is_plain_config(c, "1.0"@, "Default Linux DFIR triage configuration"@, linux_defaults()),
    {
        let mut artifacts: Vec<Artifact> = Vec::new();
        artifacts.push(Artifact::plain("syslog", ArtifactType::Linux(LinuxArtifactType::SysLogs), "/var/log/syslog", "syslog", Some("System logs"), true));
        artifacts.push(Artifact::plain("auth.log", ArtifactType::Linux(LinuxArtifactType::SysLogs), "/var/log/auth.log", "auth.log", Some("Authentication logs"), true));
        artifacts.push(Artifact::plain("journal", ArtifactType::Linux(LinuxArtifactType::Journal), "/var/log/journal", "journal", Some("Systemd journal logs"), false));
        artifacts.push(Artifact::plain("proc-cmdline", ArtifactType::Linux(LinuxArtifactType::Proc), "/proc/cmdline", "proc_cmdline", Some("Kernel command line"), false));
        artifacts.push(Artifact::plain("proc-modules", ArtifactType::Linux(LinuxArtifactType::Proc), "/proc/modules", "proc_modules", Some("Loaded kernel modules"), false));
        artifacts.push(Artifact::plain("audit.log", ArtifactType::Linux(LinuxArtifactType::Audit), "/var/log/audit/audit.log", "audit.log", Some("Audit logs"), false));
        artifacts.push(Artifact::plain("crontab", ArtifactType::Linux(LinuxArtifactType::Cron), "/etc/crontab", "crontab", Some("System crontab"), false));
        artifacts.push(Artifact::plain("cron.d", ArtifactType::Linux(LinuxArtifactType::Cron), "/etc/cron.d", "cron.d", Some("System cron jobs"), false));
        artifacts.push(Artifact::plain("bash_history", ArtifactType::Linux(LinuxArtifactType::Bash), "$HOME/.bash_history", "bash_history", Some("Bash command history"), false));
        artifacts.push(Artifact::plain("dpkg.log", ArtifactType::Linux(LinuxArtifactType::Dpkg), "/var/log/dpkg.log", "dpkg.log", Some("Package installation logs"), false));
        artifacts.push(Artifact::plain("systemd-units", ArtifactType::Linux(LinuxArtifactType::Systemd), "/etc/systemd/system", "systemd_units", Some("Systemd unit files"), false));
        let c = CollectionConfig {
            version: String::from_str("1.0"),
            description: String::from_str("Default Linux DFIR triage configuration"),
            artifacts,
            global_options: HashMap::new(),
        };
        assert(c.artifacts@.map_values(|a: Artifact| artifact_view(a)) =~= linux_defaults());
        c
    }

    /// The default macos configuration: version 1.0 and the artifacts of `macos_defaults`.
    #[verifier::rlimit(50)]
    pub fn default_macos() -> (c: CollectionConfig)
        ensures
            is_plain_config(c, "1.0"@, "Default macOS DFIR triage configuration"@, macos_defaults()),
    {
        let mut artifacts: Vec<Artifact> = Vec::new();
        artifacts.push(Artifact::plain("system.log", ArtifactType::MacOS(MacOSArtifactType::UnifiedLogs), "/var/log/system.log", "system.log", Some("System logs"), true));
        artifacts.push(Artifact::plain("unified_logs", ArtifactType::MacOS(MacOSArtifactType::UnifiedLogs), "/private/var/db/diagnostics", "unified_logs", Some("Unified logging system"), false));
        artifacts.push(Artifact::plain("fseventsd", ArtifactType::MacOS(MacOSArtifactType::FSEvents), "/System/Volumes/Data/.fseventsd", "fseventsd", Some("File system events"), false));
        artifacts.push(Artifact::plain("quarantine", ArtifactType::MacOS(MacOSArtifactType::Quarantine), "$HOME/Library/Preferences/com.apple.LaunchServices.QuarantineEventsV2", "QuarantineEventsV2", Some("Quarantine database"), false));
        artifacts.push(Artifact::plain("knowledgec", ArtifactType::MacOS(MacOSArtifactType::KnowledgeC), "$HOME/Library/Application Support/Knowledge/knowledgeC.db", "knowledgeC.db", Some("User activity database"), false));
        artifacts.push(Artifact::plain("launch_agents", ArtifactType::MacOS(MacOSArtifactType::LaunchAgents), "/Library/LaunchAgents", "LaunchAgents", Some("System launch agents"), false));
        artifacts.push(Artifact::plain("user_launch_agents", ArtifactType::MacOS(MacOSArtifactType::LaunchAgents), "$HOME/Library/LaunchAgents", "UserLaunchAgents", Some("User launch agents"), false));
        artifacts.push(Artifact::plain("launch_daemons", ArtifactType::MacOS(MacOSArtifactType::LaunchDaemons), "/Library/LaunchDaemons", "LaunchDaemons", Some("System launch daemons"), false));
        artifacts.push(Artifact::plain("spotlight_store", ArtifactType::MacOS(MacOSArtifactType::Spotlight), "/.Spotlight-V100", "Spotlight", Some("Spotlight metadata"), false));
        artifacts.push(Artifact::plain("system_plists", ArtifactType::MacOS(MacOSArtifactType::Plist), "/Library/Preferences", "SystemPreferences", Some("System preference plists"), false));
        let c = CollectionConfig {
            version: String::from_str("1.0"),
            description: String::from_str("Default macOS DFIR triage configuration"),
            artifacts,
            global_options: HashMap::new(),
        };
        assert(c.artifacts@.map_values(|a: Artifact| artifact_view(a)) =~= macos_defaults());
        c
    }

    /// The default minimal configuration: version 1.0 and the artifacts of `minimal_defaults`.
    #[verifier::rlimit(50)]
    pub fn default_minimal() -> (c: CollectionConfig)
        ensures
            is_plain_config(c, "1.0"@, "Minimal DFIR triage configuration"@, minimal_defaults()),
    {
        let mut artifacts: Vec<Artifact> = Vec::new();
        artifacts.push(Artifact::plain("hostname", ArtifactType::SystemInfo, "/etc/hostname", "hostname", Some("System hostname"), false));
        artifacts.push(Artifact::plain("logs", ArtifactType::Logs, "/var/log", "logs", Some("System logs"), false));
        let c = CollectionConfig {
            version: String::from_str("1.0"),
            description: String::from_str("Minimal DFIR triage configuration"),
            artifacts,
            global_options: HashMap::new(),
        };
        assert(c.artifacts@.map_values(|a: Artifact| artifact_view(a)) =~= minimal_defaults());
        c
    }

}

} // verus!
