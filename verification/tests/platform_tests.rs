use rust_collector::collectors::collector::ArtifactCollector;
use rust_collector::collectors::platforms::common::{CollectionAction, FallbackCollector, SourceKind};
use rust_collector::collectors::platforms::linux::{LinuxCollector, is_self_referential_proc};
use rust_collector::collectors::platforms::macos::MacOSCollector;
use rust_collector::collectors::platforms::windows::WindowsCollector;
use rust_collector::collectors::platforms::{filter_artifacts_for_platform, get_platform_collector, PlatformCollector};
use rust_collector::config::artifact_types::{ArtifactType, LinuxArtifactType, MacOSArtifactType, WindowsArtifactType};
use rust_collector::config::collection_config::Artifact;

#[test]
fn test_linux_collector_new() {
    let collector = LinuxCollector::new();
    assert!(collector.supports_artifact_type(&ArtifactType::Linux(LinuxArtifactType::SysLogs)));
}

#[test]
fn test_linux_collector_clone() {
    let collector1 = LinuxCollector::new();
    let collector2 = collector1.clone();
    assert_eq!(
        collector1.supports_artifact_type(&ArtifactType::Linux(LinuxArtifactType::Journal)),
        collector2.supports_artifact_type(&ArtifactType::Linux(LinuxArtifactType::Journal))
    );
}

#[test]
fn linux_test_supports_artifact_type() {
    let collector = LinuxCollector::new();
    for t in [
        LinuxArtifactType::SysLogs, LinuxArtifactType::Journal, LinuxArtifactType::Proc,
        LinuxArtifactType::Audit, LinuxArtifactType::Cron, LinuxArtifactType::Bash,
        LinuxArtifactType::Apt, LinuxArtifactType::Dpkg, LinuxArtifactType::Yum, LinuxArtifactType::Systemd,
    ] {
        assert!(collector.supports_artifact_type(&ArtifactType::Linux(t)));
    }
    assert!(collector.supports_artifact_type(&ArtifactType::FileSystem));
    assert!(collector.supports_artifact_type(&ArtifactType::Logs));
    assert!(collector.supports_artifact_type(&ArtifactType::UserData));
    assert!(collector.supports_artifact_type(&ArtifactType::SystemInfo));
    assert!(collector.supports_artifact_type(&ArtifactType::Memory));
    assert!(collector.supports_artifact_type(&ArtifactType::Network));
    assert!(collector.supports_artifact_type(&ArtifactType::Custom));
    assert!(!collector.supports_artifact_type(&ArtifactType::Windows(WindowsArtifactType::MFT)));
    assert!(!collector.supports_artifact_type(&ArtifactType::MacOS(MacOSArtifactType::UnifiedLogs)));
}

#[test]
fn linux_test_artifact_type_matching() {
    let collector = LinuxCollector::new();
    let test_cases = vec![
        (LinuxArtifactType::SysLogs, "SysLogs"),
        (LinuxArtifactType::Journal, "Journal"),
        (LinuxArtifactType::Proc, "Proc"),
        (LinuxArtifactType::Audit, "Audit"),
        (LinuxArtifactType::Cron, "Cron"),
        (LinuxArtifactType::Bash, "Bash"),
        (LinuxArtifactType::Apt, "Apt"),
        (LinuxArtifactType::Dpkg, "Dpkg"),
        (LinuxArtifactType::Yum, "Yum"),
        (LinuxArtifactType::Systemd, "Systemd"),
    ];
    for (linux_type, name) in test_cases {
        assert!(collector.supports_artifact_type(&ArtifactType::Linux(linux_type)), "Should support {} artifact type", name);
    }
}

#[test]
fn test_non_linux_artifact_rejection() {
    let collector = LinuxCollector::new();
    for w in [WindowsArtifactType::MFT, WindowsArtifactType::Registry, WindowsArtifactType::EventLog] {
        assert!(!collector.supports_artifact_type(&ArtifactType::Windows(w)), "Should not support Windows artifact type");
    }
    for m in [MacOSArtifactType::UnifiedLogs, MacOSArtifactType::FSEvents, MacOSArtifactType::Quarantine] {
        assert!(!collector.supports_artifact_type(&ArtifactType::MacOS(m)), "Should not support macOS artifact type");
    }
}

#[test]
fn test_macos_collector_new() {
    let collector = MacOSCollector::new();
    assert!(collector.supports_artifact_type(&ArtifactType::MacOS(MacOSArtifactType::UnifiedLogs)));
}

#[test]
fn test_macos_collector_clone() {
    let collector1 = MacOSCollector::new();
    let collector2 = collector1.clone();
    assert_eq!(
        collector1.supports_artifact_type(&ArtifactType::MacOS(MacOSArtifactType::FSEvents)),
        collector2.supports_artifact_type(&ArtifactType::MacOS(MacOSArtifactType::FSEvents))
    );
}

#[test]
fn macos_test_supports_artifact_type() {
    let collector = MacOSCollector::new();
    for t in [
        MacOSArtifactType::UnifiedLogs, MacOSArtifactType::FSEvents, MacOSArtifactType::Plist,
        MacOSArtifactType::Spotlight, MacOSArtifactType::Quarantine, MacOSArtifactType::KnowledgeC,
        MacOSArtifactType::LaunchAgents, MacOSArtifactType::LaunchDaemons,
    ] {
        assert!(collector.supports_artifact_type(&ArtifactType::MacOS(t)));
    }
    assert!(collector.supports_artifact_type(&ArtifactType::FileSystem));
    assert!(collector.supports_artifact_type(&ArtifactType::Logs));
    assert!(collector.supports_artifact_type(&ArtifactType::UserData));
    assert!(collector.supports_artifact_type(&ArtifactType::SystemInfo));
    assert!(collector.supports_artifact_type(&ArtifactType::Memory));
    assert!(collector.supports_artifact_type(&ArtifactType::Network));
    assert!(collector.supports_artifact_type(&ArtifactType::Custom));
    assert!(!collector.supports_artifact_type(&ArtifactType::Windows(WindowsArtifactType::MFT)));
    assert!(!collector.supports_artifact_type(&ArtifactType::Linux(LinuxArtifactType::SysLogs)));
}

#[test]
fn macos_test_artifact_type_matching() {
    let collector = MacOSCollector::new();
    let test_cases = vec![
        (MacOSArtifactType::UnifiedLogs, "UnifiedLogs"),
        (MacOSArtifactType::FSEvents, "FSEvents"),
        (MacOSArtifactType::Plist, "Plist"),
        (MacOSArtifactType::Spotlight, "Spotlight"),
        (MacOSArtifactType::Quarantine, "Quarantine"),
        (MacOSArtifactType::KnowledgeC, "KnowledgeC"),
        (MacOSArtifactType::LaunchAgents, "LaunchAgents"),
        (MacOSArtifactType::LaunchDaemons, "LaunchDaemons"),
    ];
    for (t, name) in test_cases {
        assert!(collector.supports_artifact_type(&ArtifactType::MacOS(t)), "Should support {} artifact type", name);
    }
}

#[test]
fn test_non_macos_artifact_rejection() {
    let collector = MacOSCollector::new();
    for w in [WindowsArtifactType::MFT, WindowsArtifactType::Registry, WindowsArtifactType::EventLog] {
        assert!(!collector.supports_artifact_type(&ArtifactType::Windows(w)));
    }
    for l in [LinuxArtifactType::SysLogs, LinuxArtifactType::Journal, LinuxArtifactType::Proc] {
        assert!(!collector.supports_artifact_type(&ArtifactType::Linux(l)));
    }
}

#[test]
fn test_windows_collector_new() {
    let collector = WindowsCollector::new();
    assert!(collector.supports_artifact_type(&ArtifactType::Windows(WindowsArtifactType::MFT)));
}

#[test]
fn test_windows_collector_clone() {
    let collector1 = WindowsCollector::new();
    let collector2 = collector1.clone();
    assert_eq!(
        collector1.supports_artifact_type(&ArtifactType::Windows(WindowsArtifactType::Registry)),
        collector2.supports_artifact_type(&ArtifactType::Windows(WindowsArtifactType::Registry))
    );
}

#[test]
fn windows_test_supports_artifact_type() {
    let collector = WindowsCollector::new();
    for t in [
        WindowsArtifactType::MFT, WindowsArtifactType::Registry, WindowsArtifactType::EventLog,
        WindowsArtifactType::Prefetch, WindowsArtifactType::USNJournal,
    ] {
        assert!(collector.supports_artifact_type(&ArtifactType::Windows(t)));
    }
    assert!(collector.supports_artifact_type(&ArtifactType::FileSystem));
    assert!(collector.supports_artifact_type(&ArtifactType::Logs));
    assert!(collector.supports_artifact_type(&ArtifactType::UserData));
    assert!(collector.supports_artifact_type(&ArtifactType::SystemInfo));
    assert!(collector.supports_artifact_type(&ArtifactType::Memory));
    assert!(collector.supports_artifact_type(&ArtifactType::Network));
    assert!(collector.supports_artifact_type(&ArtifactType::Custom));
    assert!(!collector.supports_artifact_type(&ArtifactType::Linux(LinuxArtifactType::SysLogs)));
    assert!(!collector.supports_artifact_type(&ArtifactType::MacOS(MacOSArtifactType::UnifiedLogs)));
}

#[test]
fn windows_test_artifact_type_matching() {
    let collector = WindowsCollector::new();
    let test_cases = vec![
        (WindowsArtifactType::MFT, "MFT"),
        (WindowsArtifactType::Registry, "Registry"),
        (WindowsArtifactType::EventLog, "EventLog"),
        (WindowsArtifactType::Prefetch, "Prefetch"),
        (WindowsArtifactType::USNJournal, "USNJournal"),
    ];
    for (t, name) in test_cases {
        assert!(collector.supports_artifact_type(&ArtifactType::Windows(t)), "Should support {} artifact type", name);
    }
}

#[test]
fn test_generic_artifact_support() {
    let collector = WindowsCollector::new();
    let generic_types = vec![
        ArtifactType::FileSystem,
        ArtifactType::Logs,
        ArtifactType::UserData,
        ArtifactType::SystemInfo,
        ArtifactType::Memory,
        ArtifactType::Network,
        ArtifactType::Custom,
    ];
    for t in generic_types {
        assert!(collector.supports_artifact_type(&t), "Should support {:?} artifact type", t);
    }
}

#[test]
fn test_non_windows_artifact_rejection() {
    let collector = WindowsCollector::new();
    for l in [LinuxArtifactType::SysLogs, LinuxArtifactType::Journal, LinuxArtifactType::Proc] {
        assert!(!collector.supports_artifact_type(&ArtifactType::Linux(l)), "Should not support Linux artifact type");
    }
    for m in [MacOSArtifactType::UnifiedLogs, MacOSArtifactType::FSEvents, MacOSArtifactType::Quarantine] {
        assert!(!collector.supports_artifact_type(&ArtifactType::MacOS(m)), "Should not support macOS artifact type");
    }
}

#[test]
fn fallback_takes_everything() {
    let f = FallbackCollector::new();
    assert!(f.supports_artifact_type(&ArtifactType::Windows(WindowsArtifactType::MFT)));
    assert_eq!(f.plan(SourceKind::Missing), CollectionAction::ReportMissing);
    assert_eq!(f.plan(SourceKind::Directory), CollectionAction::CopyDirectory);
    assert_eq!(f.plan(SourceKind::Other), CollectionAction::CopyFile);
}

#[test]
fn platform_choice_by_os_name() {
    assert!(matches!(get_platform_collector("windows"), PlatformCollector::Windows(_)));
    assert!(matches!(get_platform_collector("linux"), PlatformCollector::Linux(_)));
    assert!(matches!(get_platform_collector("macos"), PlatformCollector::MacOS(_)));
    assert!(matches!(get_platform_collector("freebsd"), PlatformCollector::Fallback(_)));
}

fn plain(name: &str, t: ArtifactType) -> Artifact {
    Artifact {
        name: name.to_string(),
        artifact_type: t,
        source_path: "/x".to_string(),
        destination_name: name.to_string(),
        description: None,
        required: false,
        metadata: std::collections::HashMap::new(),
        regex: None,
    }
}

#[test]
fn filtering_keeps_platform_types_in_order() {
    let artifacts = vec![
        plain("a", ArtifactType::Windows(WindowsArtifactType::MFT)),
        plain("b", ArtifactType::Logs),
        plain("c", ArtifactType::Linux(LinuxArtifactType::Cron)),
        plain("d", ArtifactType::VolatileData(rust_collector::config::artifact_types::VolatileDataType::Memory)),
    ];
    let linux: Vec<String> = filter_artifacts_for_platform(&artifacts, "linux").iter().map(|a| a.name.clone()).collect();
    assert_eq!(linux, vec!["b", "c"]);
    let windows: Vec<String> = filter_artifacts_for_platform(&artifacts, "windows").iter().map(|a| a.name.clone()).collect();
    assert_eq!(windows, vec!["a", "b"]);
    assert_eq!(filter_artifacts_for_platform(&artifacts, "haiku").len(), 4);
}

#[test]
fn collection_methods_by_type() {
    let l = LinuxCollector::new();
    assert_eq!(l.plan(&ArtifactType::Linux(LinuxArtifactType::Journal), "/var/log/journal", SourceKind::Directory), CollectionAction::ExportJournal);
    assert_eq!(l.plan(&ArtifactType::Linux(LinuxArtifactType::Proc), "/proc/self/status", SourceKind::File), CollectionAction::WriteProcNote);
    assert_eq!(l.plan(&ArtifactType::Linux(LinuxArtifactType::Proc), "/proc/cpuinfo", SourceKind::File), CollectionAction::CopyFile);
    assert_eq!(l.plan(&ArtifactType::Linux(LinuxArtifactType::Cron), "/etc/cron.d", SourceKind::Directory), CollectionAction::CopyDirectory);
    assert_eq!(l.plan(&ArtifactType::Linux(LinuxArtifactType::Bash), "/root/.bash_history", SourceKind::Directory), CollectionAction::CopyFile);
    let m = MacOSCollector::new();
    assert_eq!(m.plan(&ArtifactType::MacOS(MacOSArtifactType::Plist), SourceKind::File), CollectionAction::ConvertPlist);
    assert_eq!(m.plan(&ArtifactType::MacOS(MacOSArtifactType::Plist), SourceKind::Missing), CollectionAction::ReportMissing);
    assert_eq!(m.plan(&ArtifactType::MacOS(MacOSArtifactType::UnifiedLogs), SourceKind::Missing), CollectionAction::ExportUnifiedLogs);
    let w = WindowsCollector::new();
    assert_eq!(w.plan(&ArtifactType::Windows(WindowsArtifactType::Registry)), CollectionAction::RawHandle);
    assert!(is_self_referential_proc("/proc/thread-self"));
    assert!(!is_self_referential_proc("/proc/selfish"));
}
