use rust_collector::collectors::permission_tracker::PermissionTracker;
use rust_collector::cli::TargetOS;
use rust_collector::collectors::streaming::progress::{
    ArchiveEntry, CompressionChoice, ProgressTracker, archive_entry, compression_for,
};
use rust_collector::collectors::volatile::models::{
    CpuInfo, MemoryInfo, NetworkInfo, ProcessState, SystemInfo, VolatileDataSummary, process_status_name,
};
use rust_collector::host::{collection_concurrency, collection_concurrency_for, upload_concurrency, upload_concurrency_for};

#[test]
fn progress_is_reported_every_five_points() {
    let mut t = ProgressTracker::new(1000);
    assert!(t.has_work());
    assert!(!t.report(3));
    assert!(t.report(5));
    assert!(!t.report(9));
    assert!(t.report(10));
    assert!(t.is_done(1000));
    assert!(!ProgressTracker::new(0).has_work());
    let mut u = ProgressTracker::new(10);
    assert!(u.report(97));
    assert!(u.report(99));
    assert!(!u.report(99));
}

#[test]
fn compression_depends_on_type_and_size() {
    assert_eq!(compression_for(Some("gz"), Some(10)), CompressionChoice::Stored);
    assert_eq!(compression_for(Some("txt"), Some(10)), CompressionChoice::Deflated);
    assert_eq!(compression_for(Some("txt"), Some(200 * 1024 * 1024)), CompressionChoice::Stored);
    assert_eq!(compression_for(None, None), CompressionChoice::Deflated);
}

#[test]
fn volatile_summary() {
    let system = SystemInfo {
        hostname: Some("host".to_string()),
        os_name: Some("Linux".to_string()),
        os_version: Some("6.1".to_string()),
        kernel_version: None,
        cpu_info: CpuInfo { count: 8, vendor: None, brand: None, frequency: 3000 },
    };
    let network = NetworkInfo { interfaces: vec![], connections: vec![] };
    let memory = MemoryInfo { total_memory: 2048 * 1024, used_memory: 0, total_swap: 0, used_swap: 0 };
    let s = VolatileDataSummary::summarize(&system, 42, &network, &memory, 3);
    assert_eq!(s.system_name, Some("host".to_string()));
    assert_eq!(s.cpu_count, 8);
    assert_eq!(s.total_memory_mb, 2048);
    assert_eq!(s.process_count, 42);
    assert_eq!(s.network_interface_count, 0);
    assert_eq!(s.disk_count, 3);
}

#[test]
fn test_semaphore_concurrency_limit() {
    let max_concurrent = collection_concurrency();
    assert!(max_concurrent > 0);
    assert!(max_concurrent <= 256);
}

#[test]
fn test_concurrent_collection_limit() {
    assert_eq!(collection_concurrency_for(1), 2);
    assert_eq!(collection_concurrency_for(16), 32);
    assert_eq!(collection_concurrency_for(64), 32);
    assert_eq!(upload_concurrency_for(2), 2);
    assert_eq!(upload_concurrency_for(12), 4);
    let u = upload_concurrency();
    assert!(u >= 1 && u <= 4);
}

#[test]
fn test_target_os_display() {
    assert_eq!(TargetOS::Windows.to_string(), "windows");
    assert_eq!(TargetOS::Linux.to_string(), "linux");
    assert_eq!(TargetOS::MacOS.to_string(), "macos");
}

#[test]
fn test_permission_tracker() {
    let mut tracker = PermissionTracker::new();
    assert_eq!(tracker.failure_count(), 0);
    assert!(!tracker.should_suggest_elevation());
    tracker.record_permission_failure("syslog");
    assert_eq!(tracker.failure_count(), 1);
    assert!(tracker.should_suggest_elevation());
    tracker.record_permission_failure("syslog");
    assert_eq!(tracker.failure_count(), 1);
    tracker.record_permission_failure("auth.log");
    assert_eq!(tracker.failure_count(), 2);
}

#[test]
fn test_permission_error_detection() {
    assert!(PermissionTracker::is_permission_error("Permission denied accessing file"));
    assert!(PermissionTracker::is_permission_error("Error: PermissionDenied"));
    assert!(PermissionTracker::is_permission_error("Access is denied"));
    assert!(PermissionTracker::is_permission_error("Try running with elevated privileges"));
    assert!(!PermissionTracker::is_permission_error("File not found"));
    assert!(!PermissionTracker::is_permission_error("Network error"));
}

#[test]
fn permission_report_names_each_failure_and_advises_per_os() {
    let mut tracker = PermissionTracker::new();
    assert!(tracker.report_lines("linux", "collector --verbose").is_empty());
    tracker.record_permission_failure("syslog");
    tracker.record_permission_failure("auth.log");
    tracker.record_permission_failure("syslog");
    let lines = tracker.report_lines("linux", "collector --verbose");
    assert_eq!(lines.len(), 17);
    assert_eq!(lines[1], "⚠️  Permission Issues Summary");
    assert_eq!(
        lines[4],
        "The following 2 artifact(s) could not be collected due to insufficient permissions:"
    );
    assert_eq!(lines[6], "  • syslog");
    assert_eq!(lines[7], "  • auth.log");
    assert_eq!(lines[11], "  1. Run with sudo: sudo collector --verbose");
    assert_eq!(lines[15], "Note: Collection continued for accessible artifacts.");
    assert_eq!(lines[0], lines[16]);
    let windows = tracker.report_lines("windows", "x");
    assert_eq!(windows[11], "  1. Run as Administrator (right-click and 'Run as administrator')");
    assert_eq!(tracker.report_lines("freebsd", "x").len(), 14);
}

#[test]
fn archive_entries_are_named_below_the_source() {
    assert_eq!(archive_entry("/src/a/b.txt", "/src", false), ArchiveEntry::File("a/b.txt".to_string()));
    assert_eq!(archive_entry("/src", "/src", true), ArchiveEntry::Skip);
    assert_eq!(archive_entry("/src/dir", "/src", true), ArchiveEntry::Directory("dir/".to_string()));
    assert_eq!(archive_entry("/other/x", "/src", false), ArchiveEntry::File("/other/x".to_string()));
}

#[test]
fn test_process_status_mapping() {
    let statuses = vec![
        (ProcessState::Run, "Running"),
        (ProcessState::Sleep, "Sleeping"),
        (ProcessState::Stop, "Stopped"),
        (ProcessState::Zombie, "Zombie"),
        (ProcessState::Idle, "Idle"),
    ];
    for (status, expected) in statuses {
        assert_eq!(process_status_name(status), expected);
    }
    assert_eq!(process_status_name(ProcessState::Other), "Unknown");
}
