use std::collections::HashMap;
use rust_collector::collectors::collector::{destination_path_for, normalize_path_for_storage};
use rust_collector::config::artifact_types::{ArtifactType, LinuxArtifactType};
use rust_collector::config::collection_config::Artifact;
use rust_collector::config::env_vars::{
    Environment, normalize_path_for_separator, parse_unix_env_vars, parse_windows_env_vars,
};
use rust_collector::cloud::retry::backoff_delay_ms;

fn linux_artifact(source: &str) -> Artifact {
    Artifact {
        name: "a".to_string(),
        artifact_type: ArtifactType::Linux(LinuxArtifactType::SysLogs),
        source_path: source.to_string(),
        destination_name: "a".to_string(),
        description: None,
        required: false,
        metadata: HashMap::new(),
        regex: None,
    }
}

#[test]
fn normalizing_twice_changes_nothing() {
    for p in ["C:\\Users\\x/y", "a//b\\\\c", "", "\\"] {
        let once = normalize_path_for_separator(p, '/');
        assert!(!once.contains('\\'));
        assert_eq!(normalize_path_for_separator(&once, '/'), once);
        let win = normalize_path_for_separator(p, '\\');
        assert!(!win.contains('/'));
        assert_eq!(normalize_path_for_separator(&win, '\\'), win);
    }
    let stored = normalize_path_for_storage("a\\b\\c");
    assert_eq!(normalize_path_for_storage(&stored), stored);
}

#[test]
fn a_variable_reads_back_what_was_set_last() {
    let mut env = Environment::new();
    env.set("A", "1");
    env.set("B", "2");
    env.set("A", "3");
    assert_eq!(parse_unix_env_vars("$A/$B", &env), "3/2");
    env.remove("A");
    assert_eq!(parse_unix_env_vars("$A/$B", &env), "$A/2");
}

#[test]
fn text_without_markers_is_not_expanded() {
    let mut env = Environment::new();
    env.set("HOME", "/home/u");
    assert_eq!(parse_windows_env_vars("HOME/x", &env), "HOME/x");
    assert_eq!(parse_unix_env_vars("HOME%x%", &env), "HOME%x%");
}

#[test]
fn destinations_stay_below_the_collection_directory() {
    for source in ["/etc/passwd", "relative/file", "//double", "/"] {
        let d = destination_path_for("/out/fs", &linux_artifact(source), '/');
        assert!(d.starts_with("/out/fs"), "{} went to {}", source, d);
    }
}

#[test]
fn backoff_never_shrinks_and_stays_capped() {
    let mut last = 0;
    for attempt in 0..20 {
        let d = backoff_delay_ms(250, attempt, 30_000);
        assert!(d >= last);
        assert!(d <= 30_000);
        last = d;
    }
    assert_eq!(backoff_delay_ms(250, 3, 30_000), 2000);
    assert_eq!(backoff_delay_ms(250, 10, 30_000), 30_000);
}
