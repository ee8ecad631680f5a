use std::collections::HashMap;
use rust_collector::collectors::regex::collector::RegexCollector;
use rust_collector::collectors::regex::helpers::{compile_pattern, path_matches_pattern, should_exclude_path};
use rust_collector::collectors::collector::result_key;
use rust_collector::collectors::regex::walker::{DirectoryWalker, WalkAction};
use rust_collector::config::artifact_types::ArtifactType;
use rust_collector::config::collection_config::Artifact;
use rust_collector::config::regex_config::RegexConfig;

fn create_test_artifact(enabled: bool) -> Artifact {
    Artifact {
        name: "test".to_string(),
        artifact_type: ArtifactType::FileSystem,
        source_path: "/test".to_string(),
        destination_name: "test".to_string(),
        description: None,
        required: false,
        metadata: HashMap::new(),
        regex: Some(RegexConfig {
            enabled,
            include_pattern: r".*\.log$".to_string(),
            exclude_pattern: String::new(),
            recursive: true,
            max_depth: None,
        }),
    }
}

#[test]
fn test_regex_collector_new() {
    let collector = RegexCollector::new();
    let _ = collector.clone();
}

#[test]
fn test_regex_collector_clone() {
    let collector1 = RegexCollector::new();
    let _collector2 = collector1.clone();
    let artifact = create_test_artifact(true);
    assert!(RegexCollector::has_regex_config(&artifact));
}

#[test]
fn test_has_regex_config() {
    let artifact_with_regex = Artifact {
        name: "test".to_string(),
        artifact_type: ArtifactType::FileSystem,
        source_path: "/test".to_string(),
        destination_name: "test".to_string(),
        description: None,
        required: false,
        metadata: HashMap::new(),
        regex: Some(RegexConfig {
            enabled: true,
            include_pattern: "*.log".to_string(),
            exclude_pattern: String::new(),
            recursive: true,
            max_depth: None,
        }),
    };
    assert!(RegexCollector::has_regex_config(&artifact_with_regex));
    let artifact_disabled = create_test_artifact(false);
    assert!(!RegexCollector::has_regex_config(&artifact_disabled));
    let mut artifact_none = create_test_artifact(true);
    artifact_none.regex = None;
    assert!(!RegexCollector::has_regex_config(&artifact_none));
}

#[test]
fn patterns_match_relative_paths() {
    let p = compile_pattern(r"^logs/.*\.log$").unwrap();
    assert!(path_matches_pattern("/var/app/logs/a.log", "/var/app", &p));
    assert!(!path_matches_pattern("/var/app/logs/a.txt", "/var/app", &p));
    assert!(!path_matches_pattern("/elsewhere/logs/a.log", "/var/app", &p));
    assert!(compile_pattern("foo(bar").is_err());
    let ex = Some(compile_pattern("tmp").unwrap());
    assert!(should_exclude_path("/base/tmp/x", "/base", &ex));
    assert!(!should_exclude_path("/base/tmp/x", "/base", &None));
    assert_eq!(result_key("/a/b/c", "/a"), "b/c");
    assert_eq!(result_key("/a/b/c", "/x"), "/a/b/c");
}

#[test]
fn walks_decide_per_entry() {
    let w = DirectoryWalker::new("/base", "/out", r"\.log$", "skip", false, Some(2)).ok().unwrap();
    assert_eq!(w.entry_action("/base/a.log", false), WalkAction::Collect);
    assert_eq!(w.entry_action("/base/a.txt", false), WalkAction::Skip);
    assert_eq!(w.entry_action("/base/skip.log", false), WalkAction::Skip);
    assert_eq!(w.entry_action("/base/dir", true), WalkAction::Skip);
    assert!(w.depth_allowed(2));
    assert!(!w.depth_allowed(3));
    assert_eq!(w.destination_for("/base/sub/a.log").map(std::path::PathBuf::from), Some(std::path::Path::new("/out").join("sub/a.log")));
    assert!(w.destination_for("/other/a.log").is_none());
    let err = DirectoryWalker::new("/base", "/out", "(", "", true, None).err().unwrap();
    assert_eq!(err, "Invalid include pattern regex");
    let err = DirectoryWalker::new("/base", "/out", ".*", "(", true, None).err().unwrap();
    assert_eq!(err, "Invalid exclude pattern regex");
    let c = RegexCollector::new();
    assert_eq!(c.walker_for(&create_test_artifact(false), "/b", "/o").err().unwrap(), "Regex config not enabled for this artifact");
    assert!(c.walker_for(&create_test_artifact(true), "/b", "/o").is_ok());
}

#[test]
fn walk_steps_respect_the_depth_limit_and_exclusions() {
    let w = DirectoryWalker::new("/base", "/out", r"\.log$", "tmp", true, Some(1)).ok().unwrap();
    assert_eq!(w.walk_step("/base/a.log", false, 0), WalkAction::Collect);
    assert_eq!(w.walk_step("/base/sub", true, 0), WalkAction::Descend);
    assert_eq!(w.walk_step("/base/sub/b.log", false, 1), WalkAction::Collect);
    assert_eq!(w.walk_step("/base/sub/deep/c.log", false, 2), WalkAction::Skip);
    assert_eq!(w.walk_step("/base/tmp", true, 0), WalkAction::Skip);
    assert_eq!(w.walk_step("/base/a.txt", false, 0), WalkAction::Skip);
    let unlimited = DirectoryWalker::new("/base", "/out", ".*", "", true, None).ok().unwrap();
    assert_eq!(unlimited.walk_step("/base/x/y/z", false, 40), WalkAction::Collect);
}
