use std::collections::HashMap;
use std::path::{Path, PathBuf};
use rust_collector::collectors::collector::{
    get_destination_path, handle_duplicate_filename, is_special_artifact, normalize_path_for_storage,
    destination_path_for, duplicate_filename_candidate, result_key, collection_route, failure_is_warning,
    CollectionRoute, DuplicateChoice, duplicate_choice, duplicate_path, first_free_name, MAX_DUPLICATE_SUFFIX,
};
use rust_collector::config::regex_config::RegexConfig;
use rust_collector::config::artifact_types::{
    ArtifactType, LinuxArtifactType, MacOSArtifactType, VolatileDataType, WindowsArtifactType,
};
use rust_collector::config::collection_config::Artifact;

fn artifact(name: &str, t: ArtifactType, source: &str, dest: &str, required: bool) -> Artifact {
    Artifact {
        name: name.to_string(),
        artifact_type: t,
        source_path: source.to_string(),
        destination_name: dest.to_string(),
        description: None,
        required,
        metadata: HashMap::new(),
        regex: None,
    }
}

fn windows_build() -> bool {
    std::path::MAIN_SEPARATOR == '\\'
}

#[test]
fn test_is_special_artifact() {
    assert!(is_special_artifact(&ArtifactType::Windows(WindowsArtifactType::MFT)));
    assert!(is_special_artifact(&ArtifactType::Windows(WindowsArtifactType::USNJournal)));
    assert!(!is_special_artifact(&ArtifactType::Windows(WindowsArtifactType::Registry)));
    assert!(!is_special_artifact(&ArtifactType::Linux(LinuxArtifactType::SysLogs)));
    assert!(!is_special_artifact(&ArtifactType::FileSystem));
    assert!(!is_special_artifact(&ArtifactType::Logs));
}

#[test]
fn test_get_destination_path_special_artifact() {
    let fs_dir = Path::new("/output/fs");
    let a = artifact("MFT", ArtifactType::Windows(WindowsArtifactType::MFT), r"\\?\C:\$MFT", "MFT", true);
    let dest_path = PathBuf::from(get_destination_path("/output/fs", &a));
    assert_eq!(dest_path, fs_dir.join("MFT"));
}

#[test]
fn test_get_destination_path_absolute_unix() {
    let fs_dir = Path::new("/output/fs");
    let a = artifact("syslog", ArtifactType::Linux(LinuxArtifactType::SysLogs), "/var/log/syslog", "syslog", true);
    let dest_path = PathBuf::from(get_destination_path("/output/fs", &a));
    assert_eq!(dest_path, fs_dir.join("var/log/syslog"));
}

#[test]
fn test_get_destination_path_absolute_windows() {
    let fs_dir = Path::new("/output/fs");
    let a = artifact(
        "hosts",
        ArtifactType::FileSystem,
        r"C:\Windows\System32\drivers\etc\hosts",
        "hosts",
        true,
    );
    let dest_path = PathBuf::from(get_destination_path("/output/fs", &a));
    if windows_build() {
        assert_eq!(dest_path, fs_dir.join(r"Windows\System32\drivers\etc\hosts"));
    } else {
        assert_eq!(dest_path, fs_dir.join(r"C:\Windows\System32\drivers\etc\hosts"));
    }
}

#[test]
fn test_get_destination_path_relative() {
    let fs_dir = Path::new("/output/fs");
    let a = artifact("config", ArtifactType::UserData, "config/app.conf", "app.conf", false);
    let dest_path = PathBuf::from(get_destination_path("/output/fs", &a));
    assert_eq!(dest_path, fs_dir.join("config/app.conf"));
}

#[test]
fn test_normalize_path_for_storage() {
    assert_eq!(normalize_path_for_storage(r"Windows\System32\config"), "Windows/System32/config");
    assert_eq!(normalize_path_for_storage("/var/log/syslog"), "/var/log/syslog");
    assert_eq!(normalize_path_for_storage(r"some\mixed/path"), "some/mixed/path");
}

struct MockCollector {
    supported_types: Vec<ArtifactType>,
}

impl MockCollector {
    fn supports_artifact_type(&self, artifact_type: &ArtifactType) -> bool {
        self.supported_types.contains(artifact_type)
    }
}

#[test]
fn test_artifact_type_support() {
    let mock = MockCollector {
        supported_types: vec![ArtifactType::FileSystem, ArtifactType::Windows(WindowsArtifactType::Registry)],
    };
    assert!(mock.supports_artifact_type(&ArtifactType::FileSystem));
    assert!(mock.supports_artifact_type(&ArtifactType::Windows(WindowsArtifactType::Registry)));
    assert!(!mock.supports_artifact_type(&ArtifactType::Linux(LinuxArtifactType::SysLogs)));
    assert!(!mock.supports_artifact_type(&ArtifactType::MacOS(MacOSArtifactType::UnifiedLogs)));
}

#[test]
fn test_get_destination_path_edge_cases() {
    let fs_dir = Path::new("/output/fs");
    let a = artifact("empty", ArtifactType::FileSystem, "", "empty.txt", false);
    let dest_path = PathBuf::from(get_destination_path("/output/fs", &a));
    assert_eq!(dest_path, fs_dir.join(""));
    let a2 = artifact("sep", ArtifactType::FileSystem, "///", "sep.txt", false);
    let dest_path2 = PathBuf::from(get_destination_path("/output/fs", &a2));
    assert_eq!(dest_path2, fs_dir.join(""));
}

#[test]
fn test_get_destination_path_windows_unc() {
    let fs_dir = Path::new("/output/fs");
    let a = artifact("unc", ArtifactType::FileSystem, r"\\server\share\file.txt", "file.txt", false);
    let dest_path = PathBuf::from(get_destination_path("/output/fs", &a));
    assert_eq!(dest_path, fs_dir.join(r"server\share\file.txt"));
}

#[test]
fn test_normalize_path_for_storage_edge_cases() {
    assert_eq!(normalize_path_for_storage(""), "");
    assert_eq!(normalize_path_for_storage(r"C:\\Windows\\System32"), "C://Windows//System32");
    assert_eq!(normalize_path_for_storage(r"some/mixed\\path/here"), "some/mixed//path/here");
}

#[test]
fn storage_form_turns_each_backslash_into_a_slash() {
    assert_eq!(normalize_path_for_storage("some/mixed\\path/here"), "some/mixed/path/here");
}

#[test]
fn test_is_special_artifact_comprehensive() {
    let special_types = vec![
        ArtifactType::Windows(WindowsArtifactType::MFT),
        ArtifactType::Windows(WindowsArtifactType::USNJournal),
    ];
    let normal_types = vec![
        ArtifactType::Windows(WindowsArtifactType::Registry),
        ArtifactType::Windows(WindowsArtifactType::EventLog),
        ArtifactType::Windows(WindowsArtifactType::Prefetch),
        ArtifactType::Windows(WindowsArtifactType::ShimCache),
        ArtifactType::Windows(WindowsArtifactType::AmCache),
        ArtifactType::FileSystem,
        ArtifactType::Logs,
        ArtifactType::UserData,
        ArtifactType::SystemInfo,
        ArtifactType::Memory,
        ArtifactType::Network,
        ArtifactType::VolatileData(VolatileDataType::Processes),
        ArtifactType::Custom,
    ];
    for t in special_types {
        assert!(is_special_artifact(&t), "{:?} should be special", t);
    }
    for t in normal_types {
        assert!(!is_special_artifact(&t), "{:?} should not be special", t);
    }
}

#[test]
fn destination_on_windows_strips_drive() {
    let a = artifact("hosts", ArtifactType::FileSystem, r"C:\Windows\hosts", "hosts", true);
    assert_eq!(destination_path_for(r"D:\out", &a, '\\'), r"D:\out\Windows\hosts");
    let b = artifact("rel", ArtifactType::FileSystem, "dir/file", "file", true);
    assert_eq!(destination_path_for("/out/", &b, '/'), "/out/dir/file");
}

#[test]
fn duplicate_candidates_follow_the_name() {
    assert_eq!(duplicate_filename_candidate("/tmp/x/test.txt", 1, '/'), "/tmp/x/test_1.txt");
    assert_eq!(duplicate_filename_candidate("/tmp/x/file.tar.gz", 1, '/'), "/tmp/x/file.tar_1.gz");
    assert_eq!(duplicate_filename_candidate("/tmp/x/.hidden", 1, '/'), "/tmp/x/.hidden_1");
    assert_eq!(duplicate_filename_candidate("/tmp/x/test", 12, '/'), "/tmp/x/test_12");
}

fn create_named(dir: &Path, prefix: &str, suffix: &str) -> tempfile::NamedTempFile {
    tempfile::Builder::new().prefix(prefix).suffix(suffix).rand_bytes(0).tempfile_in(dir).unwrap()
}

#[test]
fn test_handle_duplicate_filename() {
    let temp_dir = tempfile::TempDir::new().unwrap();
    let base_path = temp_dir.path().join("test.txt");
    let base = base_path.to_string_lossy().to_string();
    let path1 = handle_duplicate_filename(&base).unwrap();
    assert_eq!(PathBuf::from(&path1), base_path);
    let _first = create_named(temp_dir.path(), "test", ".txt");
    let path2 = handle_duplicate_filename(&base).unwrap();
    assert_eq!(PathBuf::from(&path2), temp_dir.path().join("test_1.txt"));
    let _second = create_named(temp_dir.path(), "test_1", ".txt");
    let path3 = handle_duplicate_filename(&base).unwrap();
    assert_eq!(PathBuf::from(&path3), temp_dir.path().join("test_2.txt"));
}

#[test]
fn test_handle_duplicate_filename_no_extension() {
    let temp_dir = tempfile::TempDir::new().unwrap();
    let base_path = temp_dir.path().join("test");
    let _file = create_named(temp_dir.path(), "test", "");
    let path2 = handle_duplicate_filename(&base_path.to_string_lossy()).unwrap();
    assert_eq!(PathBuf::from(path2), temp_dir.path().join("test_1"));
}

#[test]
fn result_keys_are_relative_and_forward_slashed() {
    assert_eq!(result_key("/base/fs/var/log/syslog", "/base"), "fs/var/log/syslog");
    assert_eq!(result_key("/elsewhere/a\\b", "/base"), "/elsewhere/a/b");
}

#[test]
fn test_handle_duplicate_filename_complex_extensions() {
    let temp_dir = tempfile::TempDir::new().unwrap();
    let base_path = temp_dir.path().join("file.tar.gz");
    let _first = create_named(temp_dir.path(), "file.tar", ".gz");
    let path2 = handle_duplicate_filename(&base_path.to_string_lossy()).unwrap();
    assert_eq!(PathBuf::from(path2), temp_dir.path().join("file.tar_1.gz"));
    let hidden_path = temp_dir.path().join(".hidden");
    let _hidden = create_named(temp_dir.path(), ".hidden", "");
    let path3 = handle_duplicate_filename(&hidden_path.to_string_lossy()).unwrap();
    assert_eq!(PathBuf::from(path3), temp_dir.path().join(".hidden_1"));
}

#[test]
fn artifacts_with_enabled_patterns_take_the_regex_route() {
    let mut a = artifact("logs", ArtifactType::Logs, "/var/log", "logs", false);
    assert_eq!(collection_route(&a), CollectionRoute::Standard);
    a.regex = Some(RegexConfig {
        enabled: false,
        recursive: true,
        include_pattern: ".*".to_string(),
        exclude_pattern: String::new(),
        max_depth: None,
    });
    assert_eq!(collection_route(&a), CollectionRoute::Standard);
    a.regex.as_mut().unwrap().enabled = true;
    assert_eq!(collection_route(&a), CollectionRoute::Regex);
    assert!(!failure_is_warning(&a));
    a.required = true;
    assert!(failure_is_warning(&a));
}

#[test]
fn duplicate_steps_use_free_names_and_try_the_next_after_taken_ones() {
    assert_eq!(duplicate_path("/d/test.txt", 0, '/'), "/d/test.txt");
    assert_eq!(duplicate_path("/d/test.txt", 2, '/'), "/d/test_2.txt");
    assert_eq!(duplicate_choice("/d/test.txt", 0, false, '/'), DuplicateChoice::Use("/d/test.txt".to_string()));
    assert_eq!(duplicate_choice("/d/test.txt", 3, false, '/'), DuplicateChoice::Use("/d/test_3.txt".to_string()));
    assert_eq!(duplicate_choice("/d/test.txt", 3, true, '/'), DuplicateChoice::Try(4));
    assert_eq!(duplicate_choice("/d/test.txt", MAX_DUPLICATE_SUFFIX, true, '/'), DuplicateChoice::GiveUp);
}

#[test]
fn the_first_free_name_is_the_least_untaken_one() {
    let taken = |p: &str| p == "/d/test.txt" || p == "/d/test_1.txt";
    assert_eq!(first_free_name("/d/test.txt", '/', taken), Some("/d/test_2.txt".to_string()));
    assert_eq!(first_free_name("/d/other.txt", '/', taken), Some("/d/other.txt".to_string()));
    assert_eq!(first_free_name("/d/.hidden", '/', |p: &str| p == "/d/.hidden"), Some("/d/.hidden_1".to_string()));
    assert_eq!(first_free_name("/d/file.tar.gz", '/', |p: &str| p == "/d/file.tar.gz"), Some("/d/file.tar_1.gz".to_string()));
}
