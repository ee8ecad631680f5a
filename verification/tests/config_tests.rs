use std::collections::{HashMap, HashSet};
use rust_collector::config::artifact_types::{
    ArtifactType, LinuxArtifactType, MacOSArtifactType, VolatileDataType, WindowsArtifactType,
};
use rust_collector::config::collection_config::{
    Artifact, CollectionConfig, ConfigSource, config_source, os_default_config_file,
};
use rust_collector::config::env_vars::{
    Environment, expansion_ends_within, normalize_path_for_os, parse_unix_env_vars, parse_windows_env_vars,
    unix_expansion_within,
};
use rust_collector::config::regex_config::RegexConfig;

fn windows_build() -> bool {
    std::path::MAIN_SEPARATOR == '\\'
}

#[test]
fn test_artifact_type_display() {
    assert_eq!(ArtifactType::FileSystem.to_string(), "FileSystem");
    assert_eq!(ArtifactType::Logs.to_string(), "Logs");
    assert_eq!(ArtifactType::Custom.to_string(), "Custom");
    assert_eq!(ArtifactType::Windows(WindowsArtifactType::Registry).to_string(), "Windows-Registry");
    assert_eq!(ArtifactType::Linux(LinuxArtifactType::SysLogs).to_string(), "Linux-SysLogs");
    assert_eq!(ArtifactType::MacOS(MacOSArtifactType::UnifiedLogs).to_string(), "MacOS-UnifiedLogs");
    assert_eq!(
        ArtifactType::VolatileData(VolatileDataType::SystemInfo).to_string(),
        "VolatileData-SystemInfo"
    );
}

#[test]
fn test_volatile_data_type_display() {
    assert_eq!(VolatileDataType::SystemInfo.to_string(), "SystemInfo");
    assert_eq!(VolatileDataType::Processes.to_string(), "Processes");
    assert_eq!(VolatileDataType::NetworkConnections.to_string(), "NetworkConnections");
    assert_eq!(VolatileDataType::Memory.to_string(), "Memory");
    assert_eq!(VolatileDataType::Disks.to_string(), "Disks");
}

#[test]
fn test_artifact_type_equality() {
    assert_eq!(ArtifactType::FileSystem, ArtifactType::FileSystem);
    assert_ne!(ArtifactType::FileSystem, ArtifactType::Logs);
    assert_eq!(
        ArtifactType::Windows(WindowsArtifactType::MFT),
        ArtifactType::Windows(WindowsArtifactType::MFT)
    );
    assert_ne!(
        ArtifactType::Windows(WindowsArtifactType::MFT),
        ArtifactType::Windows(WindowsArtifactType::Registry)
    );
}

#[test]
fn test_artifact_type_hash() {
    let mut set = HashSet::new();
    set.insert(ArtifactType::FileSystem);
    set.insert(ArtifactType::Logs);
    set.insert(ArtifactType::Windows(WindowsArtifactType::EventLog));
    assert!(set.contains(&ArtifactType::FileSystem));
    assert!(set.contains(&ArtifactType::Windows(WindowsArtifactType::EventLog)));
    assert!(!set.contains(&ArtifactType::Custom));
}

#[test]
fn test_clone_implementation() {
    let original = ArtifactType::Windows(WindowsArtifactType::Registry);
    let cloned = original.clone();
    assert_eq!(original, cloned);
    let volatile_original = VolatileDataType::Processes;
    let volatile_cloned = volatile_original.clone();
    assert_eq!(volatile_original, volatile_cloned);
}

#[test]
fn test_default_configs() {
    let windows_config = CollectionConfig::default_windows();
    assert!(windows_config.version == "1.0");
    assert!(windows_config.artifacts.iter().any(|a| a.name == "MFT"));
    assert!(windows_config.artifacts.iter().any(|a| a.name == "SYSTEM"));
    let linux_config = CollectionConfig::default_linux();
    assert!(linux_config.artifacts.iter().any(|a| a.name == "syslog"));
    assert!(linux_config.artifacts.iter().any(|a| a.name == "auth.log"));
    let macos_config = CollectionConfig::default_macos();
    assert!(macos_config.artifacts.iter().any(|a| a.name == "unified_logs"));
    assert!(macos_config.artifacts.iter().any(|a| a.name == "fseventsd"));
    let minimal_config = CollectionConfig::default_minimal();
    assert!(minimal_config.artifacts.len() >= 2);
}

#[test]
fn test_path_normalization() {
    let mut config = CollectionConfig {
        version: "1.0".to_string(),
        description: "Test".to_string(),
        artifacts: vec![Artifact {
            name: "mixed_separators".to_string(),
            artifact_type: ArtifactType::Logs,
            source_path: "C:\\Users\\test/Documents\\file.txt".to_string(),
            destination_name: "file.txt".to_string(),
            description: None,
            required: false,
            metadata: HashMap::new(),
            regex: None,
        }],
        global_options: HashMap::new(),
    };
    config.process_environment_variables(&Environment::new());
    let normalized_path = &config.artifacts[0].source_path;
    if windows_build() {
        assert!(!normalized_path.contains('/'));
    } else {
        assert!(!normalized_path.contains('\\'));
    }
}

#[test]
fn test_process_environment_variables() {
    let mut config = CollectionConfig {
        version: "1.0".to_string(),
        description: "Test".to_string(),
        artifacts: vec![
            Artifact {
                name: "windows_env".to_string(),
                artifact_type: ArtifactType::Logs,
                source_path: "%TEMP%/test.log".to_string(),
                destination_name: "test.log".to_string(),
                description: None,
                required: false,
                metadata: HashMap::new(),
                regex: None,
            },
            Artifact {
                name: "unix_env".to_string(),
                artifact_type: ArtifactType::Logs,
                source_path: "$HOME/test.log".to_string(),
                destination_name: "test.log".to_string(),
                description: None,
                required: false,
                metadata: HashMap::new(),
                regex: None,
            },
        ],
        global_options: HashMap::new(),
    };
    let mut env = Environment::new();
    env.set("TEMP", "/tmp");
    env.set("HOME", "/home/user");
    config.process_environment_variables(&env);
    assert!(!config.artifacts[0].source_path.contains("%TEMP%"));
    assert!(!config.artifacts[1].source_path.contains("$HOME"));
    if !windows_build() {
        assert_eq!(config.artifacts[0].source_path, "/tmp/test.log");
        assert_eq!(config.artifacts[1].source_path, "/home/user/test.log");
    }
}

#[test]
fn test_default_minimal_config() {
    let config = CollectionConfig::default_minimal();
    assert_eq!(config.version, "1.0");
    assert_eq!(config.description, "Minimal DFIR triage configuration");
    assert_eq!(config.artifacts.len(), 2);
    let hostname = config.artifacts.iter().find(|a| a.name == "hostname").expect("hostname artifact should exist");
    assert!(matches!(hostname.artifact_type, ArtifactType::SystemInfo));
    assert_eq!(hostname.source_path, "/etc/hostname");
    assert_eq!(hostname.destination_name, "hostname");
    assert!(!hostname.required);
    let logs = config.artifacts.iter().find(|a| a.name == "logs").expect("logs artifact should exist");
    assert!(matches!(logs.artifact_type, ArtifactType::Logs));
    assert_eq!(logs.source_path, "/var/log");
    assert_eq!(logs.destination_name, "logs");
    assert!(!logs.required);
}

fn all_defaults() -> Vec<CollectionConfig> {
    vec![
        CollectionConfig::default_windows(),
        CollectionConfig::default_linux(),
        CollectionConfig::default_macos(),
        CollectionConfig::default_minimal(),
    ]
}

#[test]
fn test_all_configs_have_valid_version() {
    for config in all_defaults() {
        assert!(!config.version.is_empty());
        assert!(config.version.contains('.'));
    }
}

#[test]
fn test_all_configs_have_description() {
    for config in all_defaults() {
        assert!(!config.description.is_empty());
        assert!(config.description.contains("DFIR"));
    }
}

#[test]
fn test_artifact_metadata_and_regex() {
    for config in all_defaults() {
        for artifact in &config.artifacts {
            assert!(artifact.metadata.is_empty());
            assert!(artifact.regex.is_none());
        }
    }
}

#[test]
fn test_global_options_empty() {
    for config in all_defaults() {
        assert!(config.global_options.is_empty());
    }
}

#[test]
fn default_configs_test_windows_artifact_types() {
    let config = CollectionConfig::default_windows();
    let mut type_counts = HashMap::new();
    for artifact in &config.artifacts {
        match &artifact.artifact_type {
            ArtifactType::Windows(win_type) => {
                let kind_name = format!("{:?}", win_type);
                *type_counts.entry(kind_name).or_insert(0) += 1;
            }
            _ => panic!("Non-Windows artifact type in Windows config"),
        }
    }
    assert!(type_counts.get("Registry").unwrap_or(&0) >= &5);
    assert!(type_counts.get("EventLog").unwrap_or(&0) >= &3);
    assert_eq!(type_counts.get("MFT").unwrap_or(&0), &1);
    assert_eq!(type_counts.get("Prefetch").unwrap_or(&0), &1);
    assert_eq!(type_counts.get("USNJournal").unwrap_or(&0), &1);
}

#[test]
fn default_configs_test_linux_artifact_types() {
    let config = CollectionConfig::default_linux();
    for artifact in &config.artifacts {
        assert!(matches!(artifact.artifact_type, ArtifactType::Linux(_)));
    }
    let required_count = config.artifacts.iter().filter(|a| a.required).count();
    let optional_count = config.artifacts.iter().filter(|a| !a.required).count();
    assert_eq!(required_count, 2);
    assert!(optional_count > 5);
}

#[test]
fn test_windows_special_paths() {
    let config = CollectionConfig::default_windows();
    for artifact in &config.artifacts {
        if artifact.source_path.starts_with(r"\\?\") {
            let after_prefix = &artifact.source_path[4..];
            assert!(after_prefix.starts_with("C:") || after_prefix.starts_with("%"));
        }
    }
    let mft = config.artifacts.iter().find(|a| a.name == "MFT").unwrap();
    assert!(mft.source_path.contains("$MFT"));
    let usn = config.artifacts.iter().find(|a| a.name == "USN Journal").unwrap();
    assert!(usn.source_path.contains("$Extend"));
    assert!(usn.source_path.contains("$UsnJrnl:$J"));
}

#[test]
fn test_environment_variables_in_paths() {
    let config_windows = CollectionConfig::default_windows();
    let config_linux = CollectionConfig::default_linux();
    let config_macos = CollectionConfig::default_macos();
    let ntuser = config_windows.artifacts.iter().find(|a| a.name == "NTUSER.DAT").unwrap();
    assert!(ntuser.source_path.contains("%USERPROFILE%"));
    let bash_history = config_linux.artifacts.iter().find(|a| a.name == "bash_history").unwrap();
    assert!(bash_history.source_path.contains("$HOME"));
    let quarantine = config_macos.artifacts.iter().find(|a| a.name == "quarantine").unwrap();
    assert!(quarantine.source_path.contains("$HOME"));
}

#[test]
fn test_normalize_path_for_os() {
    if windows_build() {
        assert_eq!(normalize_path_for_os("C:/Users/test"), "C:\\Users\\test");
        assert_eq!(normalize_path_for_os("path/to/file"), "path\\to\\file");
        assert_eq!(normalize_path_for_os("already\\correct"), "already\\correct");
        assert_eq!(normalize_path_for_os("mixed/path\\style"), "mixed\\path\\style");
    } else {
        assert_eq!(normalize_path_for_os("C:\\Users\\test"), "C:/Users/test");
        assert_eq!(normalize_path_for_os("path\\to\\file"), "path/to/file");
        assert_eq!(normalize_path_for_os("already/correct"), "already/correct");
        assert_eq!(normalize_path_for_os("mixed\\path/style"), "mixed/path/style");
    }
}

#[test]
fn test_normalize_path_empty_and_special() {
    assert_eq!(normalize_path_for_os(""), "");
    assert_eq!(normalize_path_for_os("/"), "/");
    assert_eq!(normalize_path_for_os("\\"), if windows_build() { "\\" } else { "/" });
    if windows_build() {
        assert_eq!(normalize_path_for_os("path//to///file"), "path\\\\to\\\\\\file");
    } else {
        assert_eq!(normalize_path_for_os("path\\\\to\\\\\\file"), "path//to///file");
    }
}

#[test]
fn test_regex_config_default() {
    let config = RegexConfig::default();
    assert!(!config.enabled);
    assert!(!config.recursive);
    assert_eq!(config.include_pattern, ".*");
    assert_eq!(config.exclude_pattern, "");
    assert_eq!(config.max_depth, None);
}

#[test]
fn test_regex_config_clone() {
    let original = RegexConfig {
        enabled: true,
        recursive: true,
        include_pattern: "test".to_string(),
        exclude_pattern: "exclude".to_string(),
        max_depth: Some(10),
    };
    let cloned = original.clone();
    assert_eq!(cloned.enabled, original.enabled);
    assert_eq!(cloned.recursive, original.recursive);
    assert_eq!(cloned.include_pattern, original.include_pattern);
    assert_eq!(cloned.exclude_pattern, original.exclude_pattern);
    assert_eq!(cloned.max_depth, original.max_depth);
}

#[test]
fn os_specific_config_choice() {
    let w = CollectionConfig::create_os_specific_config_file("windows");
    assert!(w.artifacts.iter().any(|a| a.name == "MFT"));
    let l = CollectionConfig::create_os_specific_config_file("linux");
    assert!(l.artifacts.iter().any(|a| a.name == "syslog"));
    let other = CollectionConfig::create_os_specific_config_file("plan9");
    assert_eq!(other.description, "Minimal DFIR triage configuration");
    let d = CollectionConfig::create_default_config_file("macos");
    assert!(d.artifacts.iter().any(|a| a.name == "unified_logs"));
}

fn names(config: &CollectionConfig) -> Vec<&str> {
    config.artifacts.iter().map(|a| a.name.as_str()).collect()
}

#[test]
fn test_default_windows_config() {
    let config = CollectionConfig::default_windows();
    assert_eq!(config.version, "1.0");
    assert_eq!(config.description, "Default Windows DFIR triage configuration");
    assert!(!config.artifacts.is_empty());
    let artifact_names = names(&config);
    for n in ["MFT", "SYSTEM", "SOFTWARE", "SECURITY", "SAM", "NTUSER.DAT", "System.evtx", "Security.evtx",
        "Application.evtx", "Prefetch", "USN Journal"] {
        assert!(artifact_names.contains(&n));
    }
    let mft = config.artifacts.iter().find(|a| a.name == "MFT").expect("MFT artifact should exist");
    assert!(matches!(mft.artifact_type, ArtifactType::Windows(WindowsArtifactType::MFT)));
    assert_eq!(mft.source_path, r"\\?\C:\$MFT");
    assert_eq!(mft.destination_name, "MFT");
    assert!(mft.required);
    assert_eq!(mft.description, Some("Master File Table".to_string()));
    let system_hive = config.artifacts.iter().find(|a| a.name == "SYSTEM").expect("SYSTEM artifact should exist");
    assert!(matches!(system_hive.artifact_type, ArtifactType::Windows(WindowsArtifactType::Registry)));
    assert_eq!(system_hive.source_path, r"\\?\C:\Windows\System32\config\SYSTEM");
    assert!(system_hive.required);
}

#[test]
fn test_default_linux_config() {
    let config = CollectionConfig::default_linux();
    assert_eq!(config.version, "1.0");
    assert_eq!(config.description, "Default Linux DFIR triage configuration");
    assert!(!config.artifacts.is_empty());
    let artifact_names = names(&config);
    for n in ["syslog", "auth.log", "journal", "proc-cmdline", "proc-modules", "audit.log", "crontab",
        "bash_history", "dpkg.log", "systemd-units"] {
        assert!(artifact_names.contains(&n));
    }
    let syslog = config.artifacts.iter().find(|a| a.name == "syslog").expect("syslog artifact should exist");
    assert!(matches!(syslog.artifact_type, ArtifactType::Linux(LinuxArtifactType::SysLogs)));
    assert_eq!(syslog.source_path, "/var/log/syslog");
    assert_eq!(syslog.destination_name, "syslog");
    assert!(syslog.required);
    let bash_history = config.artifacts.iter().find(|a| a.name == "bash_history").expect("bash_history artifact should exist");
    assert!(matches!(bash_history.artifact_type, ArtifactType::Linux(LinuxArtifactType::Bash)));
    assert_eq!(bash_history.source_path, "$HOME/.bash_history");
    assert!(!bash_history.required);
}

#[test]
fn test_default_macos_config() {
    let config = CollectionConfig::default_macos();
    assert_eq!(config.version, "1.0");
    assert_eq!(config.description, "Default macOS DFIR triage configuration");
    assert!(!config.artifacts.is_empty());
    let artifact_names = names(&config);
    for n in ["system.log", "unified_logs", "fseventsd", "quarantine", "knowledgec", "launch_agents",
        "user_launch_agents", "launch_daemons", "spotlight_store", "system_plists"] {
        assert!(artifact_names.contains(&n));
    }
    let unified_logs = config.artifacts.iter().find(|a| a.name == "unified_logs").expect("unified_logs artifact should exist");
    assert!(matches!(unified_logs.artifact_type, ArtifactType::MacOS(MacOSArtifactType::UnifiedLogs)));
    assert_eq!(unified_logs.source_path, "/private/var/db/diagnostics");
    assert_eq!(unified_logs.destination_name, "unified_logs");
    assert!(!unified_logs.required);
    let quarantine = config.artifacts.iter().find(|a| a.name == "quarantine").expect("quarantine artifact should exist");
    assert!(matches!(quarantine.artifact_type, ArtifactType::MacOS(MacOSArtifactType::Quarantine)));
    assert!(quarantine.source_path.contains("QuarantineEventsV2"));
}

#[test]
fn default_configs_test_macos_artifact_types() {
    let config = CollectionConfig::default_macos();
    for artifact in &config.artifacts {
        assert!(matches!(artifact.artifact_type, ArtifactType::MacOS(_)));
    }
    let required_artifacts: Vec<&str> =
        config.artifacts.iter().filter(|a| a.required).map(|a| a.name.as_str()).collect();
    assert_eq!(required_artifacts, vec!["system.log"]);
}

#[test]
fn test_create_os_specific_config_file() {
    let windows_config = CollectionConfig::create_os_specific_config_file("windows");
    assert!(windows_config.artifacts.iter().any(|a| a.name == "MFT"));
    let linux_config = CollectionConfig::create_os_specific_config_file("linux");
    assert!(linux_config.artifacts.iter().any(|a| a.name == "syslog"));
}

#[test]
fn test_parse_windows_env_vars_basic() {
    let mut env = Environment::new();
    env.set("TESTVAR", "testvalue");
    env.set("USERPROFILE", "/home/user");
    assert_eq!(parse_windows_env_vars("%TESTVAR%", &env), "testvalue");
    assert_eq!(parse_windows_env_vars("%USERPROFILE%\\Documents", &env), "/home/user\\Documents");
}

#[test]
fn test_parse_windows_env_vars_multiple() {
    let mut env = Environment::new();
    env.set("VAR1", "value1");
    env.set("VAR2", "value2");
    assert_eq!(parse_windows_env_vars("%VAR1%\\%VAR2%\\file.txt", &env), "value1\\value2\\file.txt");
}

#[test]
fn test_parse_windows_env_vars_nonexistent() {
    let env = Environment::new();
    assert_eq!(parse_windows_env_vars("%DOESNOTEXIST%\\file.txt", &env), "%DOESNOTEXIST%\\file.txt");
}

#[test]
fn test_parse_windows_env_vars_malformed() {
    let env = Environment::new();
    assert_eq!(parse_windows_env_vars("%INCOMPLETE", &env), "%INCOMPLETE");
    assert_eq!(parse_windows_env_vars("%%", &env), "%%");
    assert_eq!(parse_windows_env_vars("%", &env), "%");
}

#[test]
fn test_parse_unix_env_vars_dollar_style() {
    let mut env = Environment::new();
    env.set("HOME", "/home/user");
    env.set("USER", "testuser");
    assert_eq!(parse_unix_env_vars("$HOME", &env), "/home/user");
    assert_eq!(parse_unix_env_vars("$HOME/Documents", &env), "/home/user/Documents");
    assert_eq!(parse_unix_env_vars("$USER-file.txt", &env), "testuser-file.txt");
}

#[test]
fn test_parse_unix_env_vars_brace_style() {
    let mut env = Environment::new();
    env.set("MYVAR", "myvalue");
    env.set("PATH_VAR", "/usr/local");
    assert_eq!(parse_unix_env_vars("${MYVAR}", &env), "myvalue");
    assert_eq!(parse_unix_env_vars("${PATH_VAR}/bin", &env), "/usr/local/bin");
    assert_eq!(parse_unix_env_vars("prefix-${MYVAR}-suffix", &env), "prefix-myvalue-suffix");
}

#[test]
fn test_parse_unix_env_vars_mixed_styles() {
    let mut env = Environment::new();
    env.set("VAR1", "value1");
    env.set("VAR2", "value2");
    assert_eq!(parse_unix_env_vars("$VAR1/${VAR2}/file", &env), "value1/value2/file");
}

#[test]
fn test_parse_unix_env_vars_nonexistent() {
    let env = Environment::new();
    assert_eq!(parse_unix_env_vars("$DOESNOTEXIST", &env), "$DOESNOTEXIST");
    assert_eq!(parse_unix_env_vars("${DOESNOTEXIST}", &env), "");
    assert_eq!(parse_unix_env_vars("$DOESNOTEXIST/path", &env), "$DOESNOTEXIST/path");
}

#[test]
fn test_parse_unix_env_vars_edge_cases() {
    let mut env = Environment::new();
    assert_eq!(parse_unix_env_vars("$", &env), "$");
    assert_eq!(parse_unix_env_vars("${", &env), "${");
    assert_eq!(parse_unix_env_vars("${incomplete", &env), "${incomplete");
    assert_eq!(parse_unix_env_vars("$$", &env), "$$");
    env.set("VAR", "value");
    assert_eq!(parse_unix_env_vars("$VAR123", &env), "$VAR123");
    assert_eq!(parse_unix_env_vars("$VAR-123", &env), "value-123");
    assert_eq!(parse_unix_env_vars("$VAR_TEST", &env), "$VAR_TEST");
}

#[test]
fn test_complex_path_with_env_vars() {
    let mut env = Environment::new();
    env.set("APPDATA", "/home/user/.config");
    env.set("USERNAME", "testuser");
    let parsed = parse_windows_env_vars("%APPDATA%\\MyApp\\%USERNAME%\\config.ini", &env);
    assert_eq!(parsed, "/home/user/.config\\MyApp\\testuser\\config.ini");
    env.set("HOME", "/home/user");
    let parsed = parse_unix_env_vars("$HOME/.config/${USERNAME}/settings", &env);
    assert_eq!(parsed, "/home/user/.config/testuser/settings");
}

#[test]
fn test_special_characters_in_env_values() {
    let mut env = Environment::new();
    env.set("SPECIAL", "value with spaces & symbols!");
    assert_eq!(parse_windows_env_vars("%SPECIAL%\\file.txt", &env), "value with spaces & symbols!\\file.txt");
    assert_eq!(parse_unix_env_vars("${SPECIAL}/file.txt", &env), "value with spaces & symbols!/file.txt");
}

#[test]
fn test_load_or_create_config_no_path() {
    assert_eq!(config_source(None, false, false, "linux"), ConfigSource::BuiltInDefault);
    let loaded = CollectionConfig::create_default_config_file("linux");
    assert_eq!(loaded.version, "1.0");
}

#[test]
fn config_source_prefers_the_given_file_then_the_os_default() {
    assert_eq!(config_source(Some("my.yaml"), true, true, "linux"), ConfigSource::File("my.yaml".to_string()));
    assert_eq!(
        config_source(Some("my.yaml"), false, true, "linux"),
        ConfigSource::OsDefaultFile("config/linux_default.yaml".to_string())
    );
    assert_eq!(
        config_source(Some("my.yaml"), false, false, "linux"),
        ConfigSource::CreateDefault("my.yaml".to_string())
    );
    assert_eq!(os_default_config_file("windows"), "config/windows_default.yaml");
    assert_eq!(os_default_config_file("freebsd"), "config/default.yaml");
}

#[test]
fn values_with_markers_expand_where_the_expansion_ends() {
    let mut env = Environment::new();
    env.set("PROMPT", "$P$G");
    env.set("CURLY", "{x}");
    env.set("PCT", "50%%");
    env.set("HOME", "/home/u");
    env.set("INNER", "%HOME%");
    env.set("NEST", "$HOME/sub");
    assert_eq!(parse_windows_env_vars("%INNER%\\x", &env), "/home/u\\x");
    assert_eq!(parse_unix_env_vars("${NEST}/y", &env), "/home/u/sub/y");
    assert_eq!(parse_unix_env_vars("$CURLY/$HOME", &env), "{x}//home/u");
    assert!(expansion_ends_within("%PCT%/$HOME", &env, 10));
    assert_eq!(unix_expansion_within("$HOME/${NEST}", &env, 10), Some("/home/u//home/u/sub".to_string()));
}

#[test]
fn an_expansion_that_never_ends_is_reported() {
    let mut env = Environment::new();
    env.set("LOOP", "%LOOP%");
    env.set("SELF", "${SELF}");
    env.set("HOME", "/home/u");
    assert!(!expansion_ends_within("%LOOP%", &env, 1000));
    assert!(expansion_ends_within("%HOME%", &env, 1000));
    assert_eq!(unix_expansion_within("${SELF}", &env, 1000), None);
    assert!(!expansion_ends_within("${SELF}", &env, 1000));
    assert!(expansion_ends_within("$SELF", &env, 1000));
    let mut config = CollectionConfig::default_minimal();
    assert!(config.expansions_end_within(&env, 1000));
    config.artifacts[0].source_path = "%LOOP%\\x".to_string();
    assert!(!config.expansions_end_within(&env, 1000));
}
