//! Collection configurations and the artifacts they name.
use vstd::prelude::*;
use std::collections::HashMap;
use crate::config::artifact_types::ArtifactType;
use crate::config::regex_config::RegexConfig;
use crate::config::env_vars::{
    Environment, parse_windows_env_vars, parse_unix_env_vars, normalize_path_for_separator,
    normalized_for, windows_expansion, unix_expansion, expansion_ends, expansion_ends_within,
    expansion_within,
};
use crate::text::{chars_of, contains_char_exec, str_eq};

verus! {

/// One artifact to collect.
#[derive(Debug, Clone)]
pub struct Artifact {
    pub name: String,
    pub artifact_type: ArtifactType,
    pub source_path: String,
    pub destination_name: String,
    pub description: Option<String>,
    pub required: bool,
    pub metadata: HashMap<String, String>,
    pub regex: Option<RegexConfig>,
}

/// A collection configuration: a version, a description and the artifacts.
#[derive(Debug, Clone)]
pub struct CollectionConfig {
    pub version: String,
    pub description: String,
    pub artifacts: Vec<Artifact>,
    pub global_options: HashMap<String, String>,
}

/// The plain fields of an artifact: name, type, source path, destination
/// name, description and whether it is required.
pub type ArtifactSpec = (Seq<char>, ArtifactType, Seq<char>, Seq<char>, Option<Seq<char>>, bool);

/// The text of an optional string.
pub open spec fn opt_view(o: Option<String>) -> Option<Seq<char>> {
    match o {
        Some(s) => Some(s@),
        None => None,
    }
}

/// The plain fields of `a`.
pub open spec fn artifact_view(a: Artifact) -> ArtifactSpec {
    (a.name@, a.artifact_type, a.source_path@, a.destination_name@, opt_view(a.description), a.required)
}

/// `c` has the given version, description and artifacts, with no metadata,
/// no pattern matching and no global options.
pub open spec fn is_plain_config(
    c: CollectionConfig,
    version: Seq<char>,
    description: Seq<char>,
    artifacts: Seq<ArtifactSpec>,
) -> bool {
    &&& c.version@ == version
    &&& c.description@ == description
    &&& c.artifacts@.map_values(|a: Artifact| artifact_view(a)) == artifacts
    &&& forall|k: int|
        0 <= k < c.artifacts@.len() ==> (#[trigger] c.artifacts@[k]).metadata@ == Map::<
            String,
            String,
        >::empty() && c.artifacts@[k].regex is None
    &&& c.global_options@ == Map::<String, String>::empty()
}

/// `a` is a copy of `b`: every field equal, the metadata by its contents.
pub open spec fn same_artifact(a: Artifact, b: Artifact) -> bool {
    &&& a.name == b.name
    &&& a.artifact_type == b.artifact_type
    &&& a.source_path == b.source_path
    &&& a.destination_name == b.destination_name
    &&& a.description == b.description
    &&& a.required == b.required
    &&& a.metadata@ == b.metadata@
    &&& a.regex == b.regex
}

impl Artifact {
    /// A copy of this artifact, field by field.
    pub fn duplicate(&self) -> (r: Artifact)
        ensures
            same_artifact(r, *self),
    {
        Artifact {
            name: self.name.clone(),
            artifact_type: self.artifact_type,
            source_path: self.source_path.clone(),
            destination_name: self.destination_name.clone(),
            description: match &self.description {
                Some(d) => Some(d.clone()),
                None => None,
            },
            required: self.required,
            metadata: self.metadata.clone(),
            regex: match &self.regex {
                Some(c) => Some(c.duplicate()),
                None => None,
            },
        }
    }

    /// An artifact with the given fields, no metadata and no pattern matching.
    pub fn plain(
        name: &str,
        artifact_type: ArtifactType,
        source_path: &str,
        destination_name: &str,
        description: Option<&str>,
        required: bool,
    ) -> (a: Artifact)
        ensures
            artifact_view(a) == (name@, artifact_type, source_path@, destination_name@, match description {
                Some(d) => Some(d@),
                None => None::<Seq<char>>,
            }, required),
            a.metadata@ == Map::<String, String>::empty(),
            a.regex is None,
    {
        Artifact {
            name: String::from_str(name),
            artifact_type,
            source_path: String::from_str(source_path),
            destination_name: String::from_str(destination_name),
            description: match description {
                Some(d) => Some(String::from_str(d)),
                None => None,
            },
            required,
            metadata: HashMap::new(),
            regex: None,
        }
    }
}

/// How one source path is rewritten: Windows-style variables are expanded
/// when it holds `%`, then Unix-style ones when it holds `$`, then the
/// separators are normalized for a platform whose separator is `sep`.
pub open spec fn processed_path(env: Seq<(Seq<char>, Seq<char>)>, path: Seq<char>, sep: char) -> Seq<char> {
    let w = if path.contains('%') { windows_expansion(env, path) } else { path };
    let u = if w.contains('$') { unix_expansion(env, w) } else { w };
    normalized_for(u, sep)
}

/// `after` is `before` with every source path rewritten by `processed_path`
/// and every other field unchanged.
pub open spec fn paths_processed(
    before: CollectionConfig,
    after: CollectionConfig,
    env: Seq<(Seq<char>, Seq<char>)>,
    sep: char,
) -> bool {
    &&& after.version == before.version
    &&& after.description == before.description
    &&& after.global_options == before.global_options
    &&& after.artifacts@.len() == before.artifacts@.len()
    &&& forall|k: int|
        0 <= k < before.artifacts@.len() ==> {
            let a = #[trigger] after.artifacts@[k];
            let b = before.artifacts@[k];
            &&& a.source_path@ == processed_path(env, b.source_path@, sep)
            &&& a.name == b.name
            &&& a.artifact_type == b.artifact_type
            &&& a.destination_name == b.destination_name
            &&& a.description == b.description
            &&& a.required == b.required
            &&& a.metadata == b.metadata
            &&& a.regex == b.regex
        }
}

/// Whether the expansion of every source path of `c` ends.
pub open spec fn expansions_end(c: CollectionConfig, env: Seq<(Seq<char>, Seq<char>)>) -> bool {
    forall|k: int| 0 <= k < c.artifacts@.len() ==> expansion_ends(env, #[trigger] c.artifacts@[k].source_path@)
}

/// Whether the expansion of every source path of `c` ends within `budget`
/// replacements per pass.
pub open spec fn expansions_within(c: CollectionConfig, env: Seq<(Seq<char>, Seq<char>)>, budget: nat) -> bool {
    forall|k: int| 0 <= k < c.artifacts@.len() ==> expansion_within(env, #[trigger] c.artifacts@[k].source_path@, budget)
}

/// The configuration chosen for a target OS name: "windows", "linux" and
/// "macos" have their own; any other name gets the minimal one.
pub open spec fn is_config_for_os(c: CollectionConfig, target_os: Seq<char>) -> bool {
    if target_os == "windows"@ {
        is_plain_config(c, "1.0"@, "Default Windows DFIR triage configuration"@, crate::config::default_configs::windows_defaults())
    } else if target_os == "linux"@ {
        is_plain_config(c, "1.0"@, "Default Linux DFIR triage configuration"@, crate::config::default_configs::linux_defaults())
    } else if target_os == "macos"@ {
        is_plain_config(c, "1.0"@, "Default macOS DFIR triage configuration"@, crate::config::default_configs::macos_defaults())
    } else {
        is_plain_config(c, "1.0"@, "Minimal DFIR triage configuration"@, crate::config::default_configs::minimal_defaults())
    }
}

impl CollectionConfig {
    /// Rewrites every source path as `processed_path` says, for a platform
    /// whose separator is `sep`.
    pub fn process_environment_variables_for(&mut self, env: &Environment, sep: char)
        requires
            expansions_end(*old(self), env@),
        ensures
            paths_processed(*old(self), *final(self), env@, sep),
    {
        let n = self.artifacts.len();
        let mut i: usize = 0;
        while i < n
            invariant
                i <= n,
                n == old(self).artifacts@.len(),
                expansions_end(*old(self), env@),
                self.version == old(self).version,
                self.description == old(self).description,
                self.global_options == old(self).global_options,
                self.artifacts@.len() == n,
                forall|k: int|
                    0 <= k < n ==> {
                        let a = #[trigger] self.artifacts@[k];
                        let b = old(self).artifacts@[k];
                        &&& (k < i ==> a.source_path@ == processed_path(env@, b.source_path@, sep))
                        &&& (k >= i ==> a.source_path == b.source_path)
                        &&& a.name == b.name
                        &&& a.artifact_type == b.artifact_type
                        &&& a.destination_name == b.destination_name
                        &&& a.description == b.description
                        &&& a.required == b.required
                        &&& a.metadata == b.metadata
                        &&& a.regex == b.regex
                    },
            decreases n - i,
        {
            let path = chars_of(self.artifacts[i].source_path.as_str());
            let mut current = String::from_str(self.artifacts[i].source_path.as_str());
            if contains_char_exec(&path, '%') {
                current = parse_windows_env_vars(current.as_str(), env);
            }
            let expanded = chars_of(current.as_str());
            if contains_char_exec(&expanded, '$') {
                current = parse_unix_env_vars(current.as_str(), env);
            }
            let normalized = normalize_path_for_separator(current.as_str(), sep);
            self.artifacts[i].source_path = normalized;
            i += 1;
        }
    }

    /// Expands environment variables in every source path and normalizes its
    /// separators for the platform this program was built for.
    ///
    /// Windows-style `%NAME%` variables are expanded in paths that hold `%`,
    /// then Unix-style `$NAME` and `${NAME}` ones in paths that hold `$`.
    pub fn process_environment_variables(&mut self, env: &Environment)
        requires
            expansions_end(*old(self), env@),
        ensures
            paths_processed(*old(self), *final(self), env@, '/') || paths_processed(
                *old(self),
                *final(self),
                env@,
                '\\',
            ),
    {
        let sep = crate::config::env_vars::platform_separator();
        if sep == '\\' {
            self.process_environment_variables_for(env, '\\');
        } else {
            self.process_environment_variables_for(env, '/');
        }
    }

    /// Whether the expansion of every source path ends within `budget`
    /// replacements per pass; where it does, every expansion ends.
    pub fn expansions_end_within(&self, env: &Environment, budget: u64) -> (r: bool)
        ensures
            r == expansions_within(*self, env@, budget as nat),
            r ==> expansions_end(*self, env@),
    {
        let mut i: usize = 0;
        while i < self.artifacts.len()
            invariant
                i <= self.artifacts@.len(),
                forall|k: int| 0 <= k < i ==> expansion_within(env@, #[trigger] self.artifacts@[k].source_path@, budget as nat),
                forall|k: int| 0 <= k < i ==> expansion_ends(env@, #[trigger] self.artifacts@[k].source_path@),
            decreases self.artifacts.len() - i,
        {
            if !expansion_ends_within(self.artifacts[i].source_path.as_str(), env, budget) {
                return false;
            }
            i += 1;
        }
        true
    }

    /// The configuration written to an OS-specific configuration file for
    /// the target OS named `target_os`: "windows", "linux" and "macos" have
    /// their own, any other name gets the minimal configuration.
    pub fn create_os_specific_config_file(target_os: &str) -> (c: CollectionConfig)
        ensures
            is_config_for_os(c, target_os@),
    {
        if str_eq(target_os, "windows") {
            CollectionConfig::default_windows()
        } else if str_eq(target_os, "linux") {
            CollectionConfig::default_linux()
        } else if str_eq(target_os, "macos") {
            CollectionConfig::default_macos()
        } else {
            CollectionConfig::default_minimal()
        }
    }

    /// The configuration written to a default configuration file on the OS
    /// named `os` (the OS this program runs on): the same choice as for an
    /// OS-specific file.
    pub fn create_default_config_file(os: &str) -> (c: CollectionConfig)
        ensures
            is_config_for_os(c, os@),
    {
        Self::create_os_specific_config_file(os)
    }
}

/// Where the configuration of a run comes from.
#[derive(Debug, Clone, PartialEq, Eq)]
pub enum ConfigSource {
    /// Read the given file.
    File(String),
    /// Read the default file of the OS, which exists.
    OsDefaultFile(String),
    /// Use the default configuration of the OS and save it at the given path.
    CreateDefault(String),
    /// Use the default configuration of the OS.
    BuiltInDefault,
}

/// The default configuration file of the OS named `os`.
pub open spec fn os_default_config_path(os: Seq<char>) -> Seq<char> {
    if os == "windows"@ {
        "config/windows_default.yaml"@
    } else if os == "linux"@ {
        "config/linux_default.yaml"@
    } else if os == "macos"@ {
        "config/macos_default.yaml"@
    } else {
        "config/default.yaml"@
    }
}

/// The default configuration file of the OS named `os`, as
/// `os_default_config_path` says.
pub fn os_default_config_file(os: &str) -> (r: String)
    ensures
        r@ == os_default_config_path(os@),
{
    if str_eq(os, "windows") {
        String::from_str("config/windows_default.yaml")
    } else if str_eq(os, "linux") {
        String::from_str("config/linux_default.yaml")
    } else if str_eq(os, "macos") {
        String::from_str("config/macos_default.yaml")
    } else {
        String::from_str("config/default.yaml")
    }
}

/// Where the configuration comes from, given the path asked for (if any),
/// whether a file exists there, whether the default file of the OS named
/// `os` exists: the file asked for where it exists; else the OS default
/// file where it exists; else the default configuration, saved at the path
/// asked for.  Without a path, the default configuration.
pub fn config_source(config_path: Option<&str>, path_exists: bool, os_default_exists: bool, os: &str) -> (r: ConfigSource)
    ensures
        match config_path {
            None => r == ConfigSource::BuiltInDefault,
            Some(p) => if path_exists {
                r matches ConfigSource::File(f) && f@ == p@
            } else if os_default_exists {
                r matches ConfigSource::OsDefaultFile(f) && f@ == os_default_config_path(os@)
            } else {
                r matches ConfigSource::CreateDefault(f) && f@ == p@
            },
        },
{
    match config_path {
        None => ConfigSource::BuiltInDefault,
        Some(p) => if path_exists {
            ConfigSource::File(String::from_str(p))
        } else if os_default_exists {
            ConfigSource::OsDefaultFile(os_default_config_file(os))
        } else {
            ConfigSource::CreateDefault(String::from_str(p))
        },
    }
}

} // verus!
