//! Settings for collecting the files of a directory by name pattern.
use vstd::prelude::*;

verus! {

/// Configuration for pattern-based artifact collection.
#[derive(Debug, Clone)]
pub struct RegexConfig {
    /// Whether pattern matching is enabled for this artifact.
    pub enabled: bool,
    /// Whether to search directories recursively.
    pub recursive: bool,
    /// Pattern of the files to include.
    pub include_pattern: String,
    /// Pattern of the files to exclude (empty: exclude nothing).
    pub exclude_pattern: String,
    /// Maximum directory depth of a recursive search.
    pub max_depth: Option<usize>,
}

/// The include pattern used when none is given: it matches everything.
pub fn default_include_pattern() -> (s: String)
    ensures
        s@ == ".*"@,
{
    String::from_str(".*")
}

impl RegexConfig {
    /// A copy of this configuration, field by field.
    pub fn duplicate(&self) -> (r: RegexConfig)
        ensures
            r == *self,
    {
        RegexConfig {
            enabled: self.enabled,
            recursive: self.recursive,
            include_pattern: self.include_pattern.clone(),
            exclude_pattern: self.exclude_pattern.clone(),
            max_depth: self.max_depth,
        }
    }
}

impl Default for RegexConfig {
    fn default() -> (c: RegexConfig)
        ensures
            !c.enabled,
            !c.recursive,
            c.include_pattern@ == ".*"@,
            c.exclude_pattern@ == Seq::<char>::empty(),
            c.max_depth is None,
    {
        RegexConfig {
            enabled: false,
            recursive: false,
            include_pattern: default_include_pattern(),
            exclude_pattern: String::new(),
            max_depth: None,
        }
    }
}

} // verus!
