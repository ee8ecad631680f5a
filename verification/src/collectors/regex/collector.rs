//! The collector of artifacts given by a directory and a name pattern.
use vstd::prelude::*;
use crate::config::collection_config::Artifact;
use crate::collectors::platforms::common::FallbackCollector;
use crate::collectors::regex::walker::DirectoryWalker;

verus! {

/// Collects the files of a directory whose names match a pattern.
#[derive(Debug, Clone, Copy)]
pub struct RegexCollector {
    fallback: FallbackCollector,
}

/// Whether `a` is collected by pattern: it has a pattern configuration and
/// that configuration is enabled.
pub open spec fn uses_pattern(a: Artifact) -> bool {
    a.regex matches Some(c) && c.enabled
}

impl RegexCollector {
    /// The pattern collector.
    pub fn new() -> Self {
        RegexCollector { fallback: FallbackCollector::new() }
    }

    /// Checks whether `artifact` is collected by pattern.
    pub fn has_regex_config(artifact: &Artifact) -> (r: bool)
        ensures
            r == uses_pattern(*artifact),
    {
        match &artifact.regex {
            Some(c) => c.enabled,
            None => false,
        }
    }

    /// The walk that collects `artifact` from `source_base` into
    /// `output_dir`, with the artifact's patterns, recursion and depth limit.
    /// Fails where the artifact is not collected by pattern or a pattern does
    /// not compile.
    pub fn walker_for(&self, artifact: &Artifact, source_base: &str, output_dir: &str) -> (r: Result<DirectoryWalker, String>)
        ensures
            !uses_pattern(*artifact) ==> (r matches Err(e) && e@ == "Regex config not enabled for this artifact"@),
            uses_pattern(*artifact) ==> match artifact.regex {
                Some(c) => r is Ok <==> (crate::collectors::regex::helpers::regex_compiles(c.include_pattern@) && (
                c.exclude_pattern@.len() == 0 || crate::collectors::regex::helpers::regex_compiles(
                    c.exclude_pattern@,
                ))),
                None => false,
            },
            r matches Ok(w) ==> (artifact.regex matches Some(c) && {
                &&& w.base() == source_base@
                &&& w.output() == output_dir@
                &&& w.include_pattern() == c.include_pattern@
                &&& w.is_recursive() == c.recursive
                &&& w.depth_limit() == c.max_depth
            }),
    {
        match &artifact.regex {
            Some(c) => {
                if !c.enabled {
                    return Err(String::from_str("Regex config not enabled for this artifact"));
                }
                DirectoryWalker::new(
                    source_base,
                    output_dir,
                    c.include_pattern.as_str(),
                    c.exclude_pattern.as_str(),
                    c.recursive,
                    c.max_depth,
                )
            },
            None => Err(String::from_str("Regex config not enabled for this artifact")),
        }
    }
}

} // verus!
