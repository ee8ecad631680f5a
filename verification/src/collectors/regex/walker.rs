//! The decisions of a pattern-driven directory walk: which entries are
//! skipped, descended into or collected, how deep it goes, and where a
//! collected file is stored.
use vstd::prelude::*;
use crate::collectors::regex::helpers::{
    PathPattern, compile_pattern, regex_compiles, regex_is_match, path_below, match_text,
    path_matches_pattern, should_exclude_path, strip_base,
};
use crate::collectors::collector::{join_path, join_path_exec};
use crate::config::env_vars::platform_separator;
use crate::text::chars_of;

verus! {

/// What a walk does with one directory entry.
#[derive(Debug, Clone, Copy, PartialEq, Eq, Structural)]
pub enum WalkAction {
    /// Leave it.
    Skip,
    /// Walk the directory one level deeper.
    Descend,
    /// Collect the file.
    Collect,
}

/// A walk of a directory that collects the files whose path below the
/// directory matches a pattern.
pub struct DirectoryWalker {
    base_path: String,
    output_base: String,
    include_regex: PathPattern,
    exclude: Option<PathPattern>,
    recursive: bool,
    max_depth: Option<usize>,
}

/// The message of a walk whose include pattern does not compile.
pub open spec fn include_error() -> Seq<char> {
    "Invalid include pattern regex"@
}

/// The message of a walk whose exclude pattern does not compile.
pub open spec fn exclude_error() -> Seq<char> {
    "Invalid exclude pattern regex"@
}

impl DirectoryWalker {
    /// The directory walked.
    pub closed spec fn base(&self) -> Seq<char> {
        self.base_path@
    }

    /// Where collected files are stored.
    pub closed spec fn output(&self) -> Seq<char> {
        self.output_base@
    }

    /// The include pattern.
    pub closed spec fn include_pattern(&self) -> Seq<char> {
        self.include_regex.pattern()
    }

    /// The exclude pattern, if any.
    pub closed spec fn exclude_pattern(&self) -> Option<Seq<char>> {
        match self.exclude {
            Some(p) => Some(p.pattern()),
            None => None,
        }
    }

    /// Whether subdirectories are walked.
    pub closed spec fn is_recursive(&self) -> bool {
        self.recursive
    }

    /// The deepest level walked, if limited.
    pub closed spec fn depth_limit(&self) -> Option<usize> {
        self.max_depth
    }

    /// A walk of `base_path` storing under `output_base`, collecting files
    /// that match `include_pattern` and skipping entries that match
    /// `exclude_pattern` (none when it is empty).  Fails where a pattern does
    /// not compile.
    pub fn new(
        base_path: &str,
        output_base: &str,
        include_pattern: &str,
        exclude_pattern: &str,
        recursive: bool,
        max_depth: Option<usize>,
    ) -> (r: Result<Self, String>)
        ensures
            r is Ok <==> regex_compiles(include_pattern@) && (exclude_pattern@.len() == 0 || regex_compiles(
                exclude_pattern@,
            )),
            r matches Err(e) ==> e@ == (if !regex_compiles(include_pattern@) {
                include_error()
            } else {
                exclude_error()
            }),
            r matches Ok(w) ==> {
                &&& w.base() == base_path@
                &&& w.output() == output_base@
                &&& w.include_pattern() == include_pattern@
                &&& w.exclude_pattern() == (if exclude_pattern@.len() == 0 {
                    None
                } else {
                    Some(exclude_pattern@)
                })
                &&& w.is_recursive() == recursive
                &&& w.depth_limit() == max_depth
            },
    {
        let include_regex = match compile_pattern(include_pattern) {
            Ok(p) => p,
            Err(_) => {
                return Err(String::from_str("Invalid include pattern regex"));
            },
        };
        let exclude = if chars_of(exclude_pattern).len() > 0 {
            match compile_pattern(exclude_pattern) {
                Ok(p) => Some(p),
                Err(_) => {
                    return Err(String::from_str("Invalid exclude pattern regex"));
                },
            }
        } else {
            None
        };
        Ok(DirectoryWalker {
            base_path: String::from_str(base_path),
            output_base: String::from_str(output_base),
            include_regex,
            exclude,
            recursive,
            max_depth,
        })
    }

    /// Whether a directory `depth` levels below the base is walked.
    pub fn depth_allowed(&self, depth: usize) -> (r: bool)
        ensures
            r == match self.depth_limit() {
                Some(d) => depth <= d,
                None => true,
            },
    {
        match self.max_depth {
            Some(d) => depth <= d,
            None => true,
        }
    }

    /// What the walk does with the entry at `path`: an excluded entry is
    /// skipped; a directory is descended into when the walk is recursive;
    /// a file is collected when it matches the include pattern.
    pub open spec fn action_for(&self, path: Seq<char>, is_dir: bool) -> WalkAction {
        if (match self.exclude_pattern() {
            Some(p) => regex_is_match(p, match_text(path, path_below(path, self.base()))),
            None => false,
        }) {
            WalkAction::Skip
        } else if is_dir {
            if self.is_recursive() {
                WalkAction::Descend
            } else {
                WalkAction::Skip
            }
        } else if regex_is_match(self.include_pattern(), match_text(path, path_below(path, self.base()))) {
            WalkAction::Collect
        } else {
            WalkAction::Skip
        }
    }

    /// What the walk does with the entry at `path` found while listing a
    /// directory `depth` levels below the base (the base itself is at 0): a
    /// directory beyond the depth limit is not listed, so its entries are
    /// skipped; otherwise as `action_for` says.
    pub fn walk_step(&self, path: &str, is_dir: bool, depth: usize) -> (r: WalkAction)
        ensures
            r == (if (match self.depth_limit() {
                Some(d) => depth <= d,
                None => true,
            }) {
                self.action_for(path@, is_dir)
            } else {
                WalkAction::Skip
            }),
    {
        if self.depth_allowed(depth) {
            self.entry_action(path, is_dir)
        } else {
            WalkAction::Skip
        }
    }

    /// What the walk does with the entry at `path`: an excluded entry is
    /// skipped; a directory is descended into when the walk is recursive;
    /// a file is collected when it matches the include pattern.
    pub fn entry_action(&self, path: &str, is_dir: bool) -> (r: WalkAction)
        ensures
            r == self.action_for(path@, is_dir),
    {
        if should_exclude_path(path, self.base_path.as_str(), &self.exclude) {
            WalkAction::Skip
        } else if is_dir {
            if self.recursive {
                WalkAction::Descend
            } else {
                WalkAction::Skip
            }
        } else if path_matches_pattern(path, self.base_path.as_str(), &self.include_regex) {
            WalkAction::Collect
        } else {
            WalkAction::Skip
        }
    }

    /// Where the file at `path` is stored: its path below the base joined
    /// onto the output directory, or `None` where it does not lie below the base.
    pub fn destination_for(&self, path: &str) -> (r: Option<String>)
        ensures
            match path_below(path@, self.base()) {
                Some(rest) => (r matches Some(d) && (d@ == join_path(self.output(), rest, '/') || d@ == join_path(
                    self.output(),
                    rest,
                    '\\',
                ))),
                None => r is None,
            },
    {
        match strip_base(path, self.base_path.as_str()) {
            Some(rest) => {
                let sep = platform_separator();
                let base = chars_of(self.output_base.as_str());
                let rel = chars_of(rest.as_str());
                let joined = join_path_exec(&base, &rel, sep);
                Some(crate::text::string_of(&joined))
            },
            None => None,
        }
    }
}

} // verus!
