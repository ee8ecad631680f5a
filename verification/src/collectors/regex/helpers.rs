//! Name patterns on paths: compiling them with the `regex` crate, and
//! matching them against a path relative to the directory searched.
use vstd::prelude::*;


verus! {

/// A compiled regular expression of the `regex` crate.
#[verifier::external_type_specification]
#[verifier::external_body]
pub struct ExRegex(::regex::Regex);

/// Whether `pattern` compiles: its syntax is valid and the compiled form
/// stays within the `regex` crate's default size limit.
pub uninterp spec fn regex_compiles(pattern: Seq<char>) -> bool;

/// Whether the regular expression `pattern` matches somewhere in `text`.
pub uninterp spec fn regex_is_match(pattern: Seq<char>, text: Seq<char>) -> bool;

/// What `path` is below `base`, as `Path::strip_prefix` finds it: `None`
/// where `base` is not a leading run of components of `path`.
pub uninterp spec fn path_below(path: Seq<char>, base: Seq<char>) -> Option<Seq<char>>;

/// A name pattern together with its compiled form.
pub struct PathPattern {
    source: String,
    regex: ::regex::Regex,
}

impl PathPattern {
    /// The pattern text.
    pub closed spec fn pattern(&self) -> Seq<char> {
        self.source@
    }
}

/// Compiles `pattern`.
///
/// Calls `Regex::new`, which fails exactly where the pattern is invalid or
/// too large; on failure the error's message is returned.  Whether it
/// compiles is a function of the pattern alone, named `regex_compiles`.
#[verifier::external_body]
fn compile_regex(pattern: &str) -> (r: Result<PathPattern, String>)
    ensures
        r is Ok <==> regex_compiles(pattern@),
        r matches Ok(p) ==> p.pattern() == pattern@,
{
    match ::regex::Regex::new(pattern) {
        Ok(regex) => Ok(PathPattern { source: pattern.to_string(), regex }),
        Err(e) => Err(e.to_string()),
    }
}

/// Whether `pattern` matches somewhere in `text`.
///
/// Calls `Regex::is_match`; its result is a function of the pattern text
/// and `text` alone, named `regex_is_match`.
#[verifier::external_body]
fn regex_matches(pattern: &PathPattern, text: &str) -> (r: bool)
    ensures
        r == regex_is_match(pattern.pattern(), text@),
{
    pattern.regex.is_match(text)
}

/// What `path` is below `base`.
///
/// Calls `Path::strip_prefix` and turns the rest into text as
/// `to_string_lossy` does; its result is a function of the two paths alone,
/// named `path_below`.
#[verifier::external_body]
pub(crate) fn strip_base(path: &str, base: &str) -> (r: Option<String>)
    ensures
        match r {
            Some(s) => path_below(path@, base@) == Some(s@),
            None => path_below(path@, base@) is None,
        },
{
    match std::path::Path::new(path).strip_prefix(base) {
        Ok(rest) => Some(rest.to_string_lossy().to_string()),
        Err(_) => None,
    }
}

/// The text a pattern is matched against: the path below the base where
/// there is one, else the whole path.
pub open spec fn match_text(path: Seq<char>, below: Option<Seq<char>>) -> Seq<char> {
    match below {
        Some(rest) => rest,
        None => path,
    }
}

/// Compiles `pattern`, as `compile_regex` says.
pub fn compile_pattern(pattern: &str) -> (r: Result<PathPattern, String>)
    ensures
        r is Ok <==> regex_compiles(pattern@),
        r matches Ok(p) ==> p.pattern() == pattern@,
{
    compile_regex(pattern)
}

/// Whether `pattern` matches the text `match_text(path, below)`.
pub fn matches_below(path: &str, below: Option<String>, pattern: &PathPattern) -> (r: bool)
    ensures
        r == regex_is_match(
            pattern.pattern(),
            match_text(
                path@,
                match below {
                    Some(s) => Some(s@),
                    None => None,
                },
            ),
        ),
{
    match below {
        Some(rest) => regex_matches(pattern, rest.as_str()),
        None => regex_matches(pattern, path),
    }
}

/// Whether `pattern` matches `path`, taken relative to `base_path` where it
/// lies below it.
pub fn path_matches_pattern(path: &str, base_path: &str, pattern: &PathPattern) -> (r: bool)
    ensures
        r == regex_is_match(pattern.pattern(), match_text(path@, path_below(path@, base_path@))),
{
    let below = strip_base(path, base_path);
    matches_below(path, below, pattern)
}

/// Whether `path` is excluded: there is an exclude pattern and it matches
/// `path`, taken relative to `base_path` where it lies below it.
pub fn should_exclude_path(path: &str, base_path: &str, exclude: &Option<PathPattern>) -> (r: bool)
    ensures
        r == match exclude {
            Some(p) => regex_is_match(p.pattern(), match_text(path@, path_below(path@, base_path@))),
            None => false,
        },
{
    match exclude {
        Some(p) => path_matches_pattern(path, base_path, p),
        None => false,
    }
}

} // verus!
