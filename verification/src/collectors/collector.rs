//! Where collected artifacts are stored: destination paths, duplicate names
//! and the path form kept in collection results.
use vstd::prelude::*;
use crate::config::artifact_types::{ArtifactType, WindowsArtifactType};
use crate::config::collection_config::Artifact;
use crate::config::env_vars::platform_separator;
use crate::text::{
    chars_of, string_of, slice_of, append_chars, decimal, decimal_exec, rfind_char, rfind_char_exec,
    replace_char, replace_char_exec, trim_start_char, trim_start_char_exec,
};

verus! {

/// What every artifact collector offers: which artifact types it handles.
pub trait ArtifactCollector {
    /// The artifact types this collector handles.
    spec fn handles(&self, artifact_type: ArtifactType) -> bool;

    /// Checks whether this collector handles `artifact_type`.
    fn supports_artifact_type(&self, artifact_type: &ArtifactType) -> (r: bool)
        ensures
            r == self.handles(*artifact_type),
    ;
}

/// Artifacts that have no ordinary file path: the MFT and the USN journal.
pub open spec fn is_special(t: ArtifactType) -> bool {
    t == ArtifactType::Windows(WindowsArtifactType::MFT) || t == ArtifactType::Windows(
        WindowsArtifactType::USNJournal,
    )
}

/// Checks whether an artifact is one without a standard file path.
pub fn is_special_artifact(artifact_type: &ArtifactType) -> (r: bool)
    ensures
        r == is_special(*artifact_type),
{
    match artifact_type {
        ArtifactType::Windows(WindowsArtifactType::MFT) => true,
        ArtifactType::Windows(WindowsArtifactType::USNJournal) => true,
        _ => false,
    }
}

/// Whether `c` separates path components on a platform whose main separator is `sep`:
/// `/` everywhere, and `\` too where it is the main separator.
pub open spec fn is_sep_for(c: char, sep: char) -> bool {
    c == '/' || (sep == '\\' && c == '\\')
}

/// Whether `s` is an absolute path on a platform whose separator is `sep`:
/// on Windows a drive-rooted path (`C:\`) or one that begins with two
/// separators (UNC and verbatim paths); elsewhere one that begins with `/`.
pub open spec fn is_absolute_for(s: Seq<char>, sep: char) -> bool {
    if sep == '\\' {
        (s.len() >= 3 && s[1] == ':' && is_sep_for(s[2], sep)) || (s.len() >= 2 && is_sep_for(
            s[0],
            sep,
        ) && is_sep_for(s[1], sep))
    } else {
        s.len() > 0 && s[0] == '/'
    }
}

/// `rel` joined onto `base`: an absolute `rel` replaces `base`; otherwise a
/// separator is put between them unless `base` is empty or already ends in one.
pub open spec fn join_path(base: Seq<char>, rel: Seq<char>, sep: char) -> Seq<char> {
    if is_absolute_for(rel, sep) {
        rel
    } else if base.len() == 0 || is_sep_for(base.last(), sep) {
        base + rel
    } else {
        base.push(sep) + rel
    }
}

/// The source path made relative for storage.  A path that begins with a
/// separator (`/` or `\`) or is absolute loses its root: on Windows a drive
/// path loses its first three characters (`C:\`); otherwise leading `/` and
/// then leading `\` are removed.  Any other path is kept as it is.
pub open spec fn relative_source(s: Seq<char>, sep: char) -> Seq<char> {
    if is_absolute_for(s, sep) || (s.len() > 0 && (s[0] == '/' || s[0] == '\\')) {
        if sep == '\\' && s.len() >= 2 && s[1] == ':' {
            if s.len() >= 3 {
                s.subrange(3, s.len() as int)
            } else {
                Seq::empty()
            }
        } else {
            trim_start_char(trim_start_char(s, '/'), '\\')
        }
    } else {
        s
    }
}

/// Where an artifact is stored under `fs_dir`: a special artifact under its
/// destination name, any other under its source path made relative.
pub open spec fn destination_for(fs_dir: Seq<char>, a: Artifact, sep: char) -> Seq<char> {
    if is_special(a.artifact_type) {
        join_path(fs_dir, a.destination_name@, sep)
    } else {
        join_path(fs_dir, relative_source(a.source_path@, sep), sep)
    }
}

/// Joins `rel` onto `base` as `join_path` says.
pub fn join_path_exec(base: &Vec<char>, rel: &Vec<char>, sep: char) -> (r: Vec<char>)
    ensures
        r@ == join_path(base@, rel@, sep),
{
    let rel_abs = is_absolute_exec(rel, sep);
    if rel_abs {
        return rel.clone();
    }
    let mut r = base.clone();
    if base.len() > 0 {
        let last = base[base.len() - 1];
        if !(last == '/' || (sep == '\\' && last == '\\')) {
            r.push(sep);
        }
    }
    append_chars(&mut r, rel);
    r
}

/// Whether `s` is absolute as `is_absolute_for` says.
pub fn is_absolute_exec(s: &Vec<char>, sep: char) -> (r: bool)
    ensures
        r == is_absolute_for(s@, sep),
{
    if sep == '\\' {
        let drive = s.len() >= 3 && s[1] == ':' && (s[2] == '/' || s[2] == '\\');
        let double = s.len() >= 2 && (s[0] == '/' || s[0] == '\\') && (s[1] == '/' || s[1] == '\\');
        drive || double
    } else {
        s.len() > 0 && s[0] == '/'
    }
}

/// The source path made relative as `relative_source` says.
pub fn relative_source_exec(s: &Vec<char>, sep: char) -> (r: Vec<char>)
    ensures
        r@ == relative_source(s@, sep),
{
    let abs = is_absolute_exec(s, sep);
    if abs || (s.len() > 0 && (s[0] == '/' || s[0] == '\\')) {
        if sep == '\\' && s.len() >= 2 && s[1] == ':' {
            if s.len() >= 3 {
                slice_of(s, 3, s.len())
            } else {
                Vec::new()
            }
        } else {
            let once = trim_start_char_exec(s, '/');
            trim_start_char_exec(&once, '\\')
        }
    } else {
        s.clone()
    }
}

/// Where `artifact` is stored under `fs_dir` on a platform whose separator is `sep`.
pub fn destination_path_for(fs_dir: &str, artifact: &Artifact, sep: char) -> (r: String)
    ensures
        r@ == destination_for(fs_dir@, *artifact, sep),
{
    let base = chars_of(fs_dir);
    let joined = if is_special_artifact(&artifact.artifact_type) {
        let dest = chars_of(artifact.destination_name.as_str());
        join_path_exec(&base, &dest, sep)
    } else {
        let source = chars_of(artifact.source_path.as_str());
        let rel = relative_source_exec(&source, sep);
        join_path_exec(&base, &rel, sep)
    };
    string_of(&joined)
}

/// Determines the destination path of an artifact under `fs_dir`, keeping the
/// structure of its original path.
pub fn get_destination_path(fs_dir: &str, artifact: &Artifact) -> (r: String)
    ensures
        r@ == destination_for(fs_dir@, *artifact, '/') || r@ == destination_for(
            fs_dir@,
            *artifact,
            '\\',
        ),
{
    let sep = platform_separator();
    destination_path_for(fs_dir, artifact, sep)
}

/// `s` without its trailing separators.
pub open spec fn trim_end_seps(s: Seq<char>, sep: char) -> Seq<char>
    decreases s.len(),
{
    if s.len() > 0 && is_sep_for(s.last(), sep) {
        trim_end_seps(s.drop_last(), sep)
    } else {
        s
    }
}

/// The last position of a separator in `s`.
pub open spec fn rfind_sep(s: Seq<char>, sep: char) -> Option<int>
    decreases s.len(),
{
    if s.len() == 0 {
        None
    } else if is_sep_for(s.last(), sep) {
        Some(s.len() - 1)
    } else {
        rfind_sep(s.drop_last(), sep)
    }
}

/// The part of `p` up to and including the separator before its last component.
pub open spec fn parent_part(p: Seq<char>, sep: char) -> Seq<char> {
    let t = trim_end_seps(p, sep);
    match rfind_sep(t, sep) {
        Some(i) => t.subrange(0, i + 1),
        None => Seq::empty(),
    }
}

/// The last component of `p`, if it has one: none when it is empty or `..`.
pub open spec fn file_name_part(p: Seq<char>, sep: char) -> Option<Seq<char>> {
    let t = trim_end_seps(p, sep);
    let name = match rfind_sep(t, sep) {
        Some(i) => t.subrange(i + 1, t.len() as int),
        None => t,
    };
    if name.len() == 0 || name == ".."@ {
        None
    } else {
        Some(name)
    }
}

/// The stem of a file name: all before its last `.`, unless that dot is the first character.
pub open spec fn stem_of(name: Seq<char>) -> Seq<char> {
    match rfind_char(name, '.') {
        Some(k) => if k == 0 {
            name
        } else {
            name.subrange(0, k)
        },
        None => name,
    }
}

/// The extension of a file name with its dot, or nothing.
pub open spec fn dotted_extension_of(name: Seq<char>) -> Seq<char> {
    match rfind_char(name, '.') {
        Some(k) => if k == 0 {
            Seq::empty()
        } else {
            name.subrange(k, name.len() as int)
        },
        None => Seq::empty(),
    }
}

/// The `counter`-th alternative name for `p`: its stem, `_`, the counter and
/// its extension, in the same directory (`file_<counter>` under `p` when `p`
/// has no file name).
pub open spec fn duplicate_candidate(p: Seq<char>, counter: nat, sep: char) -> Seq<char> {
    match file_name_part(p, sep) {
        Some(name) => parent_part(p, sep) + stem_of(name) + "_"@ + decimal(counter)
            + dotted_extension_of(name),
        None => join_path(p, "file_"@ + decimal(counter), sep),
    }
}

/// `v` without its trailing separators.
fn trim_end_seps_exec(v: &Vec<char>, sep: char) -> (r: Vec<char>)
    ensures
        r@ == trim_end_seps(v@, sep),
{
    let mut n = v.len();
    assert(v@.subrange(0, v.len() as int) =~= v@);
    while n > 0 && (v[n - 1] == '/' || (sep == '\\' && v[n - 1] == '\\'))
        invariant
            n <= v.len(),
            trim_end_seps(v@, sep) == trim_end_seps(v@.subrange(0, n as int), sep),
        decreases n,
    {
        assert(v@.subrange(0, n as int).drop_last() =~= v@.subrange(0, n - 1));
        n -= 1;
    }
    slice_of(v, 0, n)
}

/// The last position of a separator in `v`.
fn rfind_sep_exec(v: &Vec<char>, sep: char) -> (r: Option<usize>)
    ensures
        r matches Some(i) ==> rfind_sep(v@, sep) == Some(i as int) && i < v.len(),
        r is None ==> rfind_sep(v@, sep) is None,
{
    proof {
        lemma_rfind_sep_bound(v@, sep);
    }
    let mut n = v.len();
    assert(v@.subrange(0, v.len() as int) =~= v@);
    while n > 0
        invariant
            n <= v.len(),
            rfind_sep(v@, sep) == rfind_sep(v@.subrange(0, n as int), sep),
        decreases n,
    {
        let c = v[n - 1];
        if c == '/' || (sep == '\\' && c == '\\') {
            return Some(n - 1);
        }
        assert(v@.subrange(0, n as int).drop_last() =~= v@.subrange(0, n - 1));
        n -= 1;
    }
    None
}

pub proof fn lemma_rfind_sep_bound(s: Seq<char>, sep: char)
    ensures
        rfind_sep(s, sep) matches Some(i) ==> 0 <= i < s.len(),
    decreases s.len(),
{
    if s.len() > 0 && !is_sep_for(s.last(), sep) {
        lemma_rfind_sep_bound(s.drop_last(), sep);
    }
}

pub proof fn lemma_rfind_char_bound(s: Seq<char>, c: char)
    ensures
        rfind_char(s, c) matches Some(i) ==> 0 <= i < s.len(),
    decreases s.len(),
{
    if s.len() > 0 && s.last() != c {
        lemma_rfind_char_bound(s.drop_last(), c);
    }
}

/// The `counter`-th alternative name for `path` on a platform whose separator is `sep`.
pub fn duplicate_filename_candidate(path: &str, counter: u64, sep: char) -> (r: String)
    ensures
        r@ == duplicate_candidate(path@, counter as nat, sep),
{
    let p = chars_of(path);
    let t = trim_end_seps_exec(&p, sep);
    let last_sep = rfind_sep_exec(&t, sep);
    proof {
        lemma_rfind_sep_bound(t@, sep);
    }
    let name = match last_sep {
        Some(i) => slice_of(&t, i + 1, t.len()),
        None => t.clone(),
    };
    let dotdot = vec!['.', '.'];
    let is_dotdot = crate::text::chars_eq(&name, &dotdot);
    assert(dotdot@ == ".."@) by {
        reveal_strlit("..");
        assert(dotdot@ =~= ".."@);
    }
    let number = decimal_exec(counter);
    let mut r: Vec<char>;
    if name.len() == 0 || is_dotdot {
        let mut rel = chars_of("file_");
        append_chars(&mut rel, &number);
        r = join_path_exec(&p, &rel, sep);
    } else {
        r = match last_sep {
            Some(i) => slice_of(&t, 0, i + 1),
            None => Vec::new(),
        };
        let dot = rfind_char_exec(&name, '.');
        proof {
            lemma_rfind_char_bound(name@, '.');
        }
        let (stem, ext) = match dot {
            Some(k) => if k == 0 {
                (name.clone(), Vec::new())
            } else {
                (slice_of(&name, 0, k), slice_of(&name, k, name.len()))
            },
            None => (name.clone(), Vec::new()),
        };
        append_chars(&mut r, &stem);
        r.push('_');
        append_chars(&mut r, &number);
        append_chars(&mut r, &ext);
        assert(r@ =~= parent_part(p@, sep) + stem_of(name@) + "_"@ + decimal(counter as nat)
            + dotted_extension_of(name@)) by {
            reveal_strlit("_");
        }
    }
    string_of(&r)
}

/// Whether something exists at `path` on disk.
///
/// Calls `std::path::Path::exists`; what it returns depends on the file
/// system at the time of the call, so nothing is stated of it.
#[verifier::external_body]
fn path_exists(path: &str) -> bool {
    std::path::Path::new(path).exists()
}

/// The largest numeric suffix tried for a duplicate file name.
pub const MAX_DUPLICATE_SUFFIX: u64 = 2147483647;

/// The name tried at step `counter` for `p`: the path itself at step 0,
/// the `counter`-th alternative after that.
pub open spec fn duplicate_name(p: Seq<char>, counter: nat, sep: char) -> Seq<char> {
    if counter == 0 {
        p
    } else {
        duplicate_candidate(p, counter, sep)
    }
}

/// The name tried at step `counter` for `dest_path`, as `duplicate_name` says.
pub fn duplicate_path(dest_path: &str, counter: u64, sep: char) -> (r: String)
    ensures
        r@ == duplicate_name(dest_path@, counter as nat, sep),
{
    if counter == 0 {
        String::from_str(dest_path)
    } else {
        duplicate_filename_candidate(dest_path, counter, sep)
    }
}

/// What follows once the name tried at a step is known to be taken or free:
/// use it, try the next step, or give up after the last one.
#[derive(Debug, Clone, PartialEq, Eq)]
pub enum DuplicateChoice {
    Use(String),
    Try(u64),
    GiveUp,
}

/// The step after the name tried at step `counter` (as `duplicate_name`
/// says) turned out `taken` or free: a free name is used; after a taken one
/// the next step is tried, up to `MAX_DUPLICATE_SUFFIX`, and then the search
/// gives up.
pub fn duplicate_choice(dest_path: &str, counter: u64, taken: bool, sep: char) -> (r: DuplicateChoice)
    requires
        counter <= MAX_DUPLICATE_SUFFIX,
    ensures
        !taken ==> (r matches DuplicateChoice::Use(p) && p@ == duplicate_name(dest_path@, counter as nat, sep)),
        taken && counter < MAX_DUPLICATE_SUFFIX ==> r == DuplicateChoice::Try((counter + 1) as u64),
        taken && counter == MAX_DUPLICATE_SUFFIX ==> r == DuplicateChoice::GiveUp,
{
    if !taken {
        DuplicateChoice::Use(duplicate_path(dest_path, counter, sep))
    } else if counter < MAX_DUPLICATE_SUFFIX {
        DuplicateChoice::Try(counter + 1)
    } else {
        DuplicateChoice::GiveUp
    }
}

/// The first free name for `dest_path`, where `taken` tells whether a name
/// is taken: the names of steps 0, 1, 2, ... (`duplicate_name`) are asked
/// about in turn, and the first one that `taken` answered free is returned;
/// `None` comes only when it answered taken for every step up to
/// `MAX_DUPLICATE_SUFFIX`.
pub fn first_free_name<F: Fn(&str) -> bool>(dest_path: &str, sep: char, taken: F) -> (r: Option<String>)
    requires
        forall|s: &str| #[trigger] taken.requires((s,)),
    ensures
        match r {
            Some(p) => exists|n: nat|
                n <= MAX_DUPLICATE_SUFFIX && p@ == duplicate_name(dest_path@, n, sep)
                    && (exists|q: &str| q@ == p@ && #[trigger] taken.ensures((q,), false))
                    && forall|m: nat| m < n ==> exists|q: &str| #[trigger] duplicate_name(dest_path@, m, sep) == q@
                        && taken.ensures((q,), true),
            None => forall|m: nat|
                m <= MAX_DUPLICATE_SUFFIX ==> exists|q: &str| #[trigger] duplicate_name(dest_path@, m, sep) == q@
                    && taken.ensures((q,), true),
        },
{
    let mut counter: u64 = 0;
    loop
        invariant
            counter <= MAX_DUPLICATE_SUFFIX,
            forall|s: &str| #[trigger] taken.requires((s,)),
            forall|m: nat| m < counter ==> exists|q: &str| #[trigger] duplicate_name(dest_path@, m, sep) == q@
                && taken.ensures((q,), true),
        decreases MAX_DUPLICATE_SUFFIX - counter,
    {
        let candidate = duplicate_path(dest_path, counter, sep);
        let cs = candidate.as_str();
        let is_taken = taken(cs);
        match duplicate_choice(dest_path, counter, is_taken, sep) {
            DuplicateChoice::Use(p) => {
                assert(taken.ensures((cs,), false));
                return Some(p);
            },
            DuplicateChoice::Try(next) => {
                assert forall|m: nat| m < next implies exists|q: &str| #[trigger] duplicate_name(dest_path@, m, sep)
                    == q@ && taken.ensures((q,), true) by {
                    if m == counter {
                        assert(duplicate_name(dest_path@, m, sep) == cs@);
                    }
                }
                counter = next;
            },
            DuplicateChoice::GiveUp => {
                assert forall|m: nat| m <= MAX_DUPLICATE_SUFFIX implies exists|q: &str| #[trigger] duplicate_name(
                    dest_path@,
                    m,
                    sep,
                ) == q@ && taken.ensures((q,), true) by {
                    if m == counter {
                        assert(duplicate_name(dest_path@, m, sep) == cs@);
                    }
                }
                return None;
            },
        }
    }
}

/// Picks a file name for `dest_path` that is not taken yet: the path itself
/// when nothing exists there, otherwise the first alternative
/// (`stem_1.ext`, `stem_2.ext`, ...) that does not exist, as
/// `first_free_name` finds it with `Path::exists` as the test and the
/// platform's separator.
///
/// Returns `None` only when every alternative up to `MAX_DUPLICATE_SUFFIX`
/// exists.
pub fn handle_duplicate_filename(dest_path: &str) -> (r: Option<String>)
    ensures
        r matches Some(p) ==> (exists|n: nat|
            n <= MAX_DUPLICATE_SUFFIX && (p@ == duplicate_name(dest_path@, n, '/') || p@ == duplicate_name(
                dest_path@,
                n,
                '\\',
            ))),
{
    let sep = platform_separator();
    first_free_name(dest_path, sep, path_exists)
}

/// The path form kept in collection results: every `\` becomes `/`.
pub fn normalize_path_for_storage(path: &str) -> (r: String)
    ensures
        r@ == replace_char(path@, '\\', '/'),
{
    let v = chars_of(path);
    let w = replace_char_exec(&v, '\\', '/');
    string_of(&w)
}

/// The key under which a collected file is listed in the results: its path
/// below the base directory where it lies below it, else its whole path,
/// with every `\\` turned into `/`.
pub fn result_key(path: &str, base_dir: &str) -> (r: String)
    ensures
        r@ == replace_char(
            crate::collectors::regex::helpers::match_text(
                path@,
                crate::collectors::regex::helpers::path_below(path@, base_dir@),
            ),
            '\\',
            '/',
        ),
{
    match crate::collectors::regex::helpers::strip_base(path, base_dir) {
        Some(rest) => normalize_path_for_storage(rest.as_str()),
        None => normalize_path_for_storage(path),
    }
}

/// How an artifact is collected: by walking its source for the files that
/// its patterns select, or by collecting its source as it stands.
#[derive(Debug, Clone, Copy, PartialEq, Eq, Structural)]
pub enum CollectionRoute {
    Regex,
    Standard,
}

/// The way `artifact` is collected: by its patterns exactly where it has an
/// enabled pattern configuration.
pub fn collection_route(artifact: &Artifact) -> (r: CollectionRoute)
    ensures
        r == (if crate::collectors::regex::collector::uses_pattern(*artifact) {
            CollectionRoute::Regex
        } else {
            CollectionRoute::Standard
        }),
{
    if crate::collectors::regex::collector::RegexCollector::has_regex_config(artifact) {
        CollectionRoute::Regex
    } else {
        CollectionRoute::Standard
    }
}

/// Whether a failure to collect `artifact` is reported as a warning: only
/// for a required artifact (an optional one is a debug message).
pub fn failure_is_warning(artifact: &Artifact) -> (r: bool)
    ensures
        r == artifact.required,
{
    artifact.required
}

} // verus!
