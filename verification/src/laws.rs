//! Properties of the library as a whole, each proved from the
//! specifications the functions state.
use vstd::prelude::*;
use crate::config::artifact_types::ArtifactType;
use crate::config::collection_config::Artifact;
use crate::config::env_vars::{
    normalized_for, env_var, lookup, without, valid_var_name, lemma_lookup_append, lemma_lookup_without,
    windows_expansion, unix_expansion, unix_braces, ExpansionPass, pass_steps, pass_result,
    pass_ends, windows_ends, unix_ends,
};
use crate::collectors::collector::{destination_for, is_special, relative_source, join_path, is_absolute_for};
use crate::collectors::platforms::platform_handles;
use crate::collectors::platforms::common::is_generic_type;
use crate::collectors::memory::filters::{
    ProcessFilter, process_matches, is_system, dedup_types,
};
use crate::cloud::retry::{backoff, lemma_doubled_grows};
use crate::cloud::s3::file_part_step;
use crate::cloud::streaming::{
    PartOutcome, PartStep, part_step, PART_UPLOAD_ATTEMPTS, stream_parts, buffer_write, numbered_parts,
};
use crate::collectors::permission_tracker::with_failure;
use crate::collectors::memory::maps::{ModuleView, modules_of, merge_module_view, module_position, module_line};
use crate::text::{
    replace_char, starts_with, trim_start_char, find_sub, find_char, lemma_find_sub_some,
    lemma_find_char_some,
};

verus! {

/// Normalizing a path for a platform leaves no separator of the other
/// platform in it, and normalizing it again changes nothing.
pub proof fn law_normalize_path(path: Seq<char>, sep: char)
    requires
        sep == '/' || sep == '\\',
    ensures
        sep == '/' ==> !normalized_for(path, sep).contains('\\'),
        sep == '\\' ==> !normalized_for(path, sep).contains('/'),
        normalized_for(normalized_for(path, sep), sep) == normalized_for(path, sep),
{
    let n = normalized_for(path, sep);
    assert(normalized_for(n, sep) =~= n);
}

/// The storage form of a path holds no backslash, and is its own storage form.
pub proof fn law_storage_form(path: Seq<char>)
    ensures
        !replace_char(path, '\\', '/').contains('\\'),
        replace_char(replace_char(path, '\\', '/'), '\\', '/') == replace_char(path, '\\', '/'),
{
    let n = replace_char(path, '\\', '/');
    assert(replace_char(n, '\\', '/') =~= n);
}

/// After a variable is set, reading it gives the value set; reading any other
/// name gives what it gave before; after it is removed, reading it gives nothing.
pub proof fn law_environment_read_back(
    env: Seq<(Seq<char>, Seq<char>)>,
    name: Seq<char>,
    value: Seq<char>,
    other: Seq<char>,
)
    requires
        valid_var_name(name),
    ensures
        env_var(without(env, name).push((name, value)), name) == Some(value),
        other != name ==> env_var(without(env, name).push((name, value)), other) == env_var(env, other),
        env_var(without(env, name), name) is None,
        other != name ==> env_var(without(env, name), other) == env_var(env, other),
{
    let w = without(env, name);
    let single = seq![(name, value)];
    assert(w.push((name, value)) =~= w + single);
    assert(single.drop_first() =~= Seq::<(Seq<char>, Seq<char>)>::empty());
    lemma_lookup_append(w, single, name);
    lemma_lookup_append(w, single, other);
    lemma_lookup_without(env, name, name);
    lemma_lookup_without(env, name, other);
    assert(single[0] == (name, value));
    if other != name {
        assert(lookup(single.drop_first(), other) is None);
        assert(lookup(single, other) is None);
    }
}

/// A pass finds nothing to do in a text without the character that opens
/// its names: it ends at once and leaves the text as it is.
proof fn lemma_pass_untouched(pass: ExpansionPass, env: Seq<(Seq<char>, Seq<char>)>, path: Seq<char>, c: char)
    requires
        !path.contains(c),
        c == (match pass {
            ExpansionPass::Percent => '%',
            _ => '$',
        }),
    ensures
        pass_ends(pass, env, path),
        pass_result(pass, env, path) == path,
{
    lemma_find_char_some(path, c, 0);
    if path.len() > 0 {
        assert(find_char(path, c, 0) is None);
    }
    lemma_find_sub_some(path, seq!['$', '{'], 0);
    if find_sub(path, seq!['$', '{'], 0) is Some {
        let st = find_sub(path, seq!['$', '{'], 0)->0;
        assert(path.subrange(st, st + 2)[0] == path[st]);
        assert(path[st] == '$');
    }
    assert(pass_steps(pass, env, path, 0, 0) == Some(path));
    crate::config::env_vars::lemma_pass_result(pass, env, path, 0);
}

/// A path without `%` is left as it is by Windows-style expansion, and one
/// without `$` by Unix-style expansion; both end at once.
pub proof fn law_expansion_needs_markers(env: Seq<(Seq<char>, Seq<char>)>, path: Seq<char>)
    ensures
        !path.contains('%') ==> windows_ends(env, path) && windows_expansion(env, path) == path,
        !path.contains('$') ==> unix_ends(env, path) && unix_expansion(env, path) == path,
{
    if !path.contains('%') {
        lemma_pass_untouched(ExpansionPass::Percent, env, path, '%');
    }
    if !path.contains('$') {
        lemma_pass_untouched(ExpansionPass::Braces, env, path, '$');
        assert(unix_braces(env, path) == path);
        lemma_pass_untouched(ExpansionPass::Dollar, env, path, '$');
    }
}

/// Whether the part of `source` kept below the collection directory on a
/// Unix platform begins with `/`, so that joining it replaces the directory.
pub open spec fn escapes_root(source: Seq<char>) -> bool {
    starts_with(relative_source(source, '/'), "/"@)
}

/// On a Unix platform, an ordinary artifact is stored under the collection
/// directory: its destination begins with that directory, unless the part
/// of its source path kept below it begins with `/` (such as
/// `/\/etc/passwd`, which keeps `/etc/passwd`).
pub proof fn law_destination_under_collection_dir(fs_dir: Seq<char>, a: Artifact)
    requires
        !is_special(a.artifact_type),
        !escapes_root(a.source_path@),
    ensures
        starts_with(destination_for(fs_dir, a, '/'), fs_dir),
{
    reveal_strlit("/");
    let rel = relative_source(a.source_path@, '/');
    assert(!is_absolute_for(rel, '/')) by {
        if rel.len() > 0 && rel[0] == '/' {
            assert(rel.subrange(0, 1) =~= "/"@);
        }
    }
    let d = join_path(fs_dir, rel, '/');
    if fs_dir.len() == 0 || fs_dir.last() == '/' {
        assert(d.subrange(0, fs_dir.len() as int) =~= fs_dir);
    } else {
        assert(d.subrange(0, fs_dir.len() as int) =~= fs_dir);
    }
}

/// A source path without backslashes never escapes the collection directory.
pub proof fn law_no_backslash_no_escape(source: Seq<char>)
    requires
        !source.contains('\\'),
    ensures
        !escapes_root(source),
{
    reveal_strlit("/");
    lemma_trim_start_not_first(source, '/');
    let t = trim_start_char(source, '/');
    lemma_trim_start_no_other(source, '/', '\\');
    assert(trim_start_char(t, '\\') == t) by {
        if t.len() > 0 {
            assert(t[0] != '\\');
        }
    }
    let rel = relative_source(source, '/');
    if rel.len() > 0 && rel[0] == '/' {
        if source.len() > 0 && (source[0] == '/' || source[0] == '\\') {
            assert(rel == t);
        } else {
            assert(rel == source);
        }
    }
    assert(!(rel.len() >= 1 && rel.subrange(0, 1) == "/"@)) by {
        if rel.len() >= 1 && rel.subrange(0, 1) == "/"@ {
            assert(rel[0] == rel.subrange(0, 1)[0]);
        }
    }
}

/// Trimming a leading run of `c` leaves no `c` in front.
pub proof fn lemma_trim_start_not_first(s: Seq<char>, c: char)
    ensures
        trim_start_char(s, c).len() > 0 ==> trim_start_char(s, c)[0] != c,
    decreases s.len(),
{
    if s.len() > 0 && s[0] == c {
        lemma_trim_start_not_first(s.drop_first(), c);
    }
}

/// Trimming keeps a suffix, so a character absent from `s` is absent after.
pub proof fn lemma_trim_start_no_other(s: Seq<char>, c: char, d: char)
    requires
        !s.contains(d),
    ensures
        !trim_start_char(s, c).contains(d),
    decreases s.len(),
{
    if s.len() > 0 && s[0] == c {
        assert forall|k: int| 0 <= k < s.drop_first().len() implies s.drop_first()[k] != d by {
            assert(s.drop_first()[k] == s[k + 1]);
        }
        lemma_trim_start_no_other(s.drop_first(), c, d);
    }
}

/// Every platform collects the generic artifact types, and no platform
/// collects another platform's artifact types.
pub proof fn law_platform_types(os: Seq<char>, t: ArtifactType)
    ensures
        is_generic_type(t) ==> platform_handles(os, t),
        os == "linux"@ ==> !(t is Windows) && !(t is MacOS) ==> (platform_handles(os, t) <==> (t is Linux
            || is_generic_type(t))),
        os == "windows"@ && (t is Linux || t is MacOS) ==> !platform_handles(os, t),
        os == "linux"@ && (t is Windows || t is MacOS) ==> !platform_handles(os, t),
        os == "macos"@ && (t is Windows || t is Linux) ==> !platform_handles(os, t),
{
    reveal_strlit("windows");
    reveal_strlit("linux");
    reveal_strlit("macos");
    assert("windows"@ != "linux"@ && "windows"@ != "macos"@ && "linux"@ != "macos"@) by {
        assert("windows"@.len() != "linux"@.len());
        assert("windows"@[0] != "macos"@[0]);
        assert("linux"@[0] != "macos"@[0]);
    }
}

/// A region filter lists each region type at most once, and lists exactly
/// the types it was given.
pub proof fn law_region_types_once(s: Seq<crate::collectors::memory::models::MemoryRegionType>)
    ensures
        dedup_types(s).no_duplicates(),
        forall|t: crate::collectors::memory::models::MemoryRegionType| #[trigger] dedup_types(s).contains(t)
            <==> s.contains(t),
    decreases s.len(),
{
    if s.len() > 0 {
        law_region_types_once(s.drop_last());
        let d = dedup_types(s.drop_last());
        assert forall|t: crate::collectors::memory::models::MemoryRegionType| #[trigger] dedup_types(s).contains(t)
            <==> s.contains(t) by {
            if s.contains(t) {
                let k = choose|k: int| 0 <= k < s.len() && s[k] == t;
                if k < s.len() - 1 {
                    assert(s.drop_last()[k] == t);
                }
            }
            if s.drop_last().contains(t) {
                let k = choose|k: int| 0 <= k < s.drop_last().len() && s.drop_last()[k] == t;
                assert(s[k] == t);
            }
            if d.contains(s.last()) {
            } else {
                assert(d.push(s.last()).contains(s.last())) by {
                    assert(d.push(s.last())[d.len() as int] == s.last());
                }
                if d.contains(t) {
                    let k = choose|k: int| 0 <= k < d.len() && d[k] == t;
                    assert(d.push(s.last())[k] == t);
                }
                if d.push(s.last()).contains(t) && t != s.last() {
                    let k = choose|k: int| 0 <= k < d.push(s.last()).len() && d.push(s.last())[k] == t;
                    assert(d[k] == t);
                }
            }
        }
    }
}

/// A process filter without names or IDs takes every process when system
/// processes are included, and otherwise every process that is not a system
/// process.
pub proof fn law_empty_process_filter(f: ProcessFilter, pid: u32, name: Seq<char>)
    requires
        f.process_names@.len() == 0,
        f.process_ids@.len() == 0,
    ensures
        process_matches(f, pid, name) == (f.include_system_processes || !is_system(pid, crate::text::lowercase(name))),
{
}

/// The delay before a retry never exceeds the longest delay, and never
/// shrinks from one attempt to a later one.
pub proof fn law_backoff(base_ms: nat, a: nat, b: nat, max_ms: nat)
    ensures
        backoff(base_ms, a, max_ms) <= max_ms,
        a <= b ==> backoff(base_ms, a, max_ms) <= backoff(base_ms, b, max_ms),
{
    if a <= b {
        lemma_doubled_grows(base_ms, a, b);
    }
}

/// Recording a failure twice is recording it once: the failed artifacts
/// stay free of repeats, gain exactly the new name as a set, and recording
/// the same name again changes nothing.
pub proof fn law_failures_recorded_once(names: Seq<Seq<char>>, name: Seq<char>)
    requires
        names.no_duplicates(),
    ensures
        with_failure(names, name).no_duplicates(),
        with_failure(names, name).to_set() == names.to_set().insert(name),
        with_failure(with_failure(names, name), name) == with_failure(names, name),
{
    let after = with_failure(names, name);
    if !names.contains(name) {
        assert forall|i: int, j: int| 0 <= i < after.len() && 0 <= j < after.len() && i != j implies after[i]
            != after[j] by {
            if i == names.len() {
                assert(names[j] == after[j]);
            } else if j == names.len() {
                assert(names[i] == after[i]);
            }
        }
        assert(after[names.len() as int] == name);
    }
    if !names.contains(name) {
        names.lemma_push_to_set_commute(name);
    } else {
        assert(names.to_set() =~= names.to_set().insert(name));
    }
    assert(after.contains(name)) by {
        if names.contains(name) {
        } else {
            assert(after[names.len() as int] == name);
        }
    }
}

/// A part is tried at most `PART_UPLOAD_ATTEMPTS` times, in a stream and in
/// a file upload alike: once that many attempts were made, no outcome leads
/// to another; an answer with an entity tag always completes the part under
/// its own number; and in a file upload an answer without one is never
/// tried again.
pub proof fn law_part_attempts_bounded(part_number: u64, attempts: u32, outcome: PartOutcome)
    ensures
        attempts >= PART_UPLOAD_ATTEMPTS ==> !(part_step(part_number, attempts, outcome) is RetryAfter),
        attempts >= PART_UPLOAD_ATTEMPTS ==> !(file_part_step(part_number, attempts, outcome) is RetryAfter),
        outcome matches PartOutcome::Accepted(Some(tag)) ==> part_step(part_number, attempts, outcome)
            matches PartStep::Done(r) && r.e_tag == Some(tag) && r.part_number == Some(part_number as i64),
        outcome matches PartOutcome::Accepted(Some(tag)) ==> file_part_step(part_number, attempts, outcome)
            == part_step(part_number, attempts, outcome),
        outcome == PartOutcome::Accepted(None) ==> !(file_part_step(part_number, attempts, outcome) is RetryAfter),
{
}

/// Whether no two modules of `ms` share a name.
pub open spec fn names_distinct(ms: Seq<ModuleView>) -> bool {
    forall|i: int, j: int| 0 <= i < j < ms.len() ==> ms[i].0 != ms[j].0
}

proof fn lemma_position_none(ms: Seq<ModuleView>, name: Seq<char>)
    requires
        module_position(ms, name) is None,
    ensures
        forall|i: int| 0 <= i < ms.len() ==> ms[i].0 != name,
    decreases ms.len(),
{
    if ms.len() > 0 {
        lemma_position_none(ms.drop_last(), name);
        assert forall|i: int| 0 <= i < ms.len() implies ms[i].0 != name by {
            if i < ms.len() - 1 {
                assert(ms.drop_last()[i] == ms[i]);
            }
        }
    }
}

proof fn lemma_merge_keeps_names_distinct(ms: Seq<ModuleView>, m: ModuleView)
    requires
        names_distinct(ms),
    ensures
        names_distinct(merge_module_view(ms, m)),
{
    crate::collectors::memory::maps::lemma_module_position_bound(ms, m.0);
    match module_position(ms, m.0) {
        Some(k) => {
            if ms[k].1 > m.1 {
                let after = ms.update(k, m);
                assert forall|i: int, j: int| 0 <= i < j < after.len() implies after[i].0 != after[j].0 by {
                    if i == k {
                        assert(ms[j] == after[j]);
                    } else if j == k {
                        assert(ms[i] == after[i]);
                    } else {
                        assert(ms[i] == after[i] && ms[j] == after[j]);
                    }
                }
            }
        },
        None => {
            lemma_position_none(ms, m.0);
            let after = ms.push(m);
            assert forall|i: int, j: int| 0 <= i < j < after.len() implies after[i].0 != after[j].0 by {
                if j == ms.len() {
                    assert(after[i] == ms[i]);
                } else {
                    assert(ms[i] == after[i] && ms[j] == after[j]);
                }
            }
        },
    }
}

/// The loaded images read from a memory map name each file name once: a
/// later image of a known name replaces or yields to the known one.
pub proof fn law_modules_named_once(lines: Seq<Seq<char>>)
    ensures
        modules_of(lines) matches Ok(ms) ==> names_distinct(ms),
    decreases lines.len(),
{
    if lines.len() > 0 {
        law_modules_named_once(lines.drop_last());
        if let Ok(ms) = modules_of(lines.drop_last()) {
            if let Some(Ok((path, start, end))) = module_line(lines.last()) {
                let name = match crate::collectors::memory::maps::path_file_name(path) {
                    Some(n) => n,
                    None => Seq::<char>::empty(),
                };
                lemma_merge_keeps_names_distinct(ms, (name, start, ((end - start) % 0x1_0000_0000_0000_0000) as u64, path));
            }
        }
    }
}

/// A streaming upload loses and reorders no byte: the parts that a run of
/// writes hands out, followed by what stays buffered (the last part, which
/// `finish` hands out), are the bytes that were buffered followed by
/// everything written; and every part handed out by a write holds at least
/// the part size.
pub proof fn law_stream_keeps_every_byte(pending: Seq<u8>, threshold: nat, writes: Seq<Seq<u8>>)
    ensures
        stream_parts(pending, threshold, writes).0.flatten() + stream_parts(pending, threshold, writes).1 == pending
            + writes.flatten(),
        forall|i: int|
            0 <= i < stream_parts(pending, threshold, writes).0.len() ==> #[trigger] stream_parts(
                pending,
                threshold,
                writes,
            ).0[i].len() >= threshold,
    decreases writes.len(),
{
    if writes.len() > 0 {
        let (part, kept) = buffer_write(pending, threshold, writes[0]);
        law_stream_keeps_every_byte(kept, threshold, writes.drop_first());
        let (later, last) = stream_parts(kept, threshold, writes.drop_first());
        assert(writes.flatten() == writes[0] + writes.drop_first().flatten());
        match part {
            Some(p) => {
                let parts = seq![p] + later;
                assert(parts.first() == p);
                assert(parts.drop_first() =~= later);
                assert(parts.flatten() == p + later.flatten());
                assert(p == pending + writes[0]);
                assert(kept =~= Seq::<u8>::empty());
                assert(parts.flatten() + last =~= pending + writes.flatten());
                assert forall|i: int| 0 <= i < parts.len() implies #[trigger] parts[i].len() >= threshold by {
                    if i > 0 {
                        assert(parts[i] == later[i - 1]);
                    }
                }
            },
            None => {
                assert(kept == pending + writes[0]);
                assert(later.flatten() + last =~= pending + writes.flatten());
            },
        }
    }
}

/// A run of writes hands its parts out under consecutive numbers in write
/// order, starting at the buffer's next part number (1 for a new buffer):
/// the part handed out k-th carries number `next + k`, and the parts are
/// exactly those `stream_parts` lists, each at least the part size.
pub proof fn law_stream_parts_numbered(pending: Seq<u8>, threshold: nat, next: int, writes: Seq<Seq<u8>>)
    ensures
        numbered_parts(pending, threshold, next, writes).len() == stream_parts(pending, threshold, writes).0.len(),
        forall|k: int|
            0 <= k < numbered_parts(pending, threshold, next, writes).len() ==> #[trigger] numbered_parts(
                pending,
                threshold,
                next,
                writes,
            )[k] == (next + k, stream_parts(pending, threshold, writes).0[k]),
        forall|k: int|
            0 <= k < numbered_parts(pending, threshold, next, writes).len() ==> (#[trigger] numbered_parts(
                pending,
                threshold,
                next,
                writes,
            )[k]).1.len() >= threshold,
    decreases writes.len(),
{
    law_stream_keeps_every_byte(pending, threshold, writes);
    if writes.len() > 0 {
        let (part, kept) = buffer_write(pending, threshold, writes[0]);
        let rest = writes.drop_first();
        match part {
            Some(p) => {
                law_stream_parts_numbered(kept, threshold, next + 1, rest);
                let later = numbered_parts(kept, threshold, next + 1, rest);
                let all = seq![(next, p)] + later;
                let parts = stream_parts(pending, threshold, writes).0;
                assert(parts == seq![p] + stream_parts(kept, threshold, rest).0);
                assert forall|k: int| 0 <= k < all.len() implies #[trigger] all[k] == (next + k, parts[k]) by {
                    if k > 0 {
                        assert(all[k] == later[k - 1]);
                        assert(parts[k] == stream_parts(kept, threshold, rest).0[k - 1]);
                    }
                }
                assert forall|k: int| 0 <= k < all.len() implies (#[trigger] all[k]).1.len() >= threshold by {
                    assert(all[k] == (next + k, parts[k]));
                    assert(parts[k].len() >= threshold);
                }
            },
            None => {
                law_stream_parts_numbered(kept, threshold, next, rest);
            },
        }
    }
}

} // verus!
