//! Reading the memory map of a Linux process, as `/proc/<pid>/maps` lists
//! it: one region per line, its address range, permissions, offset,
//! device, inode and the file mapped into it.
use vstd::prelude::*;
use crate::collectors::memory::models::{MemoryProtection, MemoryRegionInfo, MemoryRegionType, ModuleInfo};
use crate::collectors::memory::collector::joined_words;
use crate::config::collection_config::opt_view;
use crate::text::{chars_of, string_of, slice_of, append_chars, contains_sub, contains_sub_exec, ends_with, matches_at_exec};
use crate::tokens::{split_on, split_on_exec, is_ws, is_ws_exec, unsigned_digits};

verus! {

/// `l` without the carriage return it may end with.
pub open spec fn strip_cr(l: Seq<char>) -> Seq<char> {
    if l.len() > 0 && l.last() == '\r' {
        l.drop_last()
    } else {
        l
    }
}

/// The lines of `s`, as `str::lines` gives them: split at each `\n`, a
/// terminated line without its trailing `\r`, and no empty line after a
/// final `\n`.
pub open spec fn lines_of(s: Seq<char>) -> Seq<Seq<char>> {
    let parts = split_on(s, '\n');
    let ended = parts.drop_last().map_values(|l: Seq<char>| strip_cr(l));
    if parts.last().len() > 0 {
        ended.push(parts.last())
    } else {
        ended
    }
}

/// `s` split at every white-space character.
pub open spec fn split_ws(s: Seq<char>) -> Seq<Seq<char>>
    decreases s.len(),
{
    if s.len() == 0 {
        seq![Seq::<char>::empty()]
    } else {
        let parts = split_ws(s.drop_last());
        if is_ws(s.last()) {
            parts.push(Seq::<char>::empty())
        } else {
            parts.update(parts.len() - 1, parts.last().push(s.last()))
        }
    }
}

/// The non-empty pieces of `parts`, in order.
pub open spec fn non_empty(parts: Seq<Seq<char>>) -> Seq<Seq<char>>
    decreases parts.len(),
{
    if parts.len() == 0 {
        Seq::empty()
    } else {
        let rest = non_empty(parts.drop_last());
        if parts.last().len() > 0 {
            rest.push(parts.last())
        } else {
            rest
        }
    }
}

/// The white-space separated fields of `s`, as `str::split_whitespace` gives them.
pub open spec fn fields_of(s: Seq<char>) -> Seq<Seq<char>> {
    non_empty(split_ws(s))
}

/// The value of a hexadecimal digit.
pub open spec fn hex_value(c: char) -> Option<nat> {
    if '0' <= c && c <= '9' {
        Some(((c as nat) - ('0' as nat)) as nat)
    } else if 'a' <= c && c <= 'f' {
        Some(((c as nat) - ('a' as nat) + 10) as nat)
    } else if 'A' <= c && c <= 'F' {
        Some(((c as nat) - ('A' as nat) + 10) as nat)
    } else {
        None
    }
}

/// Whether every character of `d` is a hexadecimal digit.
pub open spec fn all_hex(d: Seq<char>) -> bool {
    forall|i: int| 0 <= i < d.len() ==> (#[trigger] hex_value(d[i])) is Some
}

/// The value of the hexadecimal digits `d`.
pub open spec fn hex_digits_value(d: Seq<char>) -> nat
    decreases d.len(),
{
    if d.len() == 0 {
        0
    } else {
        hex_digits_value(d.drop_last()) * 16 + match hex_value(d.last()) {
            Some(v) => v,
            None => 0,
        }
    }
}

/// The `u64` that `s` spells in hexadecimal, as `u64::from_str_radix(s, 16)`
/// reads it: an optional `+` and one or more hexadecimal digits whose value
/// fits in 64 bits.
pub open spec fn parse_hex(s: Seq<char>) -> Option<u64> {
    let d = unsigned_digits(s);
    if d.len() > 0 && all_hex(d) && hex_digits_value(d) <= u64::MAX {
        Some(hex_digits_value(d) as u64)
    } else {
        None
    }
}

/// The kind of region a mapped file, or the permissions of an anonymous
/// region, tell: shared libraries (and files under a `lib` directory) are
/// code, `[heap]` and `[stack]` are heap and stack, any other file is a
/// mapped file; an anonymous region is code when executable.
pub open spec fn maps_region_type(mapped: Option<Seq<char>>, perms: Seq<char>) -> MemoryRegionType {
    match mapped {
        Some(path) => if ends_with(path, ".so"@) || contains_sub(path, ".so."@) || contains_sub(path, "/lib/"@) {
            MemoryRegionType::Code
        } else if contains_sub(path, "[heap]"@) {
            MemoryRegionType::Heap
        } else if contains_sub(path, "[stack]"@) {
            MemoryRegionType::Stack
        } else if path.len() > 0 {
            MemoryRegionType::MappedFile
        } else {
            MemoryRegionType::Other
        },
        None => if perms.contains('x') {
            MemoryRegionType::Code
        } else {
            MemoryRegionType::Other
        },
    }
}

/// What one line of a memory map says of its region: `None` for a line that
/// holds no region (blank, or an address field that is not one range),
/// `Some(Err(()))` for one whose addresses are not hexadecimal numbers, and
/// else its start, its size (the end minus the start, wrapping around as a
/// release build computes it), its type, its permissions and its file.
pub open spec fn maps_line(line: Seq<char>) -> Option<Result<(u64, u64, MemoryRegionType, MemoryProtection, Option<Seq<char>>), ()>> {
    let parts = fields_of(line);
    if parts.len() == 0 {
        None
    } else {
        let addrs = split_on(parts[0], '-');
        if addrs.len() != 2 {
            None
        } else {
            match (parse_hex(addrs[0]), parse_hex(addrs[1])) {
                (Some(start), Some(end)) => {
                    let perms = if parts.len() > 1 { parts[1] } else { Seq::<char>::empty() };
                    let mapped = if parts.len() >= 6 { Some(joined_words(parts.subrange(5, parts.len() as int))) } else { None };
                    Some(Ok((
                        start,
                        ((end - start) % 0x1_0000_0000_0000_0000) as u64,
                        maps_region_type(mapped, perms),
                        MemoryProtection { read: perms.contains('r'), write: perms.contains('w'), execute: perms.contains('x') },
                        mapped,
                    )))
                },
                _ => Some(Err(())),
            }
        }
    }
}

/// The regions the lines `lines` list, in order, or `Err` where one of them
/// has addresses that are not hexadecimal numbers.
pub open spec fn maps_regions(lines: Seq<Seq<char>>) -> Result<Seq<(u64, u64, MemoryRegionType, MemoryProtection, Option<Seq<char>>)>, ()>
    decreases lines.len(),
{
    if lines.len() == 0 {
        Ok(Seq::empty())
    } else {
        match maps_regions(lines.drop_last()) {
            Ok(rest) => match maps_line(lines.last()) {
                None => Ok(rest),
                Some(Ok(r)) => Ok(rest.push(r)),
                Some(Err(())) => Err(()),
            },
            Err(()) => Err(()),
        }
    }
}

/// What a region record says: start, size, type, permissions and file.
pub open spec fn region_fields(r: MemoryRegionInfo) -> (u64, u64, MemoryRegionType, MemoryProtection, Option<Seq<char>>) {
    (
        r.base_address,
        r.size,
        r.region_type,
        r.protection,
        match r.mapped_file {
            Some(f) => Some(f@),
            None => None,
        },
    )
}

pub proof fn lemma_split_ws_nonempty(s: Seq<char>)
    ensures
        split_ws(s).len() >= 1,
    decreases s.len(),
{
    if s.len() > 0 {
        lemma_split_ws_nonempty(s.drop_last());
    }
}

/// The white-space separated fields of `v`, as `fields_of` says.
pub fn fields_exec(v: &Vec<char>) -> (r: Vec<Vec<char>>)
    ensures
        r@.len() == fields_of(v@).len(),
        forall|k: int| 0 <= k < r@.len() ==> #[trigger] r@[k]@ == fields_of(v@)[k],
{
    let mut out: Vec<Vec<char>> = Vec::new();
    let mut cur: Vec<char> = Vec::new();
    let mut i: usize = 0;
    while i < v.len()
        invariant
            i <= v.len(),
            out@.len() == non_empty(split_ws(v@.take(i as int)).drop_last()).len(),
            forall|k: int| 0 <= k < out@.len() ==> #[trigger] out@[k]@ == non_empty(split_ws(v@.take(i as int)).drop_last())[k],
            split_ws(v@.take(i as int)).len() >= 1,
            cur@ == split_ws(v@.take(i as int)).last(),
        decreases v.len() - i,
    {
        let ghost before = split_ws(v@.take(i as int));
        proof {
            assert(v@.take(i + 1).drop_last() =~= v@.take(i as int));
            lemma_split_ws_nonempty(v@.take(i as int));
        }
        if is_ws_exec(v[i]) {
            proof {
                let after = split_ws(v@.take(i + 1));
                assert(after =~= before.push(Seq::<char>::empty()));
                assert(after.drop_last() =~= before);
                assert(before.drop_last().push(before.last()) =~= before);
            }
            if cur.len() > 0 {
                out.push(cur);
            }
            cur = Vec::new();
        } else {
            proof {
                let after = split_ws(v@.take(i + 1));
                assert(after.drop_last() =~= before.drop_last());
            }
            cur.push(v[i]);
        }
        i += 1;
    }
    proof {
        let all = split_ws(v@.take(v.len() as int));
        lemma_split_ws_nonempty(v@.take(v.len() as int));
        assert(all.drop_last().push(all.last()) =~= all);
        assert(v@.take(v.len() as int) =~= v@);
    }
    if cur.len() > 0 {
        out.push(cur);
    }
    out
}

/// The lines of `v`, as `lines_of` says.
pub fn lines_exec(v: &Vec<char>) -> (r: Vec<Vec<char>>)
    ensures
        r@.len() == lines_of(v@).len(),
        forall|k: int| 0 <= k < r@.len() ==> #[trigger] r@[k]@ == lines_of(v@)[k],
{
    let parts = split_on_exec(v, '\n');
    proof {
        crate::tokens::lemma_split_on_nonempty(v@, '\n');
    }
    let ghost all = split_on(v@, '\n');
    let n = parts.len();
    let mut out: Vec<Vec<char>> = Vec::new();
    let mut i: usize = 0;
    while i + 1 < n
        invariant
            n == parts@.len(),
            n == all.len(),
            n >= 1,
            i + 1 <= n,
            forall|k: int| 0 <= k < n ==> #[trigger] parts@[k]@ == all[k],
            out@.len() == i,
            forall|k: int| 0 <= k < i ==> #[trigger] out@[k]@ == strip_cr(all[k]),
        decreases n - i,
    {
        let p = &parts[i];
        let line = if p.len() > 0 && p[p.len() - 1] == '\r' {
            slice_of(p, 0, p.len() - 1)
        } else {
            slice_of(p, 0, p.len())
        };
        proof {
            assert(p@.subrange(0, p@.len() as int) =~= p@);
            assert(p@.len() > 0 ==> p@.subrange(0, p@.len() - 1) =~= p@.drop_last());
        }
        out.push(line);
        i += 1;
    }
    let last = &parts[n - 1];
    if last.len() > 0 {
        out.push(slice_of(last, 0, last.len()));
        proof {
            assert(last@.subrange(0, last@.len() as int) =~= last@);
        }
    }
    proof {
        let ended = all.drop_last().map_values(|l: Seq<char>| strip_cr(l));
        assert(ended.len() == n - 1);
    }
    out
}

/// The `u64` that `v` spells in hexadecimal, as `parse_hex` says.
pub fn parse_hex_exec(v: &Vec<char>) -> (r: Option<u64>)
    ensures
        r == parse_hex(v@),
{
    let start: usize = if v.len() > 0 && v[0] == '+' { 1 } else { 0 };
    let ghost d = unsigned_digits(v@);
    assert(d =~= v@.subrange(start as int, v.len() as int));
    if start >= v.len() {
        return None;
    }
    let mut value: u64 = 0;
    let mut i: usize = start;
    while i < v.len()
        invariant
            start <= i <= v.len(),
            start < v.len(),
            d == v@.subrange(start as int, v.len() as int),
            d == unsigned_digits(v@),
            forall|j: int| start <= j < i ==> (#[trigger] hex_value(v@[j])) is Some,
            value == hex_digits_value(v@.subrange(start as int, i as int)),
        decreases v.len() - i,
    {
        let c = v[i];
        let digit: u64 = if '0' <= c && c <= '9' {
            (c as u32 - '0' as u32) as u64
        } else if 'a' <= c && c <= 'f' {
            (c as u32 - 'a' as u32 + 10) as u64
        } else if 'A' <= c && c <= 'F' {
            (c as u32 - 'A' as u32 + 10) as u64
        } else {
            proof {
                assert(d[i - start] == v@[i as int]);
                assert(hex_value(d[i - start]) is None);
            }
            return None;
        };
        let ghost t = v@.subrange(start as int, i + 1);
        proof {
            assert(t.drop_last() =~= v@.subrange(start as int, i as int));
            assert(t.last() == c);
            assert(hex_value(c) == Some(digit as nat));
        }
        if value > (u64::MAX - digit) / 16 {
            proof {
                assert(hex_digits_value(t) == value * 16 + digit);
                assert(value * 16 + digit > u64::MAX) by (nonlinear_arith)
                    requires
                        value > (u64::MAX - digit) / 16,
                        digit < 16,
                ;
                if all_hex(d) {
                    lemma_hex_value_grows(d, i + 1 - start);
                    assert(d.take(i + 1 - start) =~= t);
                }
            }
            return None;
        }
        assert(value * 16 + digit <= u64::MAX) by (nonlinear_arith)
            requires
                value <= (u64::MAX - digit) / 16,
                digit < 16,
        ;
        value = value * 16 + digit;
        i += 1;
    }
    assert(all_hex(d)) by {
        assert forall|j: int| 0 <= j < d.len() implies (#[trigger] hex_value(d[j])) is Some by {
            assert(d[j] == v@[start + j]);
        }
    }
    Some(value)
}

pub proof fn lemma_hex_value_grows(d: Seq<char>, i: int)
    requires
        0 <= i <= d.len(),
        all_hex(d),
    ensures
        hex_digits_value(d.take(i)) <= hex_digits_value(d),
    decreases d.len() - i,
{
    if i < d.len() {
        let t = d.take(i + 1);
        assert(t.drop_last() =~= d.take(i));
        assert(hex_value(t.last()) is Some);
        lemma_hex_value_grows(d, i + 1);
    } else {
        assert(d.take(i) =~= d);
    }
}

/// Whether the text `v` ends with `t`.
fn chars_end_with(v: &Vec<char>, t: &str) -> (r: bool)
    ensures
        r == ends_with(v@, t@),
{
    let w = chars_of(t);
    if w.len() > v.len() {
        return false;
    }
    matches_at_exec(v, &w, v.len() - w.len())
}

/// Whether `t` occurs in the text `v`.
fn chars_contain(v: &Vec<char>, t: &str) -> (r: bool)
    ensures
        r == contains_sub(v@, t@),
{
    let w = chars_of(t);
    contains_sub_exec(v, &w)
}

/// The region type as `maps_region_type` says.
pub fn maps_region_type_exec(mapped: &Option<Vec<char>>, perms: &Vec<char>) -> (r: MemoryRegionType)
    ensures
        r == maps_region_type(
            match mapped {
                Some(m) => Some(m@),
                None => None,
            },
            perms@,
        ),
{
    match mapped {
        Some(path) => {
            if chars_end_with(path, ".so") || chars_contain(path, ".so.") || chars_contain(path, "/lib/") {
                MemoryRegionType::Code
            } else if chars_contain(path, "[heap]") {
                MemoryRegionType::Heap
            } else if chars_contain(path, "[stack]") {
                MemoryRegionType::Stack
            } else if path.len() > 0 {
                MemoryRegionType::MappedFile
            } else {
                MemoryRegionType::Other
            }
        },
        None => {
            if crate::text::contains_char_exec(perms, 'x') {
                MemoryRegionType::Code
            } else {
                MemoryRegionType::Other
            }
        },
    }
}

/// The fields from `from` on joined by single spaces.
fn join_fields(parts: &Vec<Vec<char>>, from: usize) -> (r: Vec<char>)
    requires
        from <= parts@.len(),
    ensures
        r@ == joined_words(parts@.map_values(|p: Vec<char>| p@).subrange(from as int, parts@.len() as int)),
{
    let ghost words = parts@.map_values(|p: Vec<char>| p@);
    let mut out: Vec<char> = Vec::new();
    let mut i: usize = from;
    while i < parts.len()
        invariant
            from <= i <= parts@.len(),
            words == parts@.map_values(|p: Vec<char>| p@),
            out@ == joined_words(words.subrange(from as int, i as int)),
        decreases parts.len() - i,
    {
        proof {
            assert(words.subrange(from as int, i + 1).drop_last() =~= words.subrange(from as int, i as int));
        }
        if i > from {
            out.push(' ');
        }
        append_chars(&mut out, &parts[i]);
        assert(out@ =~= joined_words(words.subrange(from as int, i + 1)));
        i += 1;
    }
    out
}

/// What one line of a memory map says, as `maps_line` says; a region comes
/// with no name other than its file and is not dumped.
pub fn parse_maps_line(line: &Vec<char>) -> (r: Option<Result<MemoryRegionInfo, String>>)
    ensures
        match maps_line(line@) {
            None => r is None,
            Some(Err(())) => r matches Some(Err(_)),
            Some(Ok(f)) => r matches Some(Ok(g)) && region_fields(g) == f && opt_view(g.name) == opt_view(g.mapped_file)
                && !g.dumped && g.dump_path is None,
        },
{
    let parts = fields_exec(line);
    if parts.len() == 0 {
        return None;
    }
    let addrs = split_on_exec(&parts[0], '-');
    if addrs.len() != 2 {
        return None;
    }
    let start = match parse_hex_exec(&addrs[0]) {
        Some(a) => a,
        None => {
            let mut msg = chars_of("Failed to parse start address: ");
            append_chars(&mut msg, &addrs[0]);
            return Some(Err(string_of(&msg)));
        },
    };
    let end = match parse_hex_exec(&addrs[1]) {
        Some(a) => a,
        None => {
            let mut msg = chars_of("Failed to parse end address: ");
            append_chars(&mut msg, &addrs[1]);
            return Some(Err(string_of(&msg)));
        },
    };
    let perms: Vec<char> = if parts.len() > 1 { slice_of(&parts[1], 0, parts[1].len()) } else { Vec::new() };
    proof {
        if parts@.len() > 1 {
            assert(parts@[1]@.subrange(0, parts@[1]@.len() as int) =~= parts@[1]@);
        }
        assert(perms@ == (if fields_of(line@).len() > 1 { fields_of(line@)[1] } else { Seq::<char>::empty() }));
    }
    let mapped: Option<Vec<char>> = if parts.len() >= 6 { Some(join_fields(&parts, 5)) } else { None };
    proof {
        if parts@.len() >= 6 {
            assert(parts@.map_values(|p: Vec<char>| p@).subrange(5, parts@.len() as int) =~= fields_of(line@).subrange(5, fields_of(line@).len() as int));
        }
    }
    let region_type = maps_region_type_exec(&mapped, &perms);
    let protection = MemoryProtection {
        read: crate::text::contains_char_exec(&perms, 'r'),
        write: crate::text::contains_char_exec(&perms, 'w'),
        execute: crate::text::contains_char_exec(&perms, 'x'),
    };
    let mapped_file: Option<String> = match &mapped {
        Some(m) => Some(string_of(m)),
        None => None,
    };
    let name: Option<String> = match &mapped {
        Some(m) => Some(string_of(m)),
        None => None,
    };
    let size = end.wrapping_sub(start);
    assert(size == ((end - start) % 0x1_0000_0000_0000_0000) as u64);
    Some(Ok(MemoryRegionInfo {
        base_address: start,
        size,
        region_type,
        protection,
        name,
        mapped_file,
        dumped: false,
        dump_path: None,
    }))
}

/// The regions of a memory map, as `maps_regions` reads the lines of
/// `content`; fails where an address is not a hexadecimal number.
pub fn parse_memory_maps(content: &str) -> (r: Result<Vec<MemoryRegionInfo>, String>)
    ensures
        match maps_regions(lines_of(content@)) {
            Ok(f) => r matches Ok(v) && v@.len() == f.len() && forall|k: int|
                0 <= k < f.len() ==> region_fields(#[trigger] v@[k]) == f[k] && opt_view(v@[k].name) == opt_view(v@[k].mapped_file)
                    && !v@[k].dumped && v@[k].dump_path is None,
            Err(()) => r is Err,
        },
{
    let chars = chars_of(content);
    let lines = lines_exec(&chars);
    let ghost all = lines_of(content@);
    let mut out: Vec<MemoryRegionInfo> = Vec::new();
    let mut i: usize = 0;
    while i < lines.len()
        invariant
            i <= lines@.len(),
            all == lines_of(content@),
            lines@.len() == all.len(),
            forall|k: int| 0 <= k < lines@.len() ==> #[trigger] lines@[k]@ == all[k],
            maps_regions(all.take(i as int)) matches Ok(f) && out@.len() == f.len() && forall|k: int|
                0 <= k < f.len() ==> region_fields(#[trigger] out@[k]) == f[k] && opt_view(out@[k].name) == opt_view(out@[k].mapped_file)
                    && !out@[k].dumped && out@[k].dump_path is None,
        decreases lines.len() - i,
    {
        proof {
            assert(all.take(i + 1).drop_last() =~= all.take(i as int));
            assert(all.take(i + 1).last() == all[i as int]);
        }
        match parse_maps_line(&lines[i]) {
            None => {},
            Some(Ok(g)) => {
                out.push(g);
            },
            Some(Err(e)) => {
                proof {
                    lemma_maps_regions_err_sticks(all, i as int + 1);
                    assert(all.take(all.len() as int) =~= all);
                }
                return Err(e);
            },
        }
        i += 1;
    }
    assert(all.take(all.len() as int) =~= all);
    Ok(out)
}

/// Once a prefix of the lines fails to read, every longer prefix fails.
pub proof fn lemma_maps_regions_err_sticks(lines: Seq<Seq<char>>, i: int)
    requires
        0 <= i <= lines.len(),
        maps_regions(lines.take(i)) is Err,
    ensures
        maps_regions(lines) is Err,
    decreases lines.len() - i,
{
    if i < lines.len() {
        assert(lines.take(i + 1).drop_last() =~= lines.take(i));
        lemma_maps_regions_err_sticks(lines, i + 1);
    } else {
        assert(lines.take(i) =~= lines);
    }
}

/// The last component of a path, as `Path::file_name` finds it: none for a
/// path that ends in `..` or is a root.
pub uninterp spec fn path_file_name(path: Seq<char>) -> Option<Seq<char>>;

/// The last component of `path`.
///
/// Calls `Path::file_name`; its result is a function of the path alone,
/// named `path_file_name`.
#[verifier::external_body]
pub(crate) fn file_name_of(path: &str) -> (r: Option<String>)
    ensures
        match r {
            Some(n) => path_file_name(path@) == Some(n@),
            None => path_file_name(path@) is None,
        },
{
    match std::path::Path::new(path).file_name() {
        Some(n) => Some(n.to_string_lossy().to_string()),
        None => None,
    }
}

/// What a module record says: its name, base address, size and file.
pub type ModuleView = (Seq<char>, u64, u64, Seq<char>);

/// The view of a module record.
pub open spec fn module_view(m: ModuleInfo) -> ModuleView {
    (m.name@, m.base_address, m.size, m.path@)
}

/// Whether a mapped file is a loaded image: a shared library, or a file
/// under a `bin` or `lib` directory.
pub open spec fn is_module_path(path: Seq<char>) -> bool {
    ends_with(path, ".so"@) || contains_sub(path, ".so."@) || contains_sub(path, "/bin/"@) || contains_sub(
        path,
        "/lib/"@,
    )
}

/// What one line of a memory map says of a loaded image: `None` where the
/// line maps no image (fewer than six fields, a file that is no image, or
/// an address field that is not one range), `Some(Err(()))` where its
/// addresses are not hexadecimal numbers, and else its file, start and end.
pub open spec fn module_line(line: Seq<char>) -> Option<Result<(Seq<char>, u64, u64), ()>> {
    let parts = fields_of(line);
    if parts.len() < 6 {
        None
    } else {
        let path = joined_words(parts.subrange(5, parts.len() as int));
        if !is_module_path(path) {
            None
        } else {
            let addrs = split_on(parts[0], '-');
            if addrs.len() != 2 {
                None
            } else {
                match (parse_hex(addrs[0]), parse_hex(addrs[1])) {
                    (Some(start), Some(end)) => Some(Ok((path, start, end))),
                    _ => Some(Err(())),
                }
            }
        }
    }
}

/// The position of the module named `name` in `ms`, if any.
pub open spec fn module_position(ms: Seq<ModuleView>, name: Seq<char>) -> Option<int>
    decreases ms.len(),
{
    if ms.len() == 0 {
        None
    } else if ms.last().0 == name {
        Some(ms.len() - 1)
    } else {
        module_position(ms.drop_last(), name)
    }
}

/// `ms` with the module `m` taken in: a module of a new name is added at
/// the end; one whose name is known replaces the known one only where it
/// lies at a lower address.
pub open spec fn merge_module_view(ms: Seq<ModuleView>, m: ModuleView) -> Seq<ModuleView> {
    match module_position(ms, m.0) {
        Some(k) => if ms[k].1 <= m.1 {
            ms
        } else {
            ms.update(k, m)
        },
        None => ms.push(m),
    }
}

pub proof fn lemma_module_position_bound(ms: Seq<ModuleView>, name: Seq<char>)
    ensures
        module_position(ms, name) matches Some(k) ==> 0 <= k < ms.len() && ms[k].0 == name,
    decreases ms.len(),
{
    if ms.len() > 0 && ms.last().0 != name {
        lemma_module_position_bound(ms.drop_last(), name);
    }
}

/// Takes the module `m` into `modules`, as `merge_module_view` says; every
/// record kept is one of the records before or `m` itself.
pub fn merge_module(modules: &mut Vec<ModuleInfo>, m: ModuleInfo)
    ensures
        final(modules)@.map_values(|x: ModuleInfo| module_view(x)) == merge_module_view(
            old(modules)@.map_values(|x: ModuleInfo| module_view(x)),
            module_view(m),
        ),
        forall|k: int|
            0 <= k < final(modules)@.len() ==> #[trigger] final(modules)@[k] == m || old(modules)@.contains(
                final(modules)@[k],
            ),
{
    let ghost before = modules@.map_values(|x: ModuleInfo| module_view(x));
    let mut i: usize = modules.len();
    assert(before.subrange(0, modules@.len() as int) =~= before);
    while i > 0
        invariant
            i <= modules@.len(),
            modules@ == old(modules)@,
            before == old(modules)@.map_values(|x: ModuleInfo| module_view(x)),
            module_position(before, m.name@) == module_position(before.subrange(0, i as int), m.name@),
        decreases i,
    {
        proof {
            assert(before.subrange(0, i as int).last() == module_view(modules@[i - 1]));
            assert(before.subrange(0, i as int).drop_last() =~= before.subrange(0, i - 1));
        }
        if crate::text::str_eq(modules[i - 1].name.as_str(), m.name.as_str()) {
            proof {
                lemma_module_position_bound(before, m.name@);
            }
            if modules[i - 1].base_address <= m.base_address {
                return;
            }
            let ghost k = (i - 1) as int;
            modules.set(i - 1, m);
            assert(modules@.map_values(|x: ModuleInfo| module_view(x)) =~= before.update(k, module_view(m)));
            assert forall|j: int| 0 <= j < modules@.len() implies #[trigger] modules@[j] == m || old(
                modules,
            )@.contains(modules@[j]) by {
                if j != k {
                    assert(old(modules)@[j] == modules@[j]);
                }
            }
            return;
        }
        i -= 1;
    }
    modules.push(m);
    assert(modules@.map_values(|x: ModuleInfo| module_view(x)) =~= before.push(module_view(m)));
    assert forall|j: int| 0 <= j < modules@.len() implies #[trigger] modules@[j] == m || old(modules)@.contains(
        modules@[j],
    ) by {
        if j < old(modules)@.len() {
            assert(old(modules)@[j] == modules@[j]);
        }
    }
}

/// The loaded images that the lines `lines` list, merged as
/// `merge_module_view` says, or `Err` where an image line has addresses that
/// are not hexadecimal numbers.
pub open spec fn modules_of(lines: Seq<Seq<char>>) -> Result<Seq<ModuleView>, ()>
    decreases lines.len(),
{
    if lines.len() == 0 {
        Ok(Seq::empty())
    } else {
        match modules_of(lines.drop_last()) {
            Ok(ms) => match module_line(lines.last()) {
                None => Ok(ms),
                Some(Ok((path, start, end))) => Ok(merge_module_view(
                    ms,
                    (
                        match path_file_name(path) {
                            Some(n) => n,
                            None => Seq::<char>::empty(),
                        },
                        start,
                        ((end - start) % 0x1_0000_0000_0000_0000) as u64,
                        path,
                    ),
                )),
                Some(Err(())) => Err(()),
            },
            Err(()) => Err(()),
        }
    }
}

/// What one line says of a loaded image, as `module_line` says.
fn parse_module_line(line: &Vec<char>) -> (r: Option<Result<(Vec<char>, u64, u64), ()>>)
    ensures
        match module_line(line@) {
            None => r is None,
            Some(Err(())) => r matches Some(Err(_)),
            Some(Ok((path, start, end))) => r matches Some(Ok((p, s, e))) && p@ == path && s == start && e == end,
        },
{
    let parts = fields_exec(line);
    if parts.len() < 6 {
        return None;
    }
    let path = join_fields(&parts, 5);
    proof {
        assert(parts@.map_values(|p: Vec<char>| p@).subrange(5, parts@.len() as int) =~= fields_of(line@).subrange(5, fields_of(line@).len() as int));
    }
    if !(chars_end_with(&path, ".so") || chars_contain(&path, ".so.") || chars_contain(&path, "/bin/") || chars_contain(&path, "/lib/")) {
        return None;
    }
    let addrs = split_on_exec(&parts[0], '-');
    if addrs.len() != 2 {
        return None;
    }
    match (parse_hex_exec(&addrs[0]), parse_hex_exec(&addrs[1])) {
        (Some(s), Some(e)) => Some(Ok((path, s, e))),
        _ => Some(Err(())),
    }
}

/// The loaded images of a process whose `/proc/<pid>/maps` reads `content`,
/// as `modules_of` reads its lines, none with a version; fails where an
/// image line's addresses are not hexadecimal numbers.
pub fn parse_modules(content: &str) -> (r: Result<Vec<ModuleInfo>, String>)
    ensures
        match modules_of(lines_of(content@)) {
            Ok(ms) => r matches Ok(v) && v@.map_values(|x: ModuleInfo| module_view(x)) == ms,
            Err(()) => r is Err,
        },
        r matches Ok(v) ==> forall|k: int| 0 <= k < v@.len() ==> (#[trigger] v@[k]).version is None,
{
    let chars = chars_of(content);
    let lines = lines_exec(&chars);
    let ghost all = lines_of(content@);
    let mut out: Vec<ModuleInfo> = Vec::new();
    let mut i: usize = 0;
    assert(all.take(0) =~= Seq::<Seq<char>>::empty());
    assert(out@.map_values(|x: ModuleInfo| module_view(x)) =~= Seq::<ModuleView>::empty());
    while i < lines.len()
        invariant
            i <= lines@.len(),
            all == lines_of(content@),
            lines@.len() == all.len(),
            forall|k: int| 0 <= k < lines@.len() ==> #[trigger] lines@[k]@ == all[k],
            modules_of(all.take(i as int)) == Ok::<Seq<ModuleView>, ()>(out@.map_values(|x: ModuleInfo| module_view(x))),
            forall|k: int| 0 <= k < out@.len() ==> (#[trigger] out@[k]).version is None,
        decreases lines.len() - i,
    {
        proof {
            assert(all.take(i + 1).drop_last() =~= all.take(i as int));
            assert(all.take(i + 1).last() == all[i as int]);
        }
        match parse_module_line(&lines[i]) {
            None => {},
            Some(Ok((path, start, end))) => {
                let path_text = string_of(&path);
                let name = match file_name_of(path_text.as_str()) {
                    Some(n) => n,
                    None => String::new(),
                };
                let size = end.wrapping_sub(start);
                assert(size == ((end - start) % 0x1_0000_0000_0000_0000) as u64);
                let m = ModuleInfo { base_address: start, size, path: path_text, name, version: None };
                let ghost prev = out@;
                merge_module(&mut out, m);
                assert forall|k: int| 0 <= k < out@.len() implies (#[trigger] out@[k]).version is None by {
                    if out@[k] != m {
                        let j = choose|j: int| 0 <= j < prev.len() && prev[j] == out@[k];
                        assert(prev[j].version is None);
                    }
                }
            },
            Some(Err(())) => {
                proof {
                    lemma_modules_err_sticks(all, i as int + 1);
                }
                return Err(String::from_str("Failed to parse module address range"));
            },
        }
        i += 1;
    }
    assert(all.take(all.len() as int) =~= all);
    Ok(out)
}

/// Once a prefix of the lines fails to read, every longer prefix fails.
pub proof fn lemma_modules_err_sticks(lines: Seq<Seq<char>>, i: int)
    requires
        0 <= i <= lines.len(),
        modules_of(lines.take(i)) is Err,
    ensures
        modules_of(lines) is Err,
    decreases lines.len() - i,
{
    if i < lines.len() {
        assert(lines.take(i + 1).drop_last() =~= lines.take(i));
        lemma_modules_err_sticks(lines, i + 1);
    } else {
        assert(lines.take(i) =~= lines);
    }
}

} // verus!
