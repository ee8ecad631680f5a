//! Which processes and which memory regions a memory collection takes.
use vstd::prelude::*;
use crate::collectors::memory::models::{MemoryRegionInfo, MemoryRegionType};
use crate::text::{
    chars_of, string_of, str_eq, lowercase, to_lowercase, contains_sub, str_contains, starts_with,
    ends_with, str_starts_with, str_ends_with,
};
use crate::tokens::{split_on, split_on_exec, trim_ws, trim_ws_exec, parse_u32, parse_u32_exec};

verus! {

/// Which processes a memory collection takes.
#[derive(Debug, Clone)]
pub struct ProcessFilter {
    /// Names to take, matched as lowercase substrings (empty: no name filter).
    pub process_names: Vec<String>,
    /// Process IDs to take (empty: no ID filter).
    pub process_ids: Vec<u32>,
    /// Whether system processes are taken.
    pub include_system_processes: bool,
}

/// The texts of a list of strings.
pub open spec fn texts(v: Seq<String>) -> Seq<Seq<char>> {
    v.map_values(|s: String| s@)
}

/// The text of an optional string slice.
pub open spec fn opt_text(o: Option<&str>) -> Option<Seq<char>> {
    match o {
        Some(s) => Some(s@),
        None => None,
    }
}

/// The names in a comma-separated list, each trimmed of white space.
pub open spec fn names_from(list: Option<Seq<char>>) -> Seq<Seq<char>> {
    match list {
        Some(s) => split_on(s, ',').map_values(|p: Seq<char>| trim_ws(p)),
        None => Seq::empty(),
    }
}

/// The pieces that read as a `u32` once trimmed, read, in their order.
pub open spec fn parsed_ids(parts: Seq<Seq<char>>) -> Seq<u32>
    decreases parts.len(),
{
    if parts.len() == 0 {
        Seq::empty()
    } else {
        let rest = parsed_ids(parts.drop_last());
        match parse_u32(trim_ws(parts.last())) {
            Some(v) => rest.push(v),
            None => rest,
        }
    }
}

/// The process IDs in a comma-separated list; pieces that are not IDs are left out.
pub open spec fn ids_from(list: Option<Seq<char>>) -> Seq<u32> {
    match list {
        Some(s) => parsed_ids(split_on(s, ',')),
        None => Seq::empty(),
    }
}

/// The names recognized as system processes.
pub open spec fn system_process_names() -> Seq<Seq<char>> {
    seq![
        "system"@, "smss"@, "csrss"@, "wininit"@, "services"@, "lsass"@, "svchost"@, "winlogon"@,
        "explorer"@, "dwm"@, "fontdrvhost"@, "runtimebroker"@, "systemd"@, "init"@, "kernel"@,
    ]
}

/// The number of bytes `c` takes in UTF-8.
pub open spec fn utf8_width(c: char) -> nat {
    if (c as u32) < 0x80 {
        1
    } else if (c as u32) < 0x800 {
        2
    } else if (c as u32) < 0x10000 {
        3
    } else {
        4
    }
}

/// The number of bytes `s` takes in UTF-8, as `str::len` counts them.
pub open spec fn utf8_len(s: Seq<char>) -> nat
    decreases s.len(),
{
    if s.len() == 0 {
        0
    } else {
        utf8_len(s.drop_last()) + utf8_width(s.last())
    }
}

/// Whether `s` takes at most `n` bytes in UTF-8.
fn utf8_len_at_most(s: &str, n: usize) -> (r: bool)
    ensures
        r == (utf8_len(s@) <= n),
{
    let v = chars_of(s);
    let mut total: usize = 0;
    let mut i: usize = 0;
    while i < v.len()
        invariant
            i <= v.len(),
            v@ == s@,
            total == utf8_len(v@.take(i as int)),
            total <= n,
        decreases v.len() - i,
    {
        let c = v[i];
        let w: usize = if (c as u32) < 0x80 {
            1
        } else if (c as u32) < 0x800 {
            2
        } else if (c as u32) < 0x10000 {
            3
        } else {
            4
        };
        proof {
            assert(v@.take(i + 1).drop_last() =~= v@.take(i as int));
        }
        if w > n - total {
            proof {
                lemma_utf8_len_prefix(v@, i + 1);
            }
            return false;
        }
        total = total + w;
        i += 1;
    }
    assert(v@.take(v.len() as int) =~= v@);
    true
}

pub proof fn lemma_utf8_len_prefix(s: Seq<char>, i: int)
    requires
        0 <= i <= s.len(),
    ensures
        utf8_len(s.take(i)) <= utf8_len(s),
    decreases s.len() - i,
{
    if i < s.len() {
        assert(s.take(i + 1).drop_last() =~= s.take(i));
        lemma_utf8_len_prefix(s, i + 1);
    } else {
        assert(s.take(i) =~= s);
    }
}

/// Whether a process with ID `pid` and lowercase name `lower` counts as a
/// system process: a known system name, a name that begins with "system", a
/// daemon-like name (ending in "d", at most 8 bytes long), or an ID below 10.
pub open spec fn is_system(pid: u32, lower: Seq<char>) -> bool {
    ||| system_process_names().contains(lower)
    ||| starts_with(lower, "system"@)
    ||| (ends_with(lower, "d"@) && utf8_len(lower) <= 8)
    ||| pid < 10
}

/// Whether one of the lowercase filter names occurs in the lowercase name.
pub open spec fn name_listed(lower_name: Seq<char>, lower_filters: Seq<Seq<char>>) -> bool {
    exists|k: int| 0 <= k < lower_filters.len() && contains_sub(lower_name, #[trigger] lower_filters[k])
}

/// Whether `f` takes the process `pid` whose lowercase name is `lower_name`,
/// given the lowercase forms `lower_filters` of its filter names: never a
/// system process unless those are included; otherwise every process when
/// there are no filters, and else those whose name holds a filter name or
/// whose ID is listed.
pub open spec fn lowered_matches(
    f: ProcessFilter,
    pid: u32,
    lower_name: Seq<char>,
    lower_filters: Seq<Seq<char>>,
) -> bool {
    if is_system(pid, lower_name) && !f.include_system_processes {
        false
    } else if f.process_names@.len() == 0 && f.process_ids@.len() == 0 {
        true
    } else if f.process_names@.len() > 0 && name_listed(lower_name, lower_filters) {
        true
    } else {
        f.process_ids@.contains(pid)
    }
}

/// Whether `f` takes the process `pid` named `name`.
pub open spec fn process_matches(f: ProcessFilter, pid: u32, name: Seq<char>) -> bool {
    lowered_matches(
        f,
        pid,
        lowercase(name),
        texts(f.process_names@).map_values(|n: Seq<char>| lowercase(n)),
    )
}

/// The names of a comma-separated list, trimmed.
fn names_list(s: &str) -> (r: Vec<String>)
    ensures
        texts(r@) == split_on(s@, ',').map_values(|p: Seq<char>| trim_ws(p)),
{
    let chars = chars_of(s);
    let parts = split_on_exec(&chars, ',');
    let mut r: Vec<String> = Vec::new();
    let mut i: usize = 0;
    while i < parts.len()
        invariant
            i <= parts@.len(),
            parts@.len() == split_on(s@, ',').len(),
            forall|k: int| 0 <= k < parts@.len() ==> #[trigger] parts@[k]@ == split_on(s@, ',')[k],
            r@.len() == i,
            forall|k: int| 0 <= k < i ==> #[trigger] r@[k]@ == trim_ws(split_on(s@, ',')[k]),
        decreases parts.len() - i,
    {
        let t = trim_ws_exec(&parts[i]);
        r.push(string_of(&t));
        i += 1;
    }
    assert(texts(r@) =~= split_on(s@, ',').map_values(|p: Seq<char>| trim_ws(p)));
    r
}

/// The process IDs of a comma-separated list.
fn ids_list(s: &str) -> (r: Vec<u32>)
    ensures
        r@ == parsed_ids(split_on(s@, ',')),
{
    let chars = chars_of(s);
    let parts = split_on_exec(&chars, ',');
    let ghost whole = split_on(s@, ',');
    let mut r: Vec<u32> = Vec::new();
    let mut i: usize = 0;
    while i < parts.len()
        invariant
            i <= parts@.len(),
            parts@.len() == whole.len(),
            forall|k: int| 0 <= k < parts@.len() ==> #[trigger] parts@[k]@ == whole[k],
            r@ == parsed_ids(whole.take(i as int)),
        decreases parts.len() - i,
    {
        proof {
            assert(whole.take(i + 1).drop_last() =~= whole.take(i as int));
            assert(whole.take(i + 1).last() == whole[i as int]);
        }
        let t = trim_ws_exec(&parts[i]);
        match parse_u32_exec(&t) {
            Some(v) => r.push(v),
            None => {},
        }
        i += 1;
    }
    assert(whole.take(parts@.len() as int) =~= whole);
    r
}

impl ProcessFilter {
    /// A filter with the given names, IDs and system-process setting.
    pub fn new(process_names: Vec<String>, process_ids: Vec<u32>, include_system_processes: bool) -> (f: Self)
        ensures
            f.process_names == process_names,
            f.process_ids == process_ids,
            f.include_system_processes == include_system_processes,
    {
        ProcessFilter { process_names, process_ids, include_system_processes }
    }

    /// A filter from command-line arguments: comma-separated names (each
    /// trimmed) and comma-separated IDs (pieces that are not IDs are left out).
    pub fn from_args(
        process_names_str: Option<&str>,
        process_ids_str: Option<&str>,
        include_system_processes: bool,
    ) -> (f: Self)
        ensures
            texts(f.process_names@) == names_from(opt_text(process_names_str)),
            f.process_ids@ == ids_from(opt_text(process_ids_str)),
            f.include_system_processes == include_system_processes,
    {
        let process_names = match process_names_str {
            Some(s) => names_list(s),
            None => Vec::new(),
        };
        let process_ids = match process_ids_str {
            Some(s) => ids_list(s),
            None => Vec::new(),
        };
        proof {
            if process_names_str is None {
                assert(texts(process_names@) =~= Seq::<Seq<char>>::empty());
            }
        }
        Self::new(process_names, process_ids, include_system_processes)
    }

    /// Whether a process with ID `pid` and lowercase name `name_lower` is a
    /// system process, as `is_system` says.
    pub fn is_system_process(pid: u32, name_lower: &str) -> (r: bool)
        ensures
            r == is_system(pid, name_lower@),
    {
        proof {
            reveal_strlit("system");
            reveal_strlit("smss");
            reveal_strlit("csrss");
            reveal_strlit("wininit");
            reveal_strlit("services");
            reveal_strlit("lsass");
            reveal_strlit("svchost");
            reveal_strlit("winlogon");
            reveal_strlit("explorer");
            reveal_strlit("dwm");
            reveal_strlit("fontdrvhost");
            reveal_strlit("runtimebroker");
            reveal_strlit("systemd");
            reveal_strlit("init");
            reveal_strlit("kernel");
        }
        let known = str_eq(name_lower, "system") || str_eq(name_lower, "smss") || str_eq(
            name_lower,
            "csrss",
        ) || str_eq(name_lower, "wininit") || str_eq(name_lower, "services") || str_eq(
            name_lower,
            "lsass",
        ) || str_eq(name_lower, "svchost") || str_eq(name_lower, "winlogon") || str_eq(
            name_lower,
            "explorer",
        ) || str_eq(name_lower, "dwm") || str_eq(name_lower, "fontdrvhost") || str_eq(
            name_lower,
            "runtimebroker",
        ) || str_eq(name_lower, "systemd") || str_eq(name_lower, "init") || str_eq(
            name_lower,
            "kernel",
        );
        assert(known == system_process_names().contains(name_lower@)) by {
            let l = system_process_names();
            if known {
                assert(l.contains(name_lower@)) by {
                    if name_lower@ == "system"@ { assert(l[0] == name_lower@); }
                    else if name_lower@ == "smss"@ { assert(l[1] == name_lower@); }
                    else if name_lower@ == "csrss"@ { assert(l[2] == name_lower@); }
                    else if name_lower@ == "wininit"@ { assert(l[3] == name_lower@); }
                    else if name_lower@ == "services"@ { assert(l[4] == name_lower@); }
                    else if name_lower@ == "lsass"@ { assert(l[5] == name_lower@); }
                    else if name_lower@ == "svchost"@ { assert(l[6] == name_lower@); }
                    else if name_lower@ == "winlogon"@ { assert(l[7] == name_lower@); }
                    else if name_lower@ == "explorer"@ { assert(l[8] == name_lower@); }
                    else if name_lower@ == "dwm"@ { assert(l[9] == name_lower@); }
                    else if name_lower@ == "fontdrvhost"@ { assert(l[10] == name_lower@); }
                    else if name_lower@ == "runtimebroker"@ { assert(l[11] == name_lower@); }
                    else if name_lower@ == "systemd"@ { assert(l[12] == name_lower@); }
                    else if name_lower@ == "init"@ { assert(l[13] == name_lower@); }
                    else { assert(l[14] == name_lower@); }
                }
            }
        }
        let prefixed = str_starts_with(name_lower, "system");
        let daemon = str_ends_with(name_lower, "d") && utf8_len_at_most(name_lower, 8);
        known || prefixed || daemon || pid < 10
    }

    /// Whether this filter takes the process `pid` whose lowercase name is
    /// `name_lower`, given the lowercase forms `names_lower` of the filter names.
    pub fn matches_lowercase(&self, pid: u32, name_lower: &str, names_lower: &Vec<String>) -> (r: bool)
        ensures
            r == lowered_matches(*self, pid, name_lower@, texts(names_lower@)),
    {
        if Self::is_system_process(pid, name_lower) && !self.include_system_processes {
            return false;
        }
        if self.process_names.len() == 0 && self.process_ids.len() == 0 {
            return true;
        }
        let ghost allowed = !(is_system(pid, name_lower@) && !self.include_system_processes) && !(
        self.process_names@.len() == 0 && self.process_ids@.len() == 0);
        if self.process_names.len() > 0 {
            let mut k: usize = 0;
            while k < names_lower.len()
                invariant
                    allowed,
                    allowed == (!(is_system(pid, name_lower@) && !self.include_system_processes) && !(
                    self.process_names@.len() == 0 && self.process_ids@.len() == 0)),
                    self.process_names@.len() > 0,
                    k <= names_lower@.len(),
                    forall|j: int| 0 <= j < k ==> !contains_sub(name_lower@, #[trigger] texts(names_lower@)[j]),
                decreases names_lower.len() - k,
            {
                if str_contains(name_lower, names_lower[k].as_str()) {
                    assert(contains_sub(name_lower@, texts(names_lower@)[k as int]));
                    return true;
                }
                k += 1;
            }
        }
        let mut j: usize = 0;
        while j < self.process_ids.len()
            invariant
                allowed,
                allowed == (!(is_system(pid, name_lower@) && !self.include_system_processes) && !(
                self.process_names@.len() == 0 && self.process_ids@.len() == 0)),
                !(self.process_names@.len() > 0 && name_listed(name_lower@, texts(names_lower@))),
                j <= self.process_ids@.len(),
                forall|m: int| 0 <= m < j ==> self.process_ids@[m] != pid,
            decreases self.process_ids.len() - j,
        {
            if self.process_ids[j] == pid {
                assert(self.process_ids@[j as int] == pid);
                return true;
            }
            j += 1;
        }
        false
    }

    /// Whether this filter takes the process `pid` named `name`: names are
    /// compared in lowercase.
    pub fn matches(&self, pid: u32, name: &str) -> (r: bool)
        ensures
            r == process_matches(*self, pid, name@),
    {
        let name_lower = to_lowercase(name);
        let mut names_lower: Vec<String> = Vec::new();
        let mut i: usize = 0;
        while i < self.process_names.len()
            invariant
                i <= self.process_names@.len(),
                names_lower@.len() == i,
                forall|k: int| 0 <= k < i ==> #[trigger] names_lower@[k]@ == lowercase(self.process_names@[k]@),
            decreases self.process_names.len() - i,
        {
            let lower = to_lowercase(self.process_names[i].as_str());
            names_lower.push(lower);
            i += 1;
        }
        assert(texts(names_lower@) =~= texts(self.process_names@).map_values(|n: Seq<char>| lowercase(n)));
        self.matches_lowercase(pid, name_lower.as_str(), &names_lower)
    }
}

/// Which memory regions a memory collection takes.
#[derive(Debug, Clone)]
pub struct MemoryRegionFilter {
    /// Region types to take, each at most once.
    pub region_types: Vec<MemoryRegionType>,
    /// Smallest region size taken, in bytes.
    pub min_size: u64,
    /// Largest region size taken, in bytes (0: no limit).
    pub max_size: u64,
}

/// `s` with each element kept only where it first occurs.
pub open spec fn dedup_types(s: Seq<MemoryRegionType>) -> Seq<MemoryRegionType>
    decreases s.len(),
{
    if s.len() == 0 {
        Seq::empty()
    } else {
        let d = dedup_types(s.drop_last());
        if d.contains(s.last()) {
            d
        } else {
            d.push(s.last())
        }
    }
}

/// The region type a lowercase name stands for: "heap", "stack", "code",
/// "mapped" or "mappedfile", and "other".
pub open spec fn region_type_for(lower: Seq<char>) -> Option<MemoryRegionType> {
    if lower == "heap"@ {
        Some(MemoryRegionType::Heap)
    } else if lower == "stack"@ {
        Some(MemoryRegionType::Stack)
    } else if lower == "code"@ {
        Some(MemoryRegionType::Code)
    } else if lower == "mapped"@ || lower == "mappedfile"@ {
        Some(MemoryRegionType::MappedFile)
    } else if lower == "other"@ {
        Some(MemoryRegionType::Other)
    } else {
        None
    }
}

/// Every region type.
pub open spec fn all_region_types() -> Seq<MemoryRegionType> {
    seq![
        MemoryRegionType::Heap,
        MemoryRegionType::Stack,
        MemoryRegionType::Code,
        MemoryRegionType::MappedFile,
        MemoryRegionType::Other,
    ]
}

/// The region types named by the pieces of a list, each trimmed and
/// lowercased; pieces that name none are left out.
pub open spec fn named_types(parts: Seq<Seq<char>>) -> Seq<MemoryRegionType>
    decreases parts.len(),
{
    if parts.len() == 0 {
        Seq::empty()
    } else {
        let rest = named_types(parts.drop_last());
        match region_type_for(lowercase(trim_ws(parts.last()))) {
            Some(t) => rest.push(t),
            None => rest,
        }
    }
}

/// The region types named by a comma-separated list: every type for "all"
/// in any case, else those its pieces name.
pub open spec fn region_types_named(s: Seq<char>) -> Seq<MemoryRegionType> {
    if lowercase(s) == "all"@ {
        all_region_types()
    } else {
        named_types(split_on(s, ','))
    }
}

/// Whether `f` takes `region`: its type is listed and its size lies within
/// the limits.
pub open spec fn region_selected(f: MemoryRegionFilter, region: MemoryRegionInfo) -> bool {
    &&& f.region_types@.contains(region.region_type)
    &&& region.size >= f.min_size
    &&& (f.max_size == 0 || region.size <= f.max_size)
}

/// Whether `t` is in `v`.
fn has_type(v: &Vec<MemoryRegionType>, t: MemoryRegionType) -> (r: bool)
    ensures
        r == v@.contains(t),
{
    let mut i: usize = 0;
    while i < v.len()
        invariant
            i <= v@.len(),
            forall|j: int| 0 <= j < i ==> v@[j] != t,
        decreases v.len() - i,
    {
        if v[i] == t {
            assert(v@[i as int] == t);
            return true;
        }
        i += 1;
    }
    false
}

/// The region type a lowercase name stands for, as `region_type_for` says.
pub fn region_type_from_name(lower: &str) -> (r: Option<MemoryRegionType>)
    ensures
        r == region_type_for(lower@),
{
    if str_eq(lower, "heap") {
        Some(MemoryRegionType::Heap)
    } else if str_eq(lower, "stack") {
        Some(MemoryRegionType::Stack)
    } else if str_eq(lower, "code") {
        Some(MemoryRegionType::Code)
    } else if str_eq(lower, "mapped") || str_eq(lower, "mappedfile") {
        Some(MemoryRegionType::MappedFile)
    } else if str_eq(lower, "other") {
        Some(MemoryRegionType::Other)
    } else {
        None
    }
}

impl MemoryRegionFilter {
    /// A filter for the given types (each kept once, where it first occurs)
    /// and size limits.
    pub fn new(region_types: Vec<MemoryRegionType>, min_size: u64, max_size: u64) -> (f: Self)
        ensures
            f.region_types@ == dedup_types(region_types@),
            f.min_size == min_size,
            f.max_size == max_size,
    {
        let mut kept: Vec<MemoryRegionType> = Vec::new();
        let mut i: usize = 0;
        while i < region_types.len()
            invariant
                i <= region_types@.len(),
                kept@ == dedup_types(region_types@.take(i as int)),
            decreases region_types.len() - i,
        {
            proof {
                assert(region_types@.take(i + 1).drop_last() =~= region_types@.take(i as int));
            }
            let t = region_types[i];
            if !has_type(&kept, t) {
                kept.push(t);
            }
            i += 1;
        }
        assert(region_types@.take(region_types@.len() as int) =~= region_types@);
        MemoryRegionFilter { region_types: kept, min_size, max_size }
    }

    /// A filter from a comma-separated list of region type names ("all" for
    /// every type), as `region_types_named` reads it.
    pub fn from_str(region_types_str: &str, min_size: u64, max_size: u64) -> (f: Self)
        ensures
            f.region_types@ == dedup_types(region_types_named(region_types_str@)),
            f.min_size == min_size,
            f.max_size == max_size,
    {
        let whole = to_lowercase(region_types_str);
        let mut types: Vec<MemoryRegionType> = Vec::new();
        if str_eq(whole.as_str(), "all") {
            types.push(MemoryRegionType::Heap);
            types.push(MemoryRegionType::Stack);
            types.push(MemoryRegionType::Code);
            types.push(MemoryRegionType::MappedFile);
            types.push(MemoryRegionType::Other);
            assert(types@ =~= all_region_types());
        } else {
            let chars = chars_of(region_types_str);
            let parts = split_on_exec(&chars, ',');
            let ghost pieces = split_on(region_types_str@, ',');
            let mut i: usize = 0;
            while i < parts.len()
                invariant
                    i <= parts@.len(),
                    parts@.len() == pieces.len(),
                    forall|k: int| 0 <= k < parts@.len() ==> #[trigger] parts@[k]@ == pieces[k],
                    types@ == named_types(pieces.take(i as int)),
                decreases parts.len() - i,
            {
                proof {
                    assert(pieces.take(i + 1).drop_last() =~= pieces.take(i as int));
                    assert(pieces.take(i + 1).last() == pieces[i as int]);
                }
                let trimmed = string_of(&trim_ws_exec(&parts[i]));
                let lower = to_lowercase(trimmed.as_str());
                match region_type_from_name(lower.as_str()) {
                    Some(t) => types.push(t),
                    None => {},
                }
                i += 1;
            }
            assert(pieces.take(parts@.len() as int) =~= pieces);
        }
        Self::new(types, min_size, max_size)
    }

    /// Whether this filter takes `region`, as `region_selected` says.
    pub fn matches(&self, region: &MemoryRegionInfo) -> (r: bool)
        ensures
            r == region_selected(*self, *region),
    {
        if !has_type(&self.region_types, region.region_type) {
            return false;
        }
        if region.size < self.min_size || (self.max_size > 0 && region.size > self.max_size) {
            return false;
        }
        true
    }
}

} // verus!
