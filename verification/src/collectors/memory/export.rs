//! How the output of a memory collection is named and summarized: process
//! directories, region dump files, memory maps and process summaries.
use vstd::prelude::*;
use crate::collectors::memory::models::{
    MemoryRegionInfo, MemoryRegionType, ProcessMemoryInfo, ProcessSummary,
};
use crate::text::{chars_of, string_of, append_chars, append_str, decimal, decimal_exec, str_eq};
use crate::tokens::{hex, hex_exec};

verus! {

/// Writes the output of a memory collection under one directory.
#[derive(Debug, Clone)]
pub struct MemoryExporter {
    base_dir: String,
}

/// The name of the directory of a process: its name, `_` and its ID.
pub open spec fn process_dir_name_of(name: Seq<char>, pid: u32) -> Seq<char> {
    name + "_"@ + decimal(pid as nat)
}

/// The short name of a region type used in dump file names.
pub open spec fn dump_type_name(t: MemoryRegionType) -> Seq<char> {
    match t {
        MemoryRegionType::Heap => "heap"@,
        MemoryRegionType::Stack => "stack"@,
        MemoryRegionType::Code => "code"@,
        MemoryRegionType::MappedFile => "mapped"@,
        MemoryRegionType::Other => "other"@,
    }
}

/// The file a region is dumped to: its type, base address and size in
/// hexadecimal, such as `heap_1000_2000.dmp`.
pub open spec fn dump_file_name(t: MemoryRegionType, base_address: u64, size: u64) -> Seq<char> {
    dump_type_name(t) + "_"@ + hex(base_address as nat) + "_"@ + hex(size as nat) + ".dmp"@
}

/// How many regions of `regions` were dumped.
pub open spec fn dumped_count(regions: Seq<MemoryRegionInfo>) -> nat {
    regions.filter(|r: MemoryRegionInfo| r.dumped).len()
}

/// The summary of one process: its ID, name, region counts, sizes and status.
pub open spec fn summarizes(s: ProcessSummary, p: ProcessMemoryInfo) -> bool {
    &&& s.pid == p.pid
    &&& s.name == p.name
    &&& s.region_count == p.regions@.len()
    &&& s.regions_dumped == dumped_count(p.regions@)
    &&& s.total_memory_size == p.total_memory_size
    &&& s.dumped_memory_size == p.dumped_memory_size
    &&& s.status == p.status
}

/// `s` padded on the left with `c` to at least `w` characters.
pub open spec fn pad_left(s: Seq<char>, w: nat, c: char) -> Seq<char> {
    if s.len() >= w {
        s
    } else {
        Seq::new((w - s.len()) as nat, |i: int| c) + s
    }
}

/// `s` padded on the right with spaces to at least `w` characters.
pub open spec fn pad_right(s: Seq<char>, w: nat) -> Seq<char> {
    if s.len() >= w {
        s
    } else {
        s + Seq::new((w - s.len()) as nat, |i: int| ' ')
    }
}

/// The name of a region type in a memory map.
pub open spec fn map_type_name(t: MemoryRegionType) -> Seq<char> {
    match t {
        MemoryRegionType::Heap => "Heap"@,
        MemoryRegionType::Stack => "Stack"@,
        MemoryRegionType::Code => "Code"@,
        MemoryRegionType::MappedFile => "Mapped"@,
        MemoryRegionType::Other => "Other"@,
    }
}

/// The permissions of a region as `rwx`, with `-` for each one it lacks.
pub open spec fn permission_text(r: MemoryRegionInfo) -> Seq<char> {
    seq![
        if r.protection.read { 'r' } else { '-' },
        if r.protection.write { 'w' } else { '-' },
        if r.protection.execute { 'x' } else { '-' },
    ]
}

/// One line of a memory map: the address range in 16-digit hexadecimal, the
/// size right-aligned in 12 columns, the type and permissions left-aligned in
/// 10 and 12 columns, and the name.
pub open spec fn map_line(r: MemoryRegionInfo) -> Seq<char> {
    pad_left(hex(r.base_address as nat), 16, '0') + "-"@ + pad_left(hex((r.base_address + r.size) as nat), 16, '0')
        + " "@ + pad_left(decimal(r.size as nat), 12, ' ') + " "@ + pad_right(map_type_name(r.region_type), 10)
        + " "@ + pad_right(permission_text(r), 12) + " "@ + name_text(r.name) + "\n"@
}

/// The text of an optional name, empty when there is none.
pub open spec fn name_text(n: Option<String>) -> Seq<char> {
    match n {
        Some(s) => s@,
        None => Seq::<char>::empty(),
    }
}

/// The two header lines of a memory map.
pub open spec fn map_header() -> Seq<char> {
    "Address Range                Size       Type       Permissions  Name\n"@
        + "-------------------------- ------------ ---------- ------------ ----------------\n"@
}

/// The lines of `regions`, one after another.
pub open spec fn map_lines(regions: Seq<MemoryRegionInfo>) -> Seq<char>
    decreases regions.len(),
{
    if regions.len() == 0 {
        Seq::empty()
    } else {
        map_lines(regions.drop_last()) + map_line(regions.last())
    }
}

/// Appends `c` to `v` until `v` has grown by `n` characters.
fn push_repeated(v: &mut Vec<char>, c: char, n: usize)
    ensures
        final(v)@ == old(v)@ + Seq::new(n as nat, |i: int| c),
{
    let mut i: usize = 0;
    while i < n
        invariant
            i <= n,
            v@ == old(v)@ + Seq::new(i as nat, |k: int| c),
        decreases n - i,
    {
        v.push(c);
        i += 1;
        assert(v@ =~= old(v)@ + Seq::new(i as nat, |k: int| c));
    }
}

/// Appends `s` padded on the left with `c` to `w` characters.
fn push_padded_left(v: &mut Vec<char>, s: &Vec<char>, w: usize, c: char)
    ensures
        final(v)@ == old(v)@ + pad_left(s@, w as nat, c),
{
    if s.len() < w {
        push_repeated(v, c, w - s.len());
    }
    append_chars(v, s);
    assert(v@ =~= old(v)@ + pad_left(s@, w as nat, c));
}

/// Appends `s` padded on the right with spaces to `w` characters.
fn push_padded_right(v: &mut Vec<char>, s: &Vec<char>, w: usize)
    ensures
        final(v)@ == old(v)@ + pad_right(s@, w as nat),
{
    append_chars(v, s);
    if s.len() < w {
        push_repeated(v, ' ', w - s.len());
    }
    assert(v@ =~= old(v)@ + pad_right(s@, w as nat));
}

/// Appends the memory map line of `r`.
#[verifier::rlimit(40)]
fn push_map_line(v: &mut Vec<char>, r: &MemoryRegionInfo)
    requires
        r.base_address + r.size <= u64::MAX,
    ensures
        final(v)@ == old(v)@ + map_line(*r),
{
    proof {
        reveal_strlit("-");
        reveal_strlit(" ");
        reveal_strlit("\n");
    }
    let ghost o = v@;
    let start = hex_exec(r.base_address);
    push_padded_left(v, &start, 16, '0');
    let ghost a = pad_left(hex(r.base_address as nat), 16, '0');
    v.push('-');
    assert(v@ =~= o + (a + "-"@));
    let ghost a = a + "-"@;
    let end = hex_exec(r.base_address + r.size);
    push_padded_left(v, &end, 16, '0');
    assert(v@ =~= o + (a + pad_left(hex((r.base_address + r.size) as nat), 16, '0')));
    let ghost a = a + pad_left(hex((r.base_address + r.size) as nat), 16, '0');
    v.push(' ');
    assert(v@ =~= o + (a + " "@));
    let ghost a = a + " "@;
    let size = decimal_exec(r.size);
    push_padded_left(v, &size, 12, ' ');
    assert(v@ =~= o + (a + pad_left(decimal(r.size as nat), 12, ' ')));
    let ghost a = a + pad_left(decimal(r.size as nat), 12, ' ');
    v.push(' ');
    assert(v@ =~= o + (a + " "@));
    let ghost a = a + " "@;
    let kind = match r.region_type {
        MemoryRegionType::Heap => chars_of("Heap"),
        MemoryRegionType::Stack => chars_of("Stack"),
        MemoryRegionType::Code => chars_of("Code"),
        MemoryRegionType::MappedFile => chars_of("Mapped"),
        MemoryRegionType::Other => chars_of("Other"),
    };
    assert(kind@ == map_type_name(r.region_type));
    push_padded_right(v, &kind, 10);
    assert(v@ =~= o + (a + pad_right(map_type_name(r.region_type), 10)));
    let ghost a = a + pad_right(map_type_name(r.region_type), 10);
    v.push(' ');
    assert(v@ =~= o + (a + " "@));
    let ghost a = a + " "@;
    let mut perms: Vec<char> = Vec::new();
    perms.push(if r.protection.read { 'r' } else { '-' });
    perms.push(if r.protection.write { 'w' } else { '-' });
    perms.push(if r.protection.execute { 'x' } else { '-' });
    assert(perms@ =~= permission_text(*r));
    push_padded_right(v, &perms, 12);
    assert(v@ =~= o + (a + pad_right(permission_text(*r), 12)));
    let ghost a = a + pad_right(permission_text(*r), 12);
    v.push(' ');
    assert(v@ =~= o + (a + " "@));
    let ghost a = a + " "@;
    let ghost name = crate::collectors::memory::export::name_text(r.name);
    match &r.name {
        Some(n) => append_str(v, n.as_str()),
        None => {},
    }
    assert(v@ =~= o + (a + name));
    let ghost a = a + name;
    v.push('\n');
    assert(v@ =~= o + (a + "\n"@));
    assert(a + "\n"@ == map_line(*r));
}

impl MemoryExporter {
    /// The text of the memory map of `regions`: the header, then one line per
    /// region in order.
    pub fn memory_map_text(regions: &[MemoryRegionInfo]) -> (r: String)
        requires
            forall|k: int| 0 <= k < regions@.len() ==> #[trigger] regions@[k].base_address + regions@[k].size
                <= u64::MAX,
        ensures
            r@ == map_header() + map_lines(regions@),
    {
        let mut v = chars_of("Address Range                Size       Type       Permissions  Name\n");
        append_str(&mut v, "-------------------------- ------------ ---------- ------------ ----------------\n");
        let ghost head = v@;
        let mut i: usize = 0;
        while i < regions.len()
            invariant
                i <= regions@.len(),
                forall|k: int| 0 <= k < regions@.len() ==> #[trigger] regions@[k].base_address + regions@[k].size
                    <= u64::MAX,
                v@ == head + map_lines(regions@.take(i as int)),
            decreases regions.len() - i,
        {
            proof {
                assert(regions@.take(i + 1).drop_last() =~= regions@.take(i as int));
            }
            push_map_line(&mut v, &regions[i]);
            assert(v@ =~= head + map_lines(regions@.take(i + 1)));
            i += 1;
        }
        assert(regions@.take(regions@.len() as int) =~= regions@);
        string_of(&v)
    }

    /// The directory this exporter writes under.
    pub closed spec fn base(&self) -> Seq<char> {
        self.base_dir@
    }

    /// An exporter that writes under `base_dir`.
    pub fn new(base_dir: &str) -> (e: Self)
        ensures
            e.base() == base_dir@,
    {
        MemoryExporter { base_dir: String::from_str(base_dir) }
    }

    /// The directory this exporter writes under.
    pub fn base_dir(&self) -> (r: &str)
        ensures
            r@ == self.base(),
    {
        self.base_dir.as_str()
    }

    /// The name of the directory of process `pid` named `name`.
    pub fn process_dir_name(name: &str, pid: u32) -> (r: String)
        ensures
            r@ == process_dir_name_of(name@, pid),
    {
        let mut v = chars_of(name);
        v.push('_');
        let digits = decimal_exec(pid as u64);
        append_chars(&mut v, &digits);
        proof {
            reveal_strlit("_");
        }
        assert(v@ =~= process_dir_name_of(name@, pid));
        string_of(&v)
    }

    /// The file `region` is dumped to, as `dump_file_name` says.
    pub fn region_dump_file_name(region: &MemoryRegionInfo) -> (r: String)
        ensures
            r@ == dump_file_name(region.region_type, region.base_address, region.size),
    {
        let mut v: Vec<char> = Vec::new();
        match region.region_type {
            MemoryRegionType::Heap => append_str(&mut v, "heap"),
            MemoryRegionType::Stack => append_str(&mut v, "stack"),
            MemoryRegionType::Code => append_str(&mut v, "code"),
            MemoryRegionType::MappedFile => append_str(&mut v, "mapped"),
            MemoryRegionType::Other => append_str(&mut v, "other"),
        }
        v.push('_');
        let base = hex_exec(region.base_address);
        append_chars(&mut v, &base);
        v.push('_');
        let size = hex_exec(region.size);
        append_chars(&mut v, &size);
        append_str(&mut v, ".dmp");
        proof {
            reveal_strlit("_");
        }
        assert(v@ =~= dump_file_name(region.region_type, region.base_address, region.size));
        string_of(&v)
    }

    /// The summary of one process, as `summarizes` says.
    pub fn create_process_summary(process_info: &ProcessMemoryInfo) -> (s: ProcessSummary)
        ensures
            summarizes(s, *process_info),
    {
        let regions = &process_info.regions;
        let mut dumped: usize = 0;
        let mut i: usize = 0;
        while i < regions.len()
            invariant
                i <= regions@.len(),
                dumped == regions@.take(i as int).filter(|r: MemoryRegionInfo| r.dumped).len(),
                dumped <= i,
            decreases regions.len() - i,
        {
            proof {
                assert(regions@.take(i + 1) =~= regions@.take(i as int).push(regions@[i as int]));
                regions@.take(i as int).lemma_filter_push(regions@[i as int], |r: MemoryRegionInfo| r.dumped);
            }
            if regions[i].dumped {
                dumped += 1;
            }
            i += 1;
        }
        assert(regions@.take(regions@.len() as int) =~= regions@);
        ProcessSummary {
            pid: process_info.pid,
            name: process_info.name.clone(),
            region_count: regions.len(),
            regions_dumped: dumped,
            total_memory_size: process_info.total_memory_size,
            dumped_memory_size: process_info.dumped_memory_size,
            status: process_info.status.clone(),
        }
    }
}

/// The tallies of a memory collection: processes examined, collected,
/// skipped and failed, and the bytes dumped in all.
#[derive(Debug, Clone, Copy)]
pub struct CollectionCounts {
    pub processes_examined: usize,
    pub processes_collected: usize,
    pub processes_skipped: usize,
    pub processes_failed: usize,
    pub total_memory_collected: u64,
}

/// How many of `ps` have the status `status`.
pub open spec fn status_count(ps: Seq<ProcessMemoryInfo>, status: Seq<char>) -> nat {
    ps.filter(|p: ProcessMemoryInfo| p.status@ == status).len()
}

/// The bytes dumped from all of `ps`.
pub open spec fn dumped_total(ps: Seq<ProcessMemoryInfo>) -> nat
    decreases ps.len(),
{
    if ps.len() == 0 {
        0
    } else {
        dumped_total(ps.drop_last()) + ps.last().dumped_memory_size as nat
    }
}

/// The bytes dumped from a prefix are at most those dumped from all.
pub proof fn lemma_dumped_total_prefix(ps: Seq<ProcessMemoryInfo>, i: int)
    requires
        0 <= i <= ps.len(),
    ensures
        dumped_total(ps.take(i)) <= dumped_total(ps),
    decreases ps.len() - i,
{
    if i < ps.len() {
        lemma_dumped_total_prefix(ps, i + 1);
        assert(ps.take(i + 1).drop_last() =~= ps.take(i));
    } else {
        assert(ps.take(i) =~= ps);
    }
}

impl MemoryExporter {
    /// The tallies of a collection whose processes are `processes`: how
    /// many there are, how many have the status `Success`, `Skipped` and
    /// `Failed`, and the sum of their dumped sizes.
    pub fn collection_counts(processes: &[ProcessMemoryInfo]) -> (c: CollectionCounts)
        requires
            dumped_total(processes@) <= u64::MAX,
        ensures
            c.processes_examined == processes@.len(),
            c.processes_collected == status_count(processes@, "Success"@),
            c.processes_skipped == status_count(processes@, "Skipped"@),
            c.processes_failed == status_count(processes@, "Failed"@),
            c.total_memory_collected == dumped_total(processes@),
    {
        let mut collected: usize = 0;
        let mut skipped: usize = 0;
        let mut failed: usize = 0;
        let mut total: u64 = 0;
        let mut i: usize = 0;
        while i < processes.len()
            invariant
                i <= processes@.len(),
                dumped_total(processes@) <= u64::MAX,
                collected == status_count(processes@.take(i as int), "Success"@),
                skipped == status_count(processes@.take(i as int), "Skipped"@),
                failed == status_count(processes@.take(i as int), "Failed"@),
                collected <= i && skipped <= i && failed <= i,
                total == dumped_total(processes@.take(i as int)),
            decreases processes.len() - i,
        {
            let p = &processes[i];
            proof {
                let pre = processes@.take(i as int);
                assert(processes@.take(i + 1) =~= pre.push(processes@[i as int]));
                assert(processes@.take(i + 1).drop_last() =~= pre);
                pre.lemma_filter_push(processes@[i as int], |q: ProcessMemoryInfo| q.status@ == "Success"@);
                pre.lemma_filter_push(processes@[i as int], |q: ProcessMemoryInfo| q.status@ == "Skipped"@);
                pre.lemma_filter_push(processes@[i as int], |q: ProcessMemoryInfo| q.status@ == "Failed"@);
                lemma_dumped_total_prefix(processes@, i + 1);
            }
            if str_eq(p.status.as_str(), "Success") {
                collected += 1;
            }
            if str_eq(p.status.as_str(), "Skipped") {
                skipped += 1;
            }
            if str_eq(p.status.as_str(), "Failed") {
                failed += 1;
            }
            total = total + p.dumped_memory_size;
            i += 1;
        }
        assert(processes@.take(processes@.len() as int) =~= processes@);
        CollectionCounts {
            processes_examined: processes.len(),
            processes_collected: collected,
            processes_skipped: skipped,
            processes_failed: failed,
            total_memory_collected: total,
        }
    }

    /// The summaries of `processes`, each under its key `name_pid`, in the
    /// order of the processes (where two share a key, the later one stands
    /// in the summary map).
    pub fn process_summaries(processes: &[ProcessMemoryInfo]) -> (r: Vec<(String, ProcessSummary)>)
        ensures
            r@.len() == processes@.len(),
            forall|k: int|
                0 <= k < r@.len() ==> #[trigger] r@[k].0@ == process_dir_name_of(processes@[k].name@, processes@[k].pid)
                    && summarizes(r@[k].1, processes@[k]),
    {
        let mut r: Vec<(String, ProcessSummary)> = Vec::new();
        let mut i: usize = 0;
        while i < processes.len()
            invariant
                i <= processes@.len(),
                r@.len() == i,
                forall|k: int|
                    0 <= k < i ==> #[trigger] r@[k].0@ == process_dir_name_of(processes@[k].name@, processes@[k].pid)
                        && summarizes(r@[k].1, processes@[k]),
            decreases processes.len() - i,
        {
            let key = Self::process_dir_name(processes[i].name.as_str(), processes[i].pid);
            let summary = Self::create_process_summary(&processes[i]);
            r.push((key, summary));
            i += 1;
        }
        r
    }
}

} // verus!
