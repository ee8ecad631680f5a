//! The decisions of a memory collection: which processes and regions it
//! takes, when a process is skipped, what is recorded of each process, and
//! when the collection stops.
use vstd::prelude::*;
use crate::constants::{DEFAULT_MAX_PROCESS_MEMORY, DEFAULT_MAX_TOTAL_MEMORY, MIN_DUMP_REGION_SIZE, DEFAULT_MIN_REGION_SIZE};
use crate::collectors::memory::models::{
    MemoryCollectionOptions, MemoryRegionInfo, ModuleInfo, ProcessMemoryInfo,
};
use crate::collectors::memory::filters::{
    MemoryRegionFilter, ProcessFilter, process_matches, region_selected, texts, names_from, ids_from,
    opt_text, dedup_types, region_types_named,
};
use crate::collectors::memory::export::{MemoryExporter, dump_file_name};

verus! {

/// What a memory collection reads of a running process.
#[derive(Debug, Clone)]
pub struct ProcessIdentity {
    pub pid: u32,
    pub name: String,
    /// The command line, its arguments joined by spaces.
    pub command_line: String,
    /// The executable, if known.
    pub path: Option<String>,
    pub start_time: u64,
    pub parent_pid: Option<u32>,
}

/// The words of a command line joined by single spaces.
pub open spec fn joined_words(words: Seq<Seq<char>>) -> Seq<char>
    decreases words.len(),
{
    if words.len() == 0 {
        Seq::empty()
    } else if words.len() == 1 {
        words[0]
    } else {
        joined_words(words.drop_last()) + seq![' '] + words.last()
    }
}

/// The words of a command line joined by single spaces, as `joined_words` says.
pub fn join_words(words: &[String]) -> (r: String)
    ensures
        r@ == joined_words(texts(words@)),
{
    let mut out: Vec<char> = Vec::new();
    let mut i: usize = 0;
    while i < words.len()
        invariant
            i <= words@.len(),
            out@ == joined_words(texts(words@.take(i as int))),
        decreases words.len() - i,
    {
        proof {
            assert(texts(words@.take(i + 1)).drop_last() =~= texts(words@.take(i as int)));
        }
        if i > 0 {
            out.push(' ');
        }
        let w = crate::text::chars_of(words[i].as_str());
        crate::text::append_chars(&mut out, &w);
        assert(out@ =~= joined_words(texts(words@.take(i + 1))));
        i += 1;
    }
    assert(words@.take(words@.len() as int) =~= words@);
    crate::text::string_of(&out)
}

/// The sum of the sizes of `regions`.
pub open spec fn region_sum(regions: Seq<MemoryRegionInfo>) -> nat
    decreases regions.len(),
{
    if regions.len() == 0 {
        0
    } else {
        (region_sum(regions.drop_last()) + regions.last().size) as nat
    }
}

/// The positions of the processes of `ps` that `f` takes, in order.
pub open spec fn selected_positions(f: ProcessFilter, ps: Seq<ProcessIdentity>) -> Seq<usize>
    decreases ps.len(),
{
    if ps.len() == 0 {
        Seq::empty()
    } else {
        let rest = selected_positions(f, ps.drop_last());
        if process_matches(f, ps.last().pid, ps.last().name@) {
            rest.push((ps.len() - 1) as usize)
        } else {
            rest
        }
    }
}

/// The record of a process whose memory was not collected.
pub open spec fn is_unfinished_record(
    p: ProcessMemoryInfo,
    id: ProcessIdentity,
    collection_time: Seq<char>,
    status: Seq<char>,
) -> bool {
    &&& p.pid == id.pid
    &&& p.name == id.name
    &&& p.command_line == Some(id.command_line)
    &&& p.path == id.path
    &&& p.start_time == id.start_time
    &&& p.user is None
    &&& p.parent_pid == id.parent_pid
    &&& p.dumped_memory_size == 0
    &&& p.collection_time@ == collection_time
    &&& p.status@ == status
}

/// A memory collection: its options and its process and region filters.
#[derive(Debug, Clone)]
pub struct MemoryCollector {
    pub options: MemoryCollectionOptions,
    pub process_filter: ProcessFilter,
    pub region_filter: MemoryRegionFilter,
}

/// A copy of a list of strings.
fn copy_strings(v: &Vec<String>) -> (r: Vec<String>)
    ensures
        r@ == v@,
{
    let mut r: Vec<String> = Vec::new();
    let mut i: usize = 0;
    while i < v.len()
        invariant
            i <= v@.len(),
            r@ == v@.take(i as int),
        decreases v.len() - i,
    {
        r.push(v[i].clone());
        assert(r@ =~= v@.take(i + 1));
        i += 1;
    }
    assert(v@.take(v@.len() as int) =~= v@);
    r
}

/// A copy of a list of IDs.
fn copy_ids(v: &Vec<u32>) -> (r: Vec<u32>)
    ensures
        r@ == v@,
{
    let mut r: Vec<u32> = Vec::new();
    let mut i: usize = 0;
    while i < v.len()
        invariant
            i <= v@.len(),
            r@ == v@.take(i as int),
        decreases v.len() - i,
    {
        r.push(v[i]);
        assert(r@ =~= v@.take(i + 1));
        i += 1;
    }
    assert(v@.take(v@.len() as int) =~= v@);
    r
}

impl MemoryCollector {
    /// A collection with the given options and filters.
    pub fn new(options: MemoryCollectionOptions, process_filter: ProcessFilter, region_filter: MemoryRegionFilter) -> (c: Self)
        ensures
            c.options == options,
            c.process_filter == process_filter,
            c.region_filter == region_filter,
    {
        MemoryCollector { options, process_filter, region_filter }
    }

    /// A collection from command-line arguments: the process names and IDs
    /// as `ProcessFilter::from_args` reads them, at most `max_memory_size_mb`
    /// MiB in all and the default limit per process, and regions of at least
    /// 4 KiB and at most the default total limit whose types
    /// `MemoryRegionFilter::from_str` reads from `memory_regions`.
    pub fn from_args(
        process_names: Option<&str>,
        process_ids: Option<&str>,
        include_system_processes: bool,
        max_memory_size_mb: usize,
        memory_regions: &str,
    ) -> (c: Self)
        requires
            max_memory_size_mb * 1048576 <= u64::MAX,
        ensures
            texts(c.process_filter.process_names@) == names_from(opt_text(process_names)),
            c.process_filter.process_ids@ == ids_from(opt_text(process_ids)),
            c.process_filter.include_system_processes == include_system_processes,
            c.region_filter.region_types@ == dedup_types(region_types_named(memory_regions@)),
            c.region_filter.min_size == DEFAULT_MIN_REGION_SIZE,
            c.region_filter.max_size == DEFAULT_MAX_TOTAL_MEMORY,
            c.options.max_total_size == max_memory_size_mb * 1048576,
            c.options.max_process_size == DEFAULT_MAX_PROCESS_MEMORY,
            c.options.include_system_processes == include_system_processes,
            c.options.process_filters@ == c.process_filter.process_names@,
            c.options.pid_filters@ == c.process_filter.process_ids@,
            c.options.region_types@ == c.region_filter.region_types@,
    {
        let process_filter = ProcessFilter::from_args(process_names, process_ids, include_system_processes);
        let region_filter = MemoryRegionFilter::from_str(
            memory_regions,
            DEFAULT_MIN_REGION_SIZE,
            DEFAULT_MAX_TOTAL_MEMORY,
        );
        let mut region_types = Vec::new();
        let mut i: usize = 0;
        while i < region_filter.region_types.len()
            invariant
                i <= region_filter.region_types@.len(),
                region_types@ == region_filter.region_types@.take(i as int),
            decreases region_filter.region_types.len() - i,
        {
            region_types.push(region_filter.region_types[i]);
            assert(region_types@ =~= region_filter.region_types@.take(i + 1));
            i += 1;
        }
        assert(region_filter.region_types@.take(region_filter.region_types@.len() as int) =~= region_filter.region_types@);
        let options = MemoryCollectionOptions {
            max_total_size: (max_memory_size_mb as u64) * 1048576,
            max_process_size: DEFAULT_MAX_PROCESS_MEMORY,
            include_system_processes,
            process_filters: copy_strings(&process_filter.process_names),
            pid_filters: copy_ids(&process_filter.process_ids),
            region_types,
        };
        Self::new(options, process_filter, region_filter)
    }

    /// The positions of the processes of `processes` this collection takes, in order.
    pub fn select_processes(&self, processes: &[ProcessIdentity]) -> (r: Vec<usize>)
        ensures
            r@ == selected_positions(self.process_filter, processes@),
    {
        let mut r: Vec<usize> = Vec::new();
        let mut i: usize = 0;
        while i < processes.len()
            invariant
                i <= processes@.len(),
                r@ == selected_positions(self.process_filter, processes@.take(i as int)),
            decreases processes.len() - i,
        {
            proof {
                assert(processes@.take(i + 1).drop_last() =~= processes@.take(i as int));
            }
            if self.process_filter.matches(processes[i].pid, processes[i].name.as_str()) {
                r.push(i);
            }
            i += 1;
        }
        assert(processes@.take(processes@.len() as int) =~= processes@);
        r
    }

    /// The regions of `regions` this collection takes, in their order.
    pub fn select_regions(&self, regions: Vec<MemoryRegionInfo>) -> (r: Vec<MemoryRegionInfo>)
        ensures
            r@ == regions@.filter(|g: MemoryRegionInfo| region_selected(self.region_filter, g)),
    {
        let ghost keep = |g: MemoryRegionInfo| region_selected(self.region_filter, g);
        let mut r: Vec<MemoryRegionInfo> = Vec::new();
        let mut rest = regions;
        let ghost all = rest@;
        let mut i: usize = 0;
        let n = rest.len();
        while rest.len() > 0
            invariant
                all.len() == n,
                i + rest@.len() == n,
                rest@ == all.subrange(i as int, n as int),
                r@ == all.take(i as int).filter(keep),
                keep == (|g: MemoryRegionInfo| region_selected(self.region_filter, g)),
            decreases rest.len(),
        {
            let g = rest.remove(0);
            proof {
                assert(all.take(i + 1) =~= all.take(i as int).push(g));
                all.take(i as int).lemma_filter_push(g, keep);
            }
            if self.region_filter.matches(&g) {
                r.push(g);
            }
            i += 1;
            assert(rest@ =~= all.subrange(i as int, n as int));
        }
        assert(all.take(n as int) =~= all);
        r
    }

    /// The total size of `regions`, or `None` where it does not fit in 64 bits.
    pub fn total_region_size(regions: &[MemoryRegionInfo]) -> (r: Option<u64>)
        ensures
            r matches Some(t) ==> t == region_sum(regions@),
            r is None ==> region_sum(regions@) > u64::MAX,
    {
        let mut total: u64 = 0;
        let mut i: usize = 0;
        while i < regions.len()
            invariant
                i <= regions@.len(),
                total == region_sum(regions@.take(i as int)),
            decreases regions.len() - i,
        {
            proof {
                assert(regions@.take(i + 1).drop_last() =~= regions@.take(i as int));
            }
            let size = regions[i].size;
            if size > u64::MAX - total {
                proof {
                    lemma_region_sum_prefix(regions@, i + 1);
                }
                return None;
            }
            total = total + size;
            i += 1;
        }
        assert(regions@.take(regions@.len() as int) =~= regions@);
        Some(total)
    }

    /// Whether a process whose selected regions total `total` bytes is too
    /// large to collect.
    pub fn exceeds_process_limit(&self, total: u64) -> (r: bool)
        ensures
            r == (total > self.options.max_process_size),
    {
        total > self.options.max_process_size
    }

    /// Whether the collection stops before the next process, having
    /// collected `collected` bytes so far.
    pub fn budget_reached(&self, collected: u64) -> (r: bool)
        ensures
            r == (collected >= self.options.max_total_size),
    {
        collected >= self.options.max_total_size
    }

    /// Whether a region is large enough to be dumped.
    pub fn should_dump(region: &MemoryRegionInfo) -> (r: bool)
        ensures
            r == (region.size >= MIN_DUMP_REGION_SIZE),
    {
        region.size >= MIN_DUMP_REGION_SIZE
    }

    /// The record of a process that was skipped for its size: its regions,
    /// modules and total, nothing dumped, status "Skipped".
    pub fn skipped_process(
        id: &ProcessIdentity,
        regions: Vec<MemoryRegionInfo>,
        modules: Vec<ModuleInfo>,
        total_memory_size: u64,
        collection_time: &str,
    ) -> (p: ProcessMemoryInfo)
        ensures
            is_unfinished_record(p, *id, collection_time@, "Skipped"@),
            p.regions == regions,
            p.modules == modules,
            p.total_memory_size == total_memory_size,
            p.error matches Some(e) && e@ == "Process memory size exceeds maximum"@,
    {
        ProcessMemoryInfo {
            pid: id.pid,
            name: id.name.clone(),
            command_line: Some(id.command_line.clone()),
            path: match &id.path {
                Some(p) => Some(p.clone()),
                None => None,
            },
            start_time: id.start_time,
            user: None,
            parent_pid: id.parent_pid,
            regions,
            modules,
            total_memory_size,
            dumped_memory_size: 0,
            collection_time: String::from_str(collection_time),
            status: String::from_str("Skipped"),
            error: Some(String::from_str("Process memory size exceeds maximum")),
        }
    }

    /// The record of a process whose regions are about to be dumped: its
    /// regions, modules and total, nothing dumped yet, status "Success".
    pub fn started_process(
        id: &ProcessIdentity,
        regions: Vec<MemoryRegionInfo>,
        modules: Vec<ModuleInfo>,
        total_memory_size: u64,
        collection_time: &str,
    ) -> (p: ProcessMemoryInfo)
        ensures
            is_unfinished_record(p, *id, collection_time@, "Success"@),
            p.regions == regions,
            p.modules == modules,
            p.total_memory_size == total_memory_size,
            p.error is None,
    {
        ProcessMemoryInfo {
            pid: id.pid,
            name: id.name.clone(),
            command_line: Some(id.command_line.clone()),
            path: match &id.path {
                Some(p) => Some(p.clone()),
                None => None,
            },
            start_time: id.start_time,
            user: None,
            parent_pid: id.parent_pid,
            regions,
            modules,
            total_memory_size,
            dumped_memory_size: 0,
            collection_time: String::from_str(collection_time),
            status: String::from_str("Success"),
            error: None,
        }
    }

    /// The record of a process whose collection failed with `error`: no
    /// regions, no modules, nothing dumped, status "Failed".
    pub fn failed_process(id: &ProcessIdentity, error: &str, collection_time: &str) -> (p: ProcessMemoryInfo)
        ensures
            is_unfinished_record(p, *id, collection_time@, "Failed"@),
            p.regions@.len() == 0,
            p.modules@.len() == 0,
            p.total_memory_size == 0,
            p.error matches Some(e) && e@ == error@,
    {
        ProcessMemoryInfo {
            pid: id.pid,
            name: id.name.clone(),
            command_line: Some(id.command_line.clone()),
            path: match &id.path {
                Some(p) => Some(p.clone()),
                None => None,
            },
            start_time: id.start_time,
            user: None,
            parent_pid: id.parent_pid,
            regions: Vec::new(),
            modules: Vec::new(),
            total_memory_size: 0,
            dumped_memory_size: 0,
            collection_time: String::from_str(collection_time),
            status: String::from_str("Failed"),
            error: Some(String::from_str(error)),
        }
    }

    /// Records that region `index` of `info` was dumped, `data_len` bytes
    /// (none recorded for an empty read): the region is marked dumped with
    /// its dump file name, and the dumped size grows by `data_len`.
    pub fn record_region_dump(info: &mut ProcessMemoryInfo, index: usize, data_len: u64)
        requires
            index < old(info).regions@.len(),
            old(info).dumped_memory_size + data_len <= u64::MAX,
        ensures
            data_len == 0 ==> *final(info) == *old(info),
            data_len > 0 ==> {
                &&& final(info).dumped_memory_size == old(info).dumped_memory_size + data_len
                &&& final(info).regions@.len() == old(info).regions@.len()
                &&& is_dumped_copy(final(info).regions@[index as int], old(info).regions@[index as int])
                &&& forall|k: int|
                    0 <= k < old(info).regions@.len() && k != index ==> final(info).regions@[k] == old(
                        info,
                    ).regions@[k]
                &&& same_but_dumps(*final(info), *old(info))
            },
    {
        if data_len == 0 {
            return;
        }
        let name = MemoryExporter::region_dump_file_name(&info.regions[index]);
        info.regions[index].dumped = true;
        info.regions[index].dump_path = Some(name);
        info.dumped_memory_size = info.dumped_memory_size + data_len;
    }

    /// The start of the collection of one process, from the regions the
    /// platform reported: the regions this collection takes are kept, in
    /// order, with `modules`; the process is skipped exactly when their total
    /// size exceeds the per-process maximum (a total beyond 64 bits is
    /// recorded as `u64::MAX`), and otherwise its record is ready for dumps.
    pub fn begin_process(
        &self,
        id: &ProcessIdentity,
        regions: Vec<MemoryRegionInfo>,
        modules: Vec<ModuleInfo>,
        collection_time: &str,
    ) -> (r: ProcessStart)
        ensures
            (r is Skipped) == (region_sum(
                regions@.filter(|g: MemoryRegionInfo| region_selected(self.region_filter, g)),
            ) > self.options.max_process_size),
            r matches ProcessStart::Skipped(p) ==> {
                &&& is_unfinished_record(p, *id, collection_time@, "Skipped"@)
                &&& p.regions@ == regions@.filter(|g: MemoryRegionInfo| region_selected(self.region_filter, g))
                &&& p.modules == modules
                &&& p.total_memory_size == capped_total(
                    region_sum(regions@.filter(|g: MemoryRegionInfo| region_selected(self.region_filter, g))),
                )
                &&& p.error matches Some(e) && e@ == "Process memory size exceeds maximum"@
            },
            r matches ProcessStart::Started(p) ==> {
                &&& is_unfinished_record(p, *id, collection_time@, "Success"@)
                &&& p.regions@ == regions@.filter(|g: MemoryRegionInfo| region_selected(self.region_filter, g))
                &&& p.modules == modules
                &&& p.total_memory_size == region_sum(
                    regions@.filter(|g: MemoryRegionInfo| region_selected(self.region_filter, g)),
                )
                &&& p.error is None
            },
    {
        let selected = self.select_regions(regions);
        match Self::total_region_size(&selected) {
            Some(total) => {
                if self.exceeds_process_limit(total) {
                    ProcessStart::Skipped(Self::skipped_process(id, selected, modules, total, collection_time))
                } else {
                    ProcessStart::Started(Self::started_process(id, selected, modules, total, collection_time))
                }
            },
            None => ProcessStart::Skipped(
                Self::skipped_process(id, selected, modules, u64::MAX, collection_time),
            ),
        }
    }

    /// Records the dumps of a started process: `written[k]` is the number of
    /// bytes written for region `k` (zero where it was not read, read empty,
    /// or not written). A region large enough to dump with bytes written is
    /// marked dumped with its dump file name, every other region stays as it
    /// was, and the dumped size grows by the bytes written for the marked
    /// regions.
    pub fn record_dumps(info: &mut ProcessMemoryInfo, written: &[u64])
        requires
            written@.len() == old(info).regions@.len(),
            old(info).dumped_memory_size + dumped_sum(old(info).regions@, written@) <= u64::MAX,
        ensures
            final(info).dumped_memory_size == old(info).dumped_memory_size + dumped_sum(
                old(info).regions@,
                written@,
            ),
            final(info).regions@.len() == old(info).regions@.len(),
            forall|k: int|
                0 <= k < old(info).regions@.len() ==> if dump_counts(
                    old(info).regions@[k],
                    written@[k],
                ) {
                    is_dumped_copy(final(info).regions@[k], old(info).regions@[k])
                } else {
                    final(info).regions@[k] == old(info).regions@[k]
                },
            same_but_dumps(*final(info), *old(info)),
    {
        let ghost start = *info;
        let mut i: usize = 0;
        while i < written.len()
            invariant
                written@.len() == start.regions@.len(),
                start.dumped_memory_size + dumped_sum(start.regions@, written@) <= u64::MAX,
                i <= written@.len(),
                info.dumped_memory_size == start.dumped_memory_size + dumped_sum(
                    start.regions@,
                    written@.take(i as int),
                ),
                info.regions@.len() == start.regions@.len(),
                forall|k: int|
                    0 <= k < i ==> if dump_counts(start.regions@[k], written@[k]) {
                        is_dumped_copy(info.regions@[k], start.regions@[k])
                    } else {
                        info.regions@[k] == start.regions@[k]
                    },
                forall|k: int| i <= k < start.regions@.len() ==> info.regions@[k] == start.regions@[k],
                same_but_dumps(*info, start),
            decreases written.len() - i,
        {
            proof {
                assert(written@.take(i + 1).drop_last() =~= written@.take(i as int));
                lemma_dumped_sum_prefix(start.regions@, written@, i + 1);
            }
            if Self::should_dump(&info.regions[i]) && written[i] > 0 {
                Self::record_region_dump(info, i, written[i]);
            }
            i += 1;
        }
        assert(written@.take(written@.len() as int) =~= written@);
    }
}

/// The bytes a memory collection has dumped so far, against the most it
/// may dump in all.
#[derive(Debug, Clone)]
pub struct MemoryBudget {
    pub collected: u64,
    pub max_total: u64,
}

impl MemoryBudget {
    /// Whether the budget is kept: no more was dumped than the maximum.
    pub open spec fn kept(&self) -> bool {
        self.collected <= self.max_total
    }

    /// Nothing dumped yet, at most `max_total` bytes in all.
    pub fn new(max_total: u64) -> (b: Self)
        ensures
            b.collected == 0,
            b.max_total == max_total,
            b.kept(),
    {
        MemoryBudget { collected: 0, max_total }
    }

    /// Whether `size` more bytes still fit within the maximum.
    pub fn fits(&self, size: u64) -> (r: bool)
        requires
            self.kept(),
        ensures
            r == (self.collected + size <= self.max_total),
    {
        size <= self.max_total - self.collected
    }

    /// Counts `written` more bytes dumped, which fit within the maximum.
    pub fn charge(&mut self, written: u64)
        requires
            old(self).kept(),
            old(self).collected + written <= old(self).max_total,
        ensures
            final(self).collected == old(self).collected + written,
            final(self).max_total == old(self).max_total,
            final(self).kept(),
    {
        self.collected = self.collected + written;
    }
}

impl MemoryCollector {
    /// The budget of a new collection: nothing dumped, at most the
    /// collection's total limit.
    pub fn budget(&self) -> (b: MemoryBudget)
        ensures
            b.collected == 0,
            b.max_total == self.options.max_total_size,
            b.kept(),
    {
        MemoryBudget::new(self.options.max_total_size)
    }
}

/// How the collection of one process starts.
#[derive(Debug, Clone)]
pub enum ProcessStart {
    /// Skipped for its size: the finished record.
    Skipped(ProcessMemoryInfo),
    /// To be dumped: the record, nothing dumped yet.
    Started(ProcessMemoryInfo),
}

/// A total as it is recorded: itself where it fits in 64 bits, else `u64::MAX`.
pub open spec fn capped_total(total: nat) -> u64 {
    if total <= u64::MAX {
        total as u64
    } else {
        u64::MAX
    }
}

/// Whether bytes written for region `g` count as its dump: it is large
/// enough to dump and something was written.
pub open spec fn dump_counts(g: MemoryRegionInfo, written: u64) -> bool {
    g.size >= MIN_DUMP_REGION_SIZE && written > 0
}

/// The bytes written for the regions whose dumps count.
pub open spec fn dumped_sum(regions: Seq<MemoryRegionInfo>, written: Seq<u64>) -> nat
    decreases written.len(),
{
    if written.len() == 0 {
        0
    } else {
        let k = written.len() - 1;
        dumped_sum(regions, written.drop_last()) + if dump_counts(regions[k], written[k]) {
            written[k] as nat
        } else {
            0nat
        }
    }
}

/// `new` is region `old` marked dumped under its dump file name, all else kept.
pub open spec fn is_dumped_copy(new: MemoryRegionInfo, old: MemoryRegionInfo) -> bool {
    &&& new == (MemoryRegionInfo { dumped: true, dump_path: new.dump_path, ..old })
    &&& new.dump_path matches Some(d) && d@ == dump_file_name(old.region_type, old.base_address, old.size)
}

/// `new` is the record `old` with at most its regions and dumped size changed.
pub open spec fn same_but_dumps(new: ProcessMemoryInfo, old: ProcessMemoryInfo) -> bool {
    new == (ProcessMemoryInfo { regions: new.regions, dumped_memory_size: new.dumped_memory_size, ..old })
}

pub proof fn lemma_dumped_sum_prefix(regions: Seq<MemoryRegionInfo>, written: Seq<u64>, i: int)
    requires
        0 <= i <= written.len(),
    ensures
        dumped_sum(regions, written.take(i)) <= dumped_sum(regions, written),
    decreases written.len() - i,
{
    if i < written.len() {
        assert(written.take(i + 1).drop_last() =~= written.take(i));
        lemma_dumped_sum_prefix(regions, written, i + 1);
    } else {
        assert(written.take(i) =~= written);
    }
}

pub proof fn lemma_region_sum_prefix(s: Seq<MemoryRegionInfo>, i: int)
    requires
        0 <= i <= s.len(),
    ensures
        region_sum(s.take(i)) <= region_sum(s),
    decreases s.len() - i,
{
    if i < s.len() {
        assert(s.take(i + 1).drop_last() =~= s.take(i));
        lemma_region_sum_prefix(s, i + 1);
    } else {
        assert(s.take(i) =~= s);
    }
}

} // verus!
