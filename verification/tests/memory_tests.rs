use rust_collector::constants::{DEFAULT_MAX_PROCESS_MEMORY, DEFAULT_MAX_TOTAL_MEMORY};
use rust_collector::collectors::memory::models::{
    MemoryCollectionOptions, MemoryProtection, MemoryRegionInfo, MemoryRegionType, ProcessMemoryInfo,
};
use rust_collector::collectors::memory::filters::{MemoryRegionFilter, ProcessFilter};
use rust_collector::collectors::memory::helpers::{convert_protection, convert_region_type, format_memory_dump};
use rust_collector::collectors::memory::export::MemoryExporter;
use rust_collector::collectors::memory::collector::{MemoryBudget, MemoryCollector, ProcessIdentity, ProcessStart, join_words};
use rust_collector::collectors::memory::maps::{parse_memory_maps, parse_modules};
use rust_collector::collectors::memory::platforms::{
    macos_protection, macos_region_type,
    ChunkedRead, LinuxMemoryCollector, ReadStrategy, create_collector, is_memory_collection_available,
};

fn region(base: u64, size: u64, t: MemoryRegionType) -> MemoryRegionInfo {
    MemoryRegionInfo {
        base_address: base,
        size,
        region_type: t,
        protection: MemoryProtection { read: true, write: true, execute: false },
        name: None,
        mapped_file: None,
        dumped: false,
        dump_path: None,
    }
}

#[test]
fn test_memory_collection_options() {
    let options = MemoryCollectionOptions {
        max_total_size: DEFAULT_MAX_TOTAL_MEMORY,
        max_process_size: DEFAULT_MAX_PROCESS_MEMORY,
        include_system_processes: true,
        process_filters: vec!["test".to_string()],
        pid_filters: vec![1234],
        region_types: vec![MemoryRegionType::Heap, MemoryRegionType::Stack],
    };
    assert_eq!(options.max_total_size, DEFAULT_MAX_TOTAL_MEMORY);
    assert_eq!(options.max_process_size, DEFAULT_MAX_PROCESS_MEMORY);
    assert!(options.include_system_processes);
    assert_eq!(options.process_filters.len(), 1);
    assert_eq!(options.pid_filters.len(), 1);
    assert_eq!(options.region_types.len(), 2);
}

#[test]
fn test_process_filter_creation() {
    let filter = ProcessFilter::from_args(Some("firefox,chrome"), Some("1234,5678"), true);
    assert_eq!(filter.process_names.len(), 2);
    assert!(filter.process_names.contains(&"firefox".to_string()));
    assert!(filter.process_names.contains(&"chrome".to_string()));
    assert_eq!(filter.process_ids.len(), 2);
    assert!(filter.process_ids.contains(&1234));
    assert!(filter.process_ids.contains(&5678));
    assert!(filter.include_system_processes);
}

#[test]
fn test_memory_region_filter() {
    let filter = MemoryRegionFilter::from_str("heap,stack", 4096, DEFAULT_MAX_TOTAL_MEMORY);
    assert_eq!(filter.region_types.len(), 2);
    assert!(filter.region_types.contains(&MemoryRegionType::Heap));
    assert!(filter.region_types.contains(&MemoryRegionType::Stack));
    assert_eq!(filter.min_size, 4096);
    assert_eq!(filter.max_size, DEFAULT_MAX_TOTAL_MEMORY);
}

#[test]
fn collector_test_memory_region_filter_matches() {
    let filter = MemoryRegionFilter { region_types: vec![MemoryRegionType::Heap], min_size: 4096, max_size: 1024 * 1024 };
    let mut region1 = region(0x1000, 8192, MemoryRegionType::Heap);
    region1.name = Some("heap".to_string());
    let mut region2 = region(0x2000, 2048, MemoryRegionType::Heap);
    region2.name = Some("heap".to_string());
    let mut region3 = region(0x3000, 8192, MemoryRegionType::Stack);
    region3.name = Some("stack".to_string());
    assert!(filter.matches(&region1));
    assert!(!filter.matches(&region2));
    assert!(!filter.matches(&region3));
}

#[test]
fn test_search_memory_pattern() {
    let pattern = b"test_pattern";
    assert_eq!(pattern.len(), 12);
    let empty_pattern: &[u8] = b"";
    assert_eq!(empty_pattern.len(), 0);
}

#[test]
fn filters_test_memory_region_filter_matches() {
    let r = region(0x1000, 4096, MemoryRegionType::Heap);
    let filter = MemoryRegionFilter::new(vec![MemoryRegionType::Heap], 1024, 8192);
    assert!(filter.matches(&r));
    let filter = MemoryRegionFilter::new(vec![MemoryRegionType::Stack], 1024, 8192);
    assert!(!filter.matches(&r));
    let filter = MemoryRegionFilter::new(vec![MemoryRegionType::Heap], 8192, 16384);
    assert!(!filter.matches(&r));
    let filter = MemoryRegionFilter::new(vec![MemoryRegionType::Heap], 1024, 2048);
    assert!(!filter.matches(&r));
}

#[test]
fn filters_test_process_filter_matches() {
    let filter = ProcessFilter::new(vec![], vec![], true);
    assert!(filter.matches(1234, "test_process"));
    let filter = ProcessFilter::new(vec!["test".to_string()], vec![], true);
    assert!(filter.matches(1234, "test_process"));
    let filter = ProcessFilter::new(vec![], vec![1234], true);
    assert!(filter.matches(1234, "test_process"));
    let filter = ProcessFilter::new(vec!["other".to_string()], vec![5678], true);
    assert!(!filter.matches(1234, "test_process"));
}

#[test]
fn process_filter_compares_lowercase_and_skips_system_processes() {
    let filter = ProcessFilter::new(vec!["FireFox".to_string()], vec![], false);
    assert!(filter.matches(4242, "FIREFOX-bin"));
    assert!(!filter.matches(4242, "chrome"));
    let everything = ProcessFilter::new(vec![], vec![], false);
    assert!(!everything.matches(4242, "svchost"));
    assert!(!everything.matches(4242, "SystemSettings"));
    assert!(!everything.matches(4242, "sshd"));
    assert!(!everything.matches(3, "worker"));
    assert!(everything.matches(4242, "firefox"));
    assert!(everything.matches(4242, "longdaemond"));
    assert!(ProcessFilter::is_system_process(100, "systemd"));
    assert!(!ProcessFilter::is_system_process(100, "bash"));
}

#[test]
fn process_ids_skip_what_is_not_a_number() {
    let filter = ProcessFilter::from_args(Some(" a , b "), Some(" 12, x,+7, 99999999999"), false);
    assert_eq!(filter.process_names, vec!["a".to_string(), "b".to_string()]);
    assert_eq!(filter.process_ids, vec![12, 7]);
}

#[test]
fn region_filter_reads_names_in_any_case_and_dedups() {
    let all = MemoryRegionFilter::from_str("ALL", 0, 0);
    assert_eq!(all.region_types.len(), 5);
    let f = MemoryRegionFilter::from_str(" Heap , mapped, heap, bogus,MappedFile", 0, 0);
    assert_eq!(f.region_types, vec![MemoryRegionType::Heap, MemoryRegionType::MappedFile]);
    let unlimited = MemoryRegionFilter::new(vec![MemoryRegionType::Code], 0, 0);
    assert!(unlimited.matches(&region(0, u64::MAX, MemoryRegionType::Code)));
}

#[test]
fn conversions_from_memory_sources() {
    assert_eq!(convert_protection(0x5), MemoryProtection { read: true, write: false, execute: true });
    assert_eq!(convert_region_type("Thread Stack"), MemoryRegionType::Stack);
    assert_eq!(convert_region_type("Heap 1"), MemoryRegionType::Heap);
    assert_eq!(convert_region_type(r"C:\Windows\kernel32.dll"), MemoryRegionType::Code);
    assert_eq!(convert_region_type("data.bin"), MemoryRegionType::MappedFile);
    assert_eq!(convert_region_type(""), MemoryRegionType::Other);
    assert_eq!(format_memory_dump(&[1, 2, 255], 10), "[1, 2, 255]");
    assert_eq!(format_memory_dump(&[1, 2, 255], 2), "[1, 2]");
    assert_eq!(format_memory_dump(&[], 4), "[]");
    assert_eq!(MemoryRegionType::MappedFile.to_string(), "MappedFile");
}

#[test]
fn export_names() {
    assert_eq!(MemoryExporter::process_dir_name("firefox", 1234), "firefox_1234");
    let r = region(0x7f00, 0x2000, MemoryRegionType::Heap);
    assert_eq!(MemoryExporter::region_dump_file_name(&r), "heap_7f00_2000.dmp");
    let e = MemoryExporter::new("/out/mem");
    assert_eq!(e.base_dir(), "/out/mem");
}

fn identity() -> ProcessIdentity {
    ProcessIdentity {
        pid: 1234,
        name: "test".to_string(),
        command_line: join_words(&["test".to_string(), "--arg".to_string()]),
        path: Some("/usr/bin/test".to_string()),
        start_time: 7,
        parent_pid: Some(1),
    }
}

#[test]
fn process_records_and_summary() {
    let id = identity();
    assert_eq!(id.command_line, "test --arg");
    let mut info = MemoryCollector::started_process(
        &id,
        vec![region(0x1000, 8192, MemoryRegionType::Heap), region(0x4000, 4096, MemoryRegionType::Stack)],
        vec![],
        12288,
        "2024-01-01T00:00:00Z",
    );
    assert_eq!(info.status, "Success");
    MemoryCollector::record_region_dump(&mut info, 0, 8192);
    MemoryCollector::record_region_dump(&mut info, 1, 0);
    assert!(info.regions[0].dumped);
    assert_eq!(info.regions[0].dump_path, Some("heap_1000_2000.dmp".to_string()));
    assert!(!info.regions[1].dumped);
    assert_eq!(info.dumped_memory_size, 8192);
    let s = MemoryExporter::create_process_summary(&info);
    assert_eq!(s.region_count, 2);
    assert_eq!(s.regions_dumped, 1);
    assert_eq!(s.dumped_memory_size, 8192);
    let failed: ProcessMemoryInfo = MemoryCollector::failed_process(&id, "boom", "t");
    assert_eq!(failed.status, "Failed");
    assert_eq!(failed.error, Some("boom".to_string()));
    let skipped = MemoryCollector::skipped_process(&id, vec![], vec![], 1 << 40, "t");
    assert_eq!(skipped.status, "Skipped");
}

#[test]
fn collection_decisions() {
    let c = MemoryCollector::from_args(Some("firefox,chrome"), Some("1234,5678"), true, 1024, "heap,stack");
    assert!(c.options.include_system_processes);
    assert_eq!(c.options.max_total_size, DEFAULT_MAX_TOTAL_MEMORY);
    assert_eq!(c.options.process_filters.len(), 2);
    assert_eq!(c.options.pid_filters.len(), 2);
    let d = MemoryCollector::from_args(None, None, false, 512, "all");
    assert_eq!(d.options.max_total_size, DEFAULT_MAX_PROCESS_MEMORY);
    assert!(d.budget_reached(DEFAULT_MAX_PROCESS_MEMORY));
    assert!(!d.budget_reached(DEFAULT_MAX_PROCESS_MEMORY - 1));
    assert!(d.exceeds_process_limit(DEFAULT_MAX_PROCESS_MEMORY + 1));
    let kept = c.select_regions(vec![
        region(0, 8192, MemoryRegionType::Heap),
        region(0, 8192, MemoryRegionType::Code),
        region(0, 100, MemoryRegionType::Stack),
        region(0, 4096, MemoryRegionType::Stack),
    ]);
    assert_eq!(kept.len(), 2);
    assert_eq!(MemoryCollector::total_region_size(&kept), Some(8192 + 4096));
    assert_eq!(MemoryCollector::total_region_size(&[region(0, u64::MAX, MemoryRegionType::Heap), region(0, 1, MemoryRegionType::Heap)]), None);
    assert!(!MemoryCollector::should_dump(&region(0, 4095, MemoryRegionType::Heap)));
    let ps = vec![identity(), ProcessIdentity { pid: 5678, name: "other".to_string(), command_line: String::new(), path: None, start_time: 0, parent_pid: None }];
    assert_eq!(c.select_processes(&ps), vec![0, 1]);
}

#[test]
fn proc_maps_are_parsed() {
    let maps = "55d3195fc000-55d319619000 r--p 00000000 08:05 1048602 /usr/bin/bash\n\
                7ffd1000-7ffd3000 rw-p 00000000 00:00 0 [stack]\n\
                \n\
                01000000-01001000 r-xp 00000000 00:00 0\n\
                00601000-00622000 rw-p 00000000 00:00 0 [heap]\n\
                7f00-7f10 r-xp 0 08:05 7 /usr/lib/libc.so.6\n\
                bogus\n";
    let regions = parse_memory_maps(maps).unwrap();
    assert_eq!(regions.len(), 5);
    assert_eq!(regions[0].base_address, 0x55d3195fc000);
    assert_eq!(regions[0].size, 0x55d319619000 - 0x55d3195fc000);
    assert_eq!(regions[0].region_type, MemoryRegionType::MappedFile);
    assert_eq!(regions[0].mapped_file, Some("/usr/bin/bash".to_string()));
    assert_eq!(regions[1].region_type, MemoryRegionType::Stack);
    assert_eq!(regions[2].region_type, MemoryRegionType::Code);
    assert_eq!(regions[2].mapped_file, None);
    assert_eq!(regions[3].region_type, MemoryRegionType::Heap);
    assert_eq!(regions[4].region_type, MemoryRegionType::Code);
    assert!(regions[0].protection.read && !regions[0].protection.write);
    assert!(parse_memory_maps("zz-10 r--p 0 0 0\n").is_err());
    let lm = LinuxMemoryCollector::new(true).unwrap();
    assert_eq!(lm.regions_from_maps("").unwrap().len(), 0);
    assert!(LinuxMemoryCollector::new(false).is_err());
}

#[test]
fn memory_sources_and_chunked_reads() {
    assert!(!is_memory_collection_available());
    assert!(create_collector().is_err());
    assert_eq!(LinuxMemoryCollector::read_strategy(10 * 1024 * 1024), ReadStrategy::Whole);
    assert_eq!(LinuxMemoryCollector::read_strategy(10 * 1024 * 1024 + 1), ReadStrategy::Chunked);
    let mut read = ChunkedRead::new(0x1000, 2 * 1024 * 1024 + 5);
    assert_eq!(read.next_chunk(), Some((0x1000, 1024 * 1024)));
    read.chunk_read(1024 * 1024);
    assert_eq!(read.next_chunk(), Some((0x1000 + 1024 * 1024, 1024 * 1024)));
    read.chunk_failed();
    assert_eq!(read.next_chunk(), Some((0x1000 + 2 * 1024 * 1024, 5)));
    read.chunk_read(5);
    assert_eq!(read.next_chunk(), None);
    assert!(read.succeeded());
    let mut bad = ChunkedRead::new(0, 100 * 1024 * 1024);
    for _ in 0..6 {
        bad.chunk_failed();
    }
    assert_eq!(bad.next_chunk(), None);
    assert!(!bad.succeeded());
}

#[test]
fn memory_map_text_lists_each_region_in_columns() {
    let mut heap = region(0x1000, 0x2000, MemoryRegionType::Heap);
    heap.name = Some("[heap]".to_string());
    let mut code = region(0x400000, 16, MemoryRegionType::Code);
    code.protection = MemoryProtection { read: true, write: false, execute: true };
    let text = MemoryExporter::memory_map_text(&[heap, code]);
    let expected = String::new()
        + "Address Range                Size       Type       Permissions  Name\n"
        + "-------------------------- ------------ ---------- ------------ ----------------\n"
        + "0000000000001000-0000000000003000         8192 Heap       rw-          [heap]\n"
        + "0000000000400000-0000000000400010           16 Code       r-x          \n";
    assert_eq!(text, expected);
}

#[test]
fn memory_map_text_of_no_region_is_the_header() {
    let text = MemoryExporter::memory_map_text(&[]);
    assert_eq!(text.lines().count(), 2);
    assert!(text.starts_with("Address Range"));
}

#[test]
fn modules_come_from_image_lines_and_keep_the_lowest_address() {
    let maps = "7f0000002000-7f0000003000 r--p 00000000 08:01 1234 /usr/lib/libc.so.6\n\
                7f0000000000-7f0000001000 r-xp 00000000 08:01 1234 /usr/lib/libc.so.6\n\
                00400000-00401000 r-xp 00000000 08:01 99 /tmp/prog\n\
                7f0000005000-7f0000006000 r-xp 00000000 08:01 77 /usr/bin/helper\n\
                7ffc0000-7ffd0000 rw-p 00000000 00:00 0 [stack]\n";
    let modules = parse_modules(maps).unwrap();
    assert_eq!(modules.len(), 2);
    assert_eq!(modules[0].name, "libc.so.6");
    assert_eq!(modules[0].base_address, 0x7f0000000000);
    assert_eq!(modules[0].size, 0x1000);
    assert_eq!(modules[0].path, "/usr/lib/libc.so.6");
    assert_eq!(modules[1].name, "helper");
    assert_eq!(modules[1].base_address, 0x7f0000005000);
    assert!(modules[1].version.is_none());
}

#[test]
fn modules_fail_on_an_image_line_with_a_bad_address() {
    let maps = "zz-7f0000001000 r-xp 00000000 08:01 1234 /usr/lib/libm.so\n";
    assert!(parse_modules(maps).is_err());
    assert!(parse_modules("").unwrap().is_empty());
}

#[test]
fn collector_test_process_filter_matches() {
    let filter = ProcessFilter {
        process_names: vec!["test".to_string()],
        process_ids: vec![1234],
        include_system_processes: false,
    };
    // by PID (process "other", 1234), then by name (process "test", 5678)
    assert!(filter.matches(1234, "other"));
    assert!(filter.matches(5678, "test"));
}

#[test]
fn test_memory_collector_from_args() {
    let collector = MemoryCollector::from_args(Some("firefox,chrome"), Some("1234,5678"), true, 1024, "heap,stack");
    assert!(collector.options.include_system_processes);
    assert_eq!(collector.options.max_total_size, DEFAULT_MAX_TOTAL_MEMORY);
    assert_eq!(collector.options.process_filters.len(), 2);
    assert_eq!(collector.options.pid_filters.len(), 2);
}

#[test]
fn test_memory_collector_from_args_defaults() {
    let collector = MemoryCollector::from_args(None, None, false, 512, "all");
    assert!(!collector.options.include_system_processes);
    assert_eq!(collector.options.max_total_size, DEFAULT_MAX_PROCESS_MEMORY);
}

fn process_record(pid: u32, name: &str, status: &str, dumped: u64) -> ProcessMemoryInfo {
    ProcessMemoryInfo {
        pid,
        name: name.to_string(),
        command_line: Some("test --arg".to_string()),
        path: Some("/usr/bin/test".to_string()),
        start_time: 0,
        user: Some("user".to_string()),
        parent_pid: Some(1),
        regions: vec![],
        modules: vec![],
        total_memory_size: 1024 * 1024,
        dumped_memory_size: dumped,
        collection_time: "2024-01-01T00:00:00+00:00".to_string(),
        status: status.to_string(),
        error: None,
    }
}

#[test]
fn test_memory_collection_summary_creation() {
    let processes = vec![process_record(1234, "test", "Success", 512 * 1024)];
    let summary = MemoryExporter::collection_counts(&processes);
    assert_eq!(summary.processes_collected, 1);
    assert_eq!(summary.processes_failed, 0);
    assert_eq!(summary.total_memory_collected, 512 * 1024);
}

#[test]
fn collection_counts_tally_each_status() {
    let processes = vec![
        process_record(1, "a", "Success", 10),
        process_record(2, "b", "Skipped", 0),
        process_record(3, "c", "Failed", 0),
        process_record(4, "d", "Success", 5),
        process_record(5, "e", "Pending", 7),
    ];
    let c = MemoryExporter::collection_counts(&processes);
    assert_eq!(c.processes_examined, 5);
    assert_eq!(c.processes_collected, 2);
    assert_eq!(c.processes_skipped, 1);
    assert_eq!(c.processes_failed, 1);
    assert_eq!(c.total_memory_collected, 22);
    let summaries = MemoryExporter::process_summaries(&processes);
    assert_eq!(summaries.len(), 5);
    assert_eq!(summaries[0].0, "a_1");
    assert_eq!(summaries[4].0, "e_5");
    assert_eq!(summaries[3].1.dumped_memory_size, 5);
    assert_eq!(summaries[2].1.status, "Failed");
}

#[test]
fn macos_regions_are_typed_by_protection_and_address() {
    assert_eq!(macos_region_type(5, 0x1000), MemoryRegionType::Code);
    assert_eq!(macos_region_type(7, 0x7fff_0000_0000), MemoryRegionType::Code);
    assert_eq!(macos_region_type(3, 0x7fff_0000_0000), MemoryRegionType::Stack);
    assert_eq!(macos_region_type(3, 0x1000), MemoryRegionType::Heap);
    assert_eq!(macos_region_type(1, 0x1000), MemoryRegionType::Other);
    assert_eq!(macos_protection(5), MemoryProtection { read: true, write: false, execute: true });
    assert_eq!(macos_protection(2), MemoryProtection { read: false, write: true, execute: false });
}

fn sized_collector(max_process_size: u64) -> MemoryCollector {
    let options = MemoryCollectionOptions {
        max_total_size: DEFAULT_MAX_TOTAL_MEMORY,
        max_process_size,
        include_system_processes: true,
        process_filters: vec![],
        pid_filters: vec![],
        region_types: vec![MemoryRegionType::Heap, MemoryRegionType::Stack],
    };
    MemoryCollector::new(
        options,
        ProcessFilter::new(vec![], vec![], true),
        MemoryRegionFilter::new(vec![MemoryRegionType::Heap, MemoryRegionType::Stack], 4096, 0),
    )
}

fn reported_regions() -> Vec<MemoryRegionInfo> {
    vec![
        region(0x1000, 8192, MemoryRegionType::Heap),
        region(0x4000, 4096, MemoryRegionType::Stack),
        region(0x9000, 8192, MemoryRegionType::Code),
        region(0x10000, 2048, MemoryRegionType::Heap),
    ]
}

#[test]
fn a_process_is_skipped_only_when_its_selected_regions_exceed_the_limit() {
    let id = identity();
    match sized_collector(12288).begin_process(&id, reported_regions(), vec![], "t") {
        ProcessStart::Started(info) => {
            assert_eq!(info.status, "Success");
            assert_eq!(info.total_memory_size, 12288);
            assert_eq!(info.regions.len(), 2);
            assert_eq!(info.regions[1].base_address, 0x4000);
            assert_eq!(info.dumped_memory_size, 0);
            assert_eq!(info.error, None);
        }
        other => panic!("expected a started process, got {:?}", other),
    }
    match sized_collector(12287).begin_process(&id, reported_regions(), vec![], "t") {
        ProcessStart::Skipped(info) => {
            assert_eq!(info.status, "Skipped");
            assert_eq!(info.total_memory_size, 12288);
            assert_eq!(info.regions.len(), 2);
            assert_eq!(info.error, Some("Process memory size exceeds maximum".to_string()));
        }
        other => panic!("expected a skipped process, got {:?}", other),
    }
}

#[test]
fn the_dumped_size_is_the_sum_of_the_bytes_written() {
    let id = identity();
    let mut regions = reported_regions();
    regions.push(region(0x20000, 1024, MemoryRegionType::Heap));
    let mut info = MemoryCollector::started_process(&id, regions, vec![], 0, "t");
    MemoryCollector::record_dumps(&mut info, &[0, 4000, 8192, 0, 1024]);
    assert_eq!(info.dumped_memory_size, 12192);
    assert!(!info.regions[0].dumped);
    assert!(info.regions[1].dumped);
    assert_eq!(info.regions[1].dump_path, Some("stack_4000_1000.dmp".to_string()));
    assert!(info.regions[2].dumped);
    assert!(!info.regions[4].dumped);
    assert_eq!(info.regions[4].dump_path, None);
}

#[test]
fn the_memory_budget_admits_only_what_fits() {
    let c = sized_collector(1 << 20);
    let mut budget = c.budget();
    assert_eq!(budget.max_total, DEFAULT_MAX_TOTAL_MEMORY);
    assert_eq!(budget.collected, 0);
    let mut small = MemoryBudget::new(10000);
    assert!(small.fits(8192));
    small.charge(8192);
    assert_eq!(small.collected, 8192);
    assert!(small.fits(1808));
    assert!(!small.fits(1809));
    small.charge(1808);
    assert!(!small.fits(1));
    assert!(small.fits(0));
    budget.charge(4096);
    assert_eq!(budget.collected, 4096);
}
