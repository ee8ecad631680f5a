//! Properties of what a collection takes and how: memory-map regions,
//! system processes, region-type lists, macOS artifacts and the default
//! Windows configuration.
use vstd::prelude::*;
use crate::collectors::memory::models::{MemoryProtection, MemoryRegionType};
use crate::collectors::memory::maps::{maps_region_type, maps_line, maps_regions};
use crate::collectors::memory::filters::{ProcessFilter, is_system, lowered_matches, process_matches};
use crate::text::{lowercase, contains_sub, matches_at};
use crate::tokens::{split_on, trim_ws};
use crate::config::artifact_types::{ArtifactType, MacOSArtifactType};
use crate::collectors::platforms::common::{CollectionAction, SourceKind};
use crate::collectors::platforms::macos::macos_action;
use crate::collectors::platforms::linux::linux_action;
use crate::config::artifact_types::LinuxArtifactType;
use crate::config::default_configs::{windows_defaults, linux_defaults, macos_defaults, minimal_defaults};
use crate::config::collection_config::{Artifact, CollectionConfig, artifact_view, is_plain_config};
use crate::collectors::memory::filters::{dedup_types, region_types_named, named_types, region_type_for};

verus! {

/// Whether `path` ends with `suffix`.
pub open spec fn has_suffix(path: Seq<char>, suffix: Seq<char>) -> bool {
    suffix.len() <= path.len() && path.subrange(path.len() - suffix.len(), path.len() as int) == suffix
}

/// A mapped shared library is code: a mapped file whose path ends in `.so`,
/// or holds `.so.` or `/lib/` anywhere, gives a region of type `Code`,
/// whatever the permissions and wherever the file lies.
pub proof fn law_shared_libraries_are_code(path: Seq<char>, perms: Seq<char>)
    ensures
        has_suffix(path, ".so"@) ==> maps_region_type(Some(path), perms) == MemoryRegionType::Code,
        (exists|i: int| matches_at(path, ".so."@, i)) ==> maps_region_type(Some(path), perms)
            == MemoryRegionType::Code,
        (exists|i: int| matches_at(path, "/lib/"@, i)) ==> maps_region_type(Some(path), perms)
            == MemoryRegionType::Code,
{
}

/// An anonymous region is code exactly when it is executable, and other
/// memory otherwise.
pub proof fn law_anonymous_regions(perms: Seq<char>)
    ensures
        perms.contains('x') ==> maps_region_type(None, perms) == MemoryRegionType::Code,
        !perms.contains('x') ==> maps_region_type(None, perms) == MemoryRegionType::Other,
{
}

/// Every line of a memory map that holds a region mapping a file whose path
/// ends in `.so` gives a region of type `Code`.
pub proof fn law_library_lines_are_code(line: Seq<char>)
    ensures
        match maps_line(line) {
            Some(Ok((_, _, t, _, Some(path)))) => has_suffix(path, ".so"@) ==> t == MemoryRegionType::Code,
            _ => true,
        },
{
}

/// Every region a memory map lists whose mapped file's path ends in `.so`
/// is of type `Code`.
pub proof fn law_library_regions_are_code(lines: Seq<Seq<char>>)
    ensures
        maps_regions(lines) matches Ok(rs) ==> forall|k: int|
            0 <= k < rs.len() && (#[trigger] rs[k]).4 is Some && has_suffix(rs[k].4->0, ".so"@)
                ==> rs[k].2 == MemoryRegionType::Code,
    decreases lines.len(),
{
    if lines.len() > 0 {
        law_library_regions_are_code(lines.drop_last());
        law_library_lines_are_code(lines.last());
    }
}

/// Whether `lower` is one of the names of the system processes of Windows
/// and Linux that a memory collection leaves alone unless asked.
pub open spec fn named_system_process(lower: Seq<char>) -> bool {
    ||| lower == "system"@
    ||| lower == "smss"@
    ||| lower == "csrss"@
    ||| lower == "wininit"@
    ||| lower == "services"@
    ||| lower == "lsass"@
    ||| lower == "svchost"@
    ||| lower == "winlogon"@
    ||| lower == "explorer"@
    ||| lower == "dwm"@
    ||| lower == "fontdrvhost"@
    ||| lower == "runtimebroker"@
    ||| lower == "systemd"@
    ||| lower == "init"@
    ||| lower == "kernel"@
}

/// The named system processes are those the process filter lists.
proof fn lemma_named_system_listed()
    ensures
        forall|n: Seq<char>| named_system_process(n) ==> #[trigger] crate::collectors::memory::filters::system_process_names().contains(n),
{
    let l = crate::collectors::memory::filters::system_process_names();
    assert forall|n: Seq<char>| named_system_process(n) implies #[trigger] l.contains(n) by {
        if n == "system"@ { assert(l[0] == n); }
        else if n == "smss"@ { assert(l[1] == n); }
        else if n == "csrss"@ { assert(l[2] == n); }
        else if n == "wininit"@ { assert(l[3] == n); }
        else if n == "services"@ { assert(l[4] == n); }
        else if n == "lsass"@ { assert(l[5] == n); }
        else if n == "svchost"@ { assert(l[6] == n); }
        else if n == "winlogon"@ { assert(l[7] == n); }
        else if n == "explorer"@ { assert(l[8] == n); }
        else if n == "dwm"@ { assert(l[9] == n); }
        else if n == "fontdrvhost"@ { assert(l[10] == n); }
        else if n == "runtimebroker"@ { assert(l[11] == n); }
        else if n == "systemd"@ { assert(l[12] == n); }
        else if n == "init"@ { assert(l[13] == n); }
        else { assert(l[14] == n); }
    }
}

/// Each of the fifteen named system processes counts as a system process
/// whatever its ID, and a process filter that does not include system
/// processes never takes a process of such a name, whatever names and IDs
/// it lists.
pub proof fn law_system_processes_are_skipped(
    f: ProcessFilter,
    pid: u32,
    name: Seq<char>,
    lower_filters: Seq<Seq<char>>,
)
    ensures
        named_system_process(lowercase(name)) ==> is_system(pid, lowercase(name)),
        named_system_process(lowercase(name)) && !f.include_system_processes ==> !process_matches(f, pid, name),
        named_system_process(name) && !f.include_system_processes ==> !lowered_matches(f, pid, name, lower_filters),
{
    lemma_named_system_listed();
}

/// Piece `k` of a comma-separated list, trimmed and lowercased.
pub open spec fn list_piece(s: Seq<char>, k: int) -> Seq<char> {
    lowercase(trim_ws(split_on(s, ',')[k]))
}

/// Each piece of a list that names a region type puts that type in the list.
proof fn lemma_named_piece(parts: Seq<Seq<char>>, k: int)
    requires
        0 <= k < parts.len(),
        region_type_for(lowercase(trim_ws(parts[k]))) is Some,
    ensures
        named_types(parts).contains(region_type_for(lowercase(trim_ws(parts[k])))->0),
    decreases parts.len(),
{
    let t = region_type_for(lowercase(trim_ws(parts[k])))->0;
    let rest = named_types(parts.drop_last());
    if k == parts.len() - 1 {
        assert(region_type_for(lowercase(trim_ws(parts.last()))) == Some(t));
        assert(rest.push(t)[rest.len() as int] == t);
    } else {
        assert(parts.drop_last()[k] == parts[k]);
        lemma_named_piece(parts.drop_last(), k);
        let j = choose|j: int| 0 <= j < rest.len() && rest[j] == t;
        match region_type_for(lowercase(trim_ws(parts.last()))) {
            Some(u) => {
                assert(rest.push(u)[j] == t);
            },
            None => {},
        }
    }
}

/// A region-type list takes every type one of its pieces names (trimmed, in
/// any case): a filter made from a list holding `code` takes code regions,
/// and so on for `heap`, `stack`, `mapped` or `mappedfile`, and `other`;
/// `all` in any case takes every type. A list of the single piece `code`
/// takes exactly code regions, and likewise for each other name.
pub proof fn law_region_type_lists(s: Seq<char>, k: int)
    requires
        0 <= k < split_on(s, ',').len(),
    ensures
        list_piece(s, k) == "heap"@ ==> dedup_types(region_types_named(s)).contains(MemoryRegionType::Heap),
        list_piece(s, k) == "stack"@ ==> dedup_types(region_types_named(s)).contains(MemoryRegionType::Stack),
        list_piece(s, k) == "code"@ ==> dedup_types(region_types_named(s)).contains(MemoryRegionType::Code),
        list_piece(s, k) == "mapped"@ ==> dedup_types(region_types_named(s)).contains(
            MemoryRegionType::MappedFile,
        ),
        list_piece(s, k) == "mappedfile"@ ==> dedup_types(region_types_named(s)).contains(
            MemoryRegionType::MappedFile,
        ),
        list_piece(s, k) == "other"@ ==> dedup_types(region_types_named(s)).contains(MemoryRegionType::Other),
        lowercase(s) == "all"@ ==> forall|t: MemoryRegionType| #[trigger] dedup_types(region_types_named(s)).contains(t),
        lowercase(s) != "all"@ && split_on(s, ',').len() == 1 ==> {
            &&& list_piece(s, 0) == "heap"@ ==> dedup_types(region_types_named(s)) == seq![MemoryRegionType::Heap]
            &&& list_piece(s, 0) == "stack"@ ==> dedup_types(region_types_named(s)) == seq![MemoryRegionType::Stack]
            &&& list_piece(s, 0) == "code"@ ==> dedup_types(region_types_named(s)) == seq![MemoryRegionType::Code]
            &&& list_piece(s, 0) == "mapped"@ ==> dedup_types(region_types_named(s)) == seq![
                MemoryRegionType::MappedFile,
            ]
            &&& list_piece(s, 0) == "mappedfile"@ ==> dedup_types(region_types_named(s)) == seq![
                MemoryRegionType::MappedFile,
            ]
            &&& list_piece(s, 0) == "other"@ ==> dedup_types(region_types_named(s)) == seq![MemoryRegionType::Other]
        },
{
    reveal_strlit("heap");
    reveal_strlit("stack");
    reveal_strlit("code");
    reveal_strlit("mapped");
    reveal_strlit("mappedfile");
    reveal_strlit("other");
    assert("heap"@[0] != "code"@[0]);
    assert("stack"@[0] != "other"@[0]);
    let parts = split_on(s, ',');
    crate::laws::law_region_types_once(region_types_named(s));
    let all = crate::collectors::memory::filters::all_region_types();
    if lowercase(s) == "all"@ {
        assert forall|t: MemoryRegionType| #[trigger] region_types_named(s).contains(t) by {
            match t {
                MemoryRegionType::Heap => assert(all[0] == t),
                MemoryRegionType::Stack => assert(all[1] == t),
                MemoryRegionType::Code => assert(all[2] == t),
                MemoryRegionType::MappedFile => assert(all[3] == t),
                MemoryRegionType::Other => assert(all[4] == t),
            }
        }
    } else {
        if region_type_for(lowercase(trim_ws(parts[k]))) is Some {
            lemma_named_piece(parts, k);
        }
        if parts.len() == 1 {
            assert(parts.drop_last().len() == 0);
            assert(named_types(parts.drop_last()) =~= Seq::<MemoryRegionType>::empty());
            match region_type_for(lowercase(trim_ws(parts[0]))) {
                Some(t) => {
                    assert(named_types(parts) =~= seq![t]);
                    assert(seq![t].drop_last() =~= Seq::<MemoryRegionType>::empty());
                    assert(dedup_types(Seq::<MemoryRegionType>::empty()) =~= Seq::<MemoryRegionType>::empty());
                    assert(dedup_types(seq![t]) =~= seq![t]);
                },
                None => {
                    assert(named_types(parts) =~= Seq::<MemoryRegionType>::empty());
                },
            }
        }
    }
}

/// On macOS an artifact whose source is a directory is collected by copying
/// the directory, whatever its type, except the quarantine and KnowledgeC
/// databases, which are always copied as files. Unified logs are copied as
/// a file where the source is one, and exported only where the source is
/// neither a directory nor a file.
pub proof fn law_macos_directories_are_copied(t: ArtifactType, source: SourceKind)
    ensures
        t != ArtifactType::MacOS(MacOSArtifactType::Quarantine) && t != ArtifactType::MacOS(
            MacOSArtifactType::KnowledgeC,
        ) ==> macos_action(t, SourceKind::Directory) == CollectionAction::CopyDirectory,
        macos_action(ArtifactType::MacOS(MacOSArtifactType::UnifiedLogs), SourceKind::File)
            == CollectionAction::CopyFile,
        source != SourceKind::Directory && source != SourceKind::File ==> macos_action(
            ArtifactType::MacOS(MacOSArtifactType::UnifiedLogs),
            source,
        ) == CollectionAction::ExportUnifiedLogs,
        macos_action(ArtifactType::MacOS(MacOSArtifactType::Quarantine), source) == CollectionAction::CopyFile,
        macos_action(ArtifactType::MacOS(MacOSArtifactType::KnowledgeC), source) == CollectionAction::CopyFile,
{
}

/// On Linux the journal is always exported, `/proc/self` (and what lies
/// under it) is never read but noted, and every other artifact whose source
/// is a directory is copied as a directory, except audit logs and shell
/// history, which are always copied as files.
pub proof fn law_linux_directories_are_copied(t: ArtifactType, path: Seq<char>, source: SourceKind)
    ensures
        linux_action(ArtifactType::Linux(LinuxArtifactType::Journal), path, source) == CollectionAction::ExportJournal,
        linux_action(ArtifactType::Linux(LinuxArtifactType::Proc), "/proc/self"@, source)
            == CollectionAction::WriteProcNote,
        t != ArtifactType::Linux(LinuxArtifactType::Journal) && t != ArtifactType::Linux(LinuxArtifactType::Audit)
            && t != ArtifactType::Linux(LinuxArtifactType::Bash) && (t == ArtifactType::Linux(
            LinuxArtifactType::Proc,
        ) ==> !crate::collectors::platforms::linux::is_self_referential(path)) ==> linux_action(
            t,
            path,
            SourceKind::Directory,
        ) == CollectionAction::CopyDirectory,
        linux_action(ArtifactType::Linux(LinuxArtifactType::Audit), path, source) == CollectionAction::CopyFile,
        linux_action(ArtifactType::Linux(LinuxArtifactType::Bash), path, source) == CollectionAction::CopyFile,
{
}

/// The source paths of the default Windows configuration are all different.
proof fn lemma_windows_sources_distinct()
    ensures
        windows_defaults().len() == 13,
        forall|i: int, j: int|
            0 <= i < j < windows_defaults().len() ==> #[trigger] windows_defaults()[i].2 != #[trigger] windows_defaults()[j].2,
{
    let w = windows_defaults();
    reveal_strlit("\\\\?\\C:\\$MFT");
    reveal_strlit("\\\\?\\C:\\Windows\\System32\\config\\SYSTEM");
    reveal_strlit("\\\\?\\C:\\Windows\\System32\\config\\SOFTWARE");
    reveal_strlit("\\\\?\\C:\\Windows\\System32\\config\\SECURITY");
    reveal_strlit("\\\\?\\C:\\Windows\\System32\\config\\SAM");
    reveal_strlit("\\\\?\\%USERPROFILE%\\NTUSER.DAT");
    reveal_strlit("\\\\?\\C:\\Windows\\System32\\winevt\\Logs\\System.evtx");
    reveal_strlit("\\\\?\\C:\\Windows\\System32\\winevt\\Logs\\Security.evtx");
    reveal_strlit("\\\\?\\C:\\Windows\\System32\\winevt\\Logs\\Application.evtx");
    reveal_strlit("\\\\?\\C:\\Windows\\System32\\winevt\\Logs\\Microsoft-Windows-PowerShell%4Operational.evtx");
    reveal_strlit("\\\\?\\C:\\Windows\\System32\\winevt\\Logs\\Microsoft-Windows-Sysmon%4Operational.evtx");
    reveal_strlit("\\\\?\\C:\\Windows\\Prefetch");
    reveal_strlit("\\\\?\\C:\\$Extend\\$UsnJrnl:$J");
    assert(w[0].2 == "\\\\?\\C:\\$MFT"@);
    assert(w[1].2 == "\\\\?\\C:\\Windows\\System32\\config\\SYSTEM"@);
    assert(w[2].2 == "\\\\?\\C:\\Windows\\System32\\config\\SOFTWARE"@);
    assert(w[3].2 == "\\\\?\\C:\\Windows\\System32\\config\\SECURITY"@);
    assert(w[4].2 == "\\\\?\\C:\\Windows\\System32\\config\\SAM"@);
    assert(w[5].2 == "\\\\?\\%USERPROFILE%\\NTUSER.DAT"@);
    assert(w[6].2 == "\\\\?\\C:\\Windows\\System32\\winevt\\Logs\\System.evtx"@);
    assert(w[7].2 == "\\\\?\\C:\\Windows\\System32\\winevt\\Logs\\Security.evtx"@);
    assert(w[8].2 == "\\\\?\\C:\\Windows\\System32\\winevt\\Logs\\Application.evtx"@);
    assert(w[9].2 == "\\\\?\\C:\\Windows\\System32\\winevt\\Logs\\Microsoft-Windows-PowerShell%4Operational.evtx"@);
    assert(w[10].2 == "\\\\?\\C:\\Windows\\System32\\winevt\\Logs\\Microsoft-Windows-Sysmon%4Operational.evtx"@);
    assert(w[11].2 == "\\\\?\\C:\\Windows\\Prefetch"@);
    assert(w[12].2 == "\\\\?\\C:\\$Extend\\$UsnJrnl:$J"@);
    assert forall|i: int, j: int| 0 <= i < j < w.len() implies #[trigger] w[i].2 != #[trigger] w[j].2 by {
        if i == 0 {
            if j == 1 { assert(w[0].2.len() != w[1].2.len()); 
            } else if j == 2 { assert(w[0].2.len() != w[2].2.len()); 
            } else if j == 3 { assert(w[0].2.len() != w[3].2.len()); 
            } else if j == 4 { assert(w[0].2.len() != w[4].2.len()); 
            } else if j == 5 { assert(w[0].2.len() != w[5].2.len()); 
            } else if j == 6 { assert(w[0].2.len() != w[6].2.len()); 
            } else if j == 7 { assert(w[0].2.len() != w[7].2.len()); 
            } else if j == 8 { assert(w[0].2.len() != w[8].2.len()); 
            } else if j == 9 { assert(w[0].2.len() != w[9].2.len()); 
            } else if j == 10 { assert(w[0].2.len() != w[10].2.len()); 
            } else if j == 11 { assert(w[0].2.len() != w[11].2.len()); 
            } else if j == 12 { assert(w[0].2.len() != w[12].2.len()); 
            }
        } else if i == 1 {
            if j == 2 { assert(w[1].2.len() != w[2].2.len()); 
            } else if j == 3 { assert(w[1].2.len() != w[3].2.len()); 
            } else if j == 4 { assert(w[1].2.len() != w[4].2.len()); 
            } else if j == 5 { assert(w[1].2.len() != w[5].2.len()); 
            } else if j == 6 { assert(w[1].2.len() != w[6].2.len()); 
            } else if j == 7 { assert(w[1].2.len() != w[7].2.len()); 
            } else if j == 8 { assert(w[1].2.len() != w[8].2.len()); 
            } else if j == 9 { assert(w[1].2.len() != w[9].2.len()); 
            } else if j == 10 { assert(w[1].2.len() != w[10].2.len()); 
            } else if j == 11 { assert(w[1].2.len() != w[11].2.len()); 
            } else if j == 12 { assert(w[1].2.len() != w[12].2.len()); 
            }
        } else if i == 2 {
            if j == 3 { assert(w[2].2[32] != w[3].2[32]); 
            } else if j == 4 { assert(w[2].2.len() != w[4].2.len()); 
            } else if j == 5 { assert(w[2].2.len() != w[5].2.len()); 
            } else if j == 6 { assert(w[2].2.len() != w[6].2.len()); 
            } else if j == 7 { assert(w[2].2.len() != w[7].2.len()); 
            } else if j == 8 { assert(w[2].2.len() != w[8].2.len()); 
            } else if j == 9 { assert(w[2].2.len() != w[9].2.len()); 
            } else if j == 10 { assert(w[2].2.len() != w[10].2.len()); 
            } else if j == 11 { assert(w[2].2.len() != w[11].2.len()); 
            } else if j == 12 { assert(w[2].2.len() != w[12].2.len()); 
            }
        } else if i == 3 {
            if j == 4 { assert(w[3].2.len() != w[4].2.len()); 
            } else if j == 5 { assert(w[3].2.len() != w[5].2.len()); 
            } else if j == 6 { assert(w[3].2.len() != w[6].2.len()); 
            } else if j == 7 { assert(w[3].2.len() != w[7].2.len()); 
            } else if j == 8 { assert(w[3].2.len() != w[8].2.len()); 
            } else if j == 9 { assert(w[3].2.len() != w[9].2.len()); 
            } else if j == 10 { assert(w[3].2.len() != w[10].2.len()); 
            } else if j == 11 { assert(w[3].2.len() != w[11].2.len()); 
            } else if j == 12 { assert(w[3].2.len() != w[12].2.len()); 
            }
        } else if i == 4 {
            if j == 5 { assert(w[4].2.len() != w[5].2.len()); 
            } else if j == 6 { assert(w[4].2.len() != w[6].2.len()); 
            } else if j == 7 { assert(w[4].2.len() != w[7].2.len()); 
            } else if j == 8 { assert(w[4].2.len() != w[8].2.len()); 
            } else if j == 9 { assert(w[4].2.len() != w[9].2.len()); 
            } else if j == 10 { assert(w[4].2.len() != w[10].2.len()); 
            } else if j == 11 { assert(w[4].2.len() != w[11].2.len()); 
            } else if j == 12 { assert(w[4].2.len() != w[12].2.len()); 
            }
        } else if i == 5 {
            if j == 6 { assert(w[5].2.len() != w[6].2.len()); 
            } else if j == 7 { assert(w[5].2.len() != w[7].2.len()); 
            } else if j == 8 { assert(w[5].2.len() != w[8].2.len()); 
            } else if j == 9 { assert(w[5].2.len() != w[9].2.len()); 
            } else if j == 10 { assert(w[5].2.len() != w[10].2.len()); 
            } else if j == 11 { assert(w[5].2.len() != w[11].2.len()); 
            } else if j == 12 { assert(w[5].2.len() != w[12].2.len()); 
            }
        } else if i == 6 {
            if j == 7 { assert(w[6].2.len() != w[7].2.len()); 
            } else if j == 8 { assert(w[6].2.len() != w[8].2.len()); 
            } else if j == 9 { assert(w[6].2.len() != w[9].2.len()); 
            } else if j == 10 { assert(w[6].2.len() != w[10].2.len()); 
            } else if j == 11 { assert(w[6].2.len() != w[11].2.len()); 
            } else if j == 12 { assert(w[6].2.len() != w[12].2.len()); 
            }
        } else if i == 7 {
            if j == 8 { assert(w[7].2.len() != w[8].2.len()); 
            } else if j == 9 { assert(w[7].2.len() != w[9].2.len()); 
            } else if j == 10 { assert(w[7].2.len() != w[10].2.len()); 
            } else if j == 11 { assert(w[7].2.len() != w[11].2.len()); 
            } else if j == 12 { assert(w[7].2.len() != w[12].2.len()); 
            }
        } else if i == 8 {
            if j == 9 { assert(w[8].2.len() != w[9].2.len()); 
            } else if j == 10 { assert(w[8].2.len() != w[10].2.len()); 
            } else if j == 11 { assert(w[8].2.len() != w[11].2.len()); 
            } else if j == 12 { assert(w[8].2.len() != w[12].2.len()); 
            }
        } else if i == 9 {
            if j == 10 { assert(w[9].2.len() != w[10].2.len()); 
            } else if j == 11 { assert(w[9].2.len() != w[11].2.len()); 
            } else if j == 12 { assert(w[9].2.len() != w[12].2.len()); 
            }
        } else if i == 10 {
            if j == 11 { assert(w[10].2.len() != w[11].2.len()); 
            } else if j == 12 { assert(w[10].2.len() != w[12].2.len()); 
            }
        } else if i == 11 {
            if j == 12 { assert(w[11].2.len() != w[12].2.len()); 
            }
        }
    }
}

/// The event logs and registry hives of the default Windows configuration
/// are read from paths that end in their names.
proof fn lemma_windows_named_paths()
    ensures
        forall|k: int| 0 <= k < windows_defaults().len() && (windows_defaults()[k].0 == "System.evtx"@ || windows_defaults()[k].0 == "Security.evtx"@ || windows_defaults()[k].0 == "Application.evtx"@) ==> has_suffix(#[trigger] windows_defaults()[k].2, "\\"@ + windows_defaults()[k].0),
        forall|k: int| 0 <= k < windows_defaults().len() && (windows_defaults()[k].0 == "SYSTEM"@ || windows_defaults()[k].0 == "SOFTWARE"@ || windows_defaults()[k].0 == "SECURITY"@ || windows_defaults()[k].0 == "SAM"@) ==> has_suffix(#[trigger] windows_defaults()[k].2, "\\config\\"@ + windows_defaults()[k].0),
{
    let w = windows_defaults();
    reveal_strlit("Application.evtx");
    reveal_strlit("MFT");
    reveal_strlit("NTUSER.DAT");
    reveal_strlit("PowerShell.evtx");
    reveal_strlit("Prefetch");
    reveal_strlit("SAM");
    reveal_strlit("SECURITY");
    reveal_strlit("SOFTWARE");
    reveal_strlit("SYSTEM");
    reveal_strlit("Security.evtx");
    reveal_strlit("Sysmon.evtx");
    reveal_strlit("System.evtx");
    reveal_strlit("USN Journal");
    reveal_strlit("\\");
    reveal_strlit("\\\\?\\%USERPROFILE%\\NTUSER.DAT");
    reveal_strlit("\\\\?\\C:\\$Extend\\$UsnJrnl:$J");
    reveal_strlit("\\\\?\\C:\\$MFT");
    reveal_strlit("\\\\?\\C:\\Windows\\Prefetch");
    reveal_strlit("\\\\?\\C:\\Windows\\System32\\config\\SAM");
    reveal_strlit("\\\\?\\C:\\Windows\\System32\\config\\SECURITY");
    reveal_strlit("\\\\?\\C:\\Windows\\System32\\config\\SOFTWARE");
    reveal_strlit("\\\\?\\C:\\Windows\\System32\\config\\SYSTEM");
    reveal_strlit("\\\\?\\C:\\Windows\\System32\\winevt\\Logs\\Application.evtx");
    reveal_strlit("\\\\?\\C:\\Windows\\System32\\winevt\\Logs\\Microsoft-Windows-PowerShell%4Operational.evtx");
    reveal_strlit("\\\\?\\C:\\Windows\\System32\\winevt\\Logs\\Microsoft-Windows-Sysmon%4Operational.evtx");
    reveal_strlit("\\\\?\\C:\\Windows\\System32\\winevt\\Logs\\Security.evtx");
    reveal_strlit("\\\\?\\C:\\Windows\\System32\\winevt\\Logs\\System.evtx");
    reveal_strlit("\\config\\");
    assert(w[0].0 == "MFT"@ && w[0].2 == "\\\\?\\C:\\$MFT"@);
    assert(w[1].0 == "SYSTEM"@ && w[1].2 == "\\\\?\\C:\\Windows\\System32\\config\\SYSTEM"@);
    assert(w[2].0 == "SOFTWARE"@ && w[2].2 == "\\\\?\\C:\\Windows\\System32\\config\\SOFTWARE"@);
    assert(w[3].0 == "SECURITY"@ && w[3].2 == "\\\\?\\C:\\Windows\\System32\\config\\SECURITY"@);
    assert(w[4].0 == "SAM"@ && w[4].2 == "\\\\?\\C:\\Windows\\System32\\config\\SAM"@);
    assert(w[5].0 == "NTUSER.DAT"@ && w[5].2 == "\\\\?\\%USERPROFILE%\\NTUSER.DAT"@);
    assert(w[6].0 == "System.evtx"@ && w[6].2 == "\\\\?\\C:\\Windows\\System32\\winevt\\Logs\\System.evtx"@);
    assert(w[7].0 == "Security.evtx"@ && w[7].2 == "\\\\?\\C:\\Windows\\System32\\winevt\\Logs\\Security.evtx"@);
    assert(w[8].0 == "Application.evtx"@ && w[8].2 == "\\\\?\\C:\\Windows\\System32\\winevt\\Logs\\Application.evtx"@);
    assert(w[9].0 == "PowerShell.evtx"@ && w[9].2 == "\\\\?\\C:\\Windows\\System32\\winevt\\Logs\\Microsoft-Windows-PowerShell%4Operational.evtx"@);
    assert(w[10].0 == "Sysmon.evtx"@ && w[10].2 == "\\\\?\\C:\\Windows\\System32\\winevt\\Logs\\Microsoft-Windows-Sysmon%4Operational.evtx"@);
    assert(w[11].0 == "Prefetch"@ && w[11].2 == "\\\\?\\C:\\Windows\\Prefetch"@);
    assert(w[12].0 == "USN Journal"@ && w[12].2 == "\\\\?\\C:\\$Extend\\$UsnJrnl:$J"@);
    assert forall|k: int| 0 <= k < w.len() && (w[k].0 == "System.evtx"@ || w[k].0 == "Security.evtx"@ || w[k].0 == "Application.evtx"@) implies has_suffix(#[trigger] w[k].2, "\\"@ + w[k].0) by {
        if k == 0 {
            assert(w[0].0.len() != "System.evtx"@.len());
            assert(w[0].0.len() != "Security.evtx"@.len());
            assert(w[0].0.len() != "Application.evtx"@.len());
        } else if k == 1 {
            assert(w[1].0.len() != "System.evtx"@.len());
            assert(w[1].0.len() != "Security.evtx"@.len());
            assert(w[1].0.len() != "Application.evtx"@.len());
        } else if k == 2 {
            assert(w[2].0.len() != "System.evtx"@.len());
            assert(w[2].0.len() != "Security.evtx"@.len());
            assert(w[2].0.len() != "Application.evtx"@.len());
        } else if k == 3 {
            assert(w[3].0.len() != "System.evtx"@.len());
            assert(w[3].0.len() != "Security.evtx"@.len());
            assert(w[3].0.len() != "Application.evtx"@.len());
        } else if k == 4 {
            assert(w[4].0.len() != "System.evtx"@.len());
            assert(w[4].0.len() != "Security.evtx"@.len());
            assert(w[4].0.len() != "Application.evtx"@.len());
        } else if k == 5 {
            assert(w[5].0.len() != "System.evtx"@.len());
            assert(w[5].0.len() != "Security.evtx"@.len());
            assert(w[5].0.len() != "Application.evtx"@.len());
        } else if k == 6 {
            assert(w[6].2.subrange(35, 47) =~= "\\"@ + w[6].0);
        } else if k == 7 {
            assert(w[7].2.subrange(35, 49) =~= "\\"@ + w[7].0);
        } else if k == 8 {
            assert(w[8].2.subrange(35, 52) =~= "\\"@ + w[8].0);
        } else if k == 9 {
            assert(w[9].0.len() != "System.evtx"@.len());
            assert(w[9].0.len() != "Security.evtx"@.len());
            assert(w[9].0.len() != "Application.evtx"@.len());
        } else if k == 10 {
            assert(w[10].0[3] != "System.evtx"@[3]);
            assert(w[10].0.len() != "Security.evtx"@.len());
            assert(w[10].0.len() != "Application.evtx"@.len());
        } else if k == 11 {
            assert(w[11].0.len() != "System.evtx"@.len());
            assert(w[11].0.len() != "Security.evtx"@.len());
            assert(w[11].0.len() != "Application.evtx"@.len());
        } else if k == 12 {
            assert(w[12].0[0] != "System.evtx"@[0]);
            assert(w[12].0.len() != "Security.evtx"@.len());
            assert(w[12].0.len() != "Application.evtx"@.len());
        }
    }
    assert forall|k: int| 0 <= k < w.len() && (w[k].0 == "SYSTEM"@ || w[k].0 == "SOFTWARE"@ || w[k].0 == "SECURITY"@ || w[k].0 == "SAM"@) implies has_suffix(#[trigger] w[k].2, "\\config\\"@ + w[k].0) by {
        if k == 0 {
            assert(w[0].0.len() != "SYSTEM"@.len());
            assert(w[0].0.len() != "SOFTWARE"@.len());
            assert(w[0].0.len() != "SECURITY"@.len());
            assert(w[0].0[0] != "SAM"@[0]);
        } else if k == 1 {
            assert(w[1].2.subrange(23, 37) =~= "\\config\\"@ + w[1].0);
        } else if k == 2 {
            assert(w[2].2.subrange(23, 39) =~= "\\config\\"@ + w[2].0);
        } else if k == 3 {
            assert(w[3].2.subrange(23, 39) =~= "\\config\\"@ + w[3].0);
        } else if k == 4 {
            assert(w[4].2.subrange(23, 34) =~= "\\config\\"@ + w[4].0);
        } else if k == 5 {
            assert(w[5].0.len() != "SYSTEM"@.len());
            assert(w[5].0.len() != "SOFTWARE"@.len());
            assert(w[5].0.len() != "SECURITY"@.len());
            assert(w[5].0.len() != "SAM"@.len());
        } else if k == 6 {
            assert(w[6].0.len() != "SYSTEM"@.len());
            assert(w[6].0.len() != "SOFTWARE"@.len());
            assert(w[6].0.len() != "SECURITY"@.len());
            assert(w[6].0.len() != "SAM"@.len());
        } else if k == 7 {
            assert(w[7].0.len() != "SYSTEM"@.len());
            assert(w[7].0.len() != "SOFTWARE"@.len());
            assert(w[7].0.len() != "SECURITY"@.len());
            assert(w[7].0.len() != "SAM"@.len());
        } else if k == 8 {
            assert(w[8].0.len() != "SYSTEM"@.len());
            assert(w[8].0.len() != "SOFTWARE"@.len());
            assert(w[8].0.len() != "SECURITY"@.len());
            assert(w[8].0.len() != "SAM"@.len());
        } else if k == 9 {
            assert(w[9].0.len() != "SYSTEM"@.len());
            assert(w[9].0.len() != "SOFTWARE"@.len());
            assert(w[9].0.len() != "SECURITY"@.len());
            assert(w[9].0.len() != "SAM"@.len());
        } else if k == 10 {
            assert(w[10].0.len() != "SYSTEM"@.len());
            assert(w[10].0.len() != "SOFTWARE"@.len());
            assert(w[10].0.len() != "SECURITY"@.len());
            assert(w[10].0.len() != "SAM"@.len());
        } else if k == 11 {
            assert(w[11].0.len() != "SYSTEM"@.len());
            assert(w[11].0[0] != "SOFTWARE"@[0]);
            assert(w[11].0[0] != "SECURITY"@[0]);
            assert(w[11].0.len() != "SAM"@.len());
        } else if k == 12 {
            assert(w[12].0.len() != "SYSTEM"@.len());
            assert(w[12].0.len() != "SOFTWARE"@.len());
            assert(w[12].0.len() != "SECURITY"@.len());
            assert(w[12].0.len() != "SAM"@.len());
        }
    }
}

/// The default Windows configuration collects each source once: no two of
/// its artifacts share a source path. Each of the System, Security and
/// Application event logs, named X.evtx, is read from a path ending in
/// `\X.evtx`, and each registry hive named SYSTEM, SOFTWARE, SECURITY or
/// SAM from a path ending in `\config\` and its name.
pub proof fn law_default_windows_sources(c: CollectionConfig, version: Seq<char>, description: Seq<char>)
    requires
        is_plain_config(c, version, description, windows_defaults()),
    ensures
        forall|i: int, j: int|
            0 <= i < j < c.artifacts@.len() ==> (#[trigger] c.artifacts@[i]).source_path@ != (
            #[trigger] c.artifacts@[j]).source_path@,
        forall|k: int|
            0 <= k < c.artifacts@.len() && ((#[trigger] c.artifacts@[k]).name@ == "System.evtx"@
                || c.artifacts@[k].name@ == "Security.evtx"@ || c.artifacts@[k].name@ == "Application.evtx"@)
                ==> has_suffix(c.artifacts@[k].source_path@, "\\"@ + c.artifacts@[k].name@),
        forall|k: int|
            0 <= k < c.artifacts@.len() && ((#[trigger] c.artifacts@[k]).name@ == "SYSTEM"@
                || c.artifacts@[k].name@ == "SOFTWARE"@ || c.artifacts@[k].name@ == "SECURITY"@
                || c.artifacts@[k].name@ == "SAM"@) ==> has_suffix(
                c.artifacts@[k].source_path@,
                "\\config\\"@ + c.artifacts@[k].name@,
            ),
{
    lemma_windows_sources_distinct();
    let w = windows_defaults();
    let views = c.artifacts@.map_values(|a: Artifact| artifact_view(a));
    assert(views == w);
    assert forall|k: int| 0 <= k < c.artifacts@.len() implies #[trigger] c.artifacts@[k].source_path@ == w[k].2
        && c.artifacts@[k].name@ == w[k].0 by {
        assert(views[k] == artifact_view(c.artifacts@[k]));
    }
    assert forall|i: int, j: int| 0 <= i < j < c.artifacts@.len() implies (#[trigger] c.artifacts@[i]).source_path@
        != (#[trigger] c.artifacts@[j]).source_path@ by {
        assert(w[i].2 != w[j].2);
    }
    lemma_windows_named_paths();
}

/// The source paths of the default linux configuration are all different.
proof fn lemma_linux_sources_distinct()
    ensures
        linux_defaults().len() == 11,
        forall|i: int, j: int| 0 <= i < j < linux_defaults().len() ==> #[trigger] linux_defaults()[i].2 != #[trigger] linux_defaults()[j].2,
{
    let w = linux_defaults();
    reveal_strlit("$HOME/.bash_history");
    reveal_strlit("/etc/cron.d");
    reveal_strlit("/etc/crontab");
    reveal_strlit("/etc/systemd/system");
    reveal_strlit("/proc/cmdline");
    reveal_strlit("/proc/modules");
    reveal_strlit("/var/log/audit/audit.log");
    reveal_strlit("/var/log/auth.log");
    reveal_strlit("/var/log/dpkg.log");
    reveal_strlit("/var/log/journal");
    reveal_strlit("/var/log/syslog");
    assert(w[0].2 == "/var/log/syslog"@);
    assert(w[1].2 == "/var/log/auth.log"@);
    assert(w[2].2 == "/var/log/journal"@);
    assert(w[3].2 == "/proc/cmdline"@);
    assert(w[4].2 == "/proc/modules"@);
    assert(w[5].2 == "/var/log/audit/audit.log"@);
    assert(w[6].2 == "/etc/crontab"@);
    assert(w[7].2 == "/etc/cron.d"@);
    assert(w[8].2 == "$HOME/.bash_history"@);
    assert(w[9].2 == "/var/log/dpkg.log"@);
    assert(w[10].2 == "/etc/systemd/system"@);
    assert forall|i: int, j: int| 0 <= i < j < w.len() implies #[trigger] w[i].2 != #[trigger] w[j].2 by {
        if i == 0 {
            if j == 1 { assert(w[0].2.len() != w[1].2.len());
            } else if j == 2 { assert(w[0].2.len() != w[2].2.len());
            } else if j == 3 { assert(w[0].2.len() != w[3].2.len());
            } else if j == 4 { assert(w[0].2.len() != w[4].2.len());
            } else if j == 5 { assert(w[0].2.len() != w[5].2.len());
            } else if j == 6 { assert(w[0].2.len() != w[6].2.len());
            } else if j == 7 { assert(w[0].2.len() != w[7].2.len());
            } else if j == 8 { assert(w[0].2.len() != w[8].2.len());
            } else if j == 9 { assert(w[0].2.len() != w[9].2.len());
            } else if j == 10 { assert(w[0].2.len() != w[10].2.len());
            }
        } else if i == 1 {
            if j == 2 { assert(w[1].2.len() != w[2].2.len());
            } else if j == 3 { assert(w[1].2.len() != w[3].2.len());
            } else if j == 4 { assert(w[1].2.len() != w[4].2.len());
            } else if j == 5 { assert(w[1].2.len() != w[5].2.len());
            } else if j == 6 { assert(w[1].2.len() != w[6].2.len());
            } else if j == 7 { assert(w[1].2.len() != w[7].2.len());
            } else if j == 8 { assert(w[1].2.len() != w[8].2.len());
            } else if j == 9 { assert(w[1].2[9] != w[9].2[9]);
            } else if j == 10 { assert(w[1].2.len() != w[10].2.len());
            }
        } else if i == 2 {
            if j == 3 { assert(w[2].2.len() != w[3].2.len());
            } else if j == 4 { assert(w[2].2.len() != w[4].2.len());
            } else if j == 5 { assert(w[2].2.len() != w[5].2.len());
            } else if j == 6 { assert(w[2].2.len() != w[6].2.len());
            } else if j == 7 { assert(w[2].2.len() != w[7].2.len());
            } else if j == 8 { assert(w[2].2.len() != w[8].2.len());
            } else if j == 9 { assert(w[2].2.len() != w[9].2.len());
            } else if j == 10 { assert(w[2].2.len() != w[10].2.len());
            }
        } else if i == 3 {
            if j == 4 { assert(w[3].2[6] != w[4].2[6]);
            } else if j == 5 { assert(w[3].2.len() != w[5].2.len());
            } else if j == 6 { assert(w[3].2.len() != w[6].2.len());
            } else if j == 7 { assert(w[3].2.len() != w[7].2.len());
            } else if j == 8 { assert(w[3].2.len() != w[8].2.len());
            } else if j == 9 { assert(w[3].2.len() != w[9].2.len());
            } else if j == 10 { assert(w[3].2.len() != w[10].2.len());
            }
        } else if i == 4 {
            if j == 5 { assert(w[4].2.len() != w[5].2.len());
            } else if j == 6 { assert(w[4].2.len() != w[6].2.len());
            } else if j == 7 { assert(w[4].2.len() != w[7].2.len());
            } else if j == 8 { assert(w[4].2.len() != w[8].2.len());
            } else if j == 9 { assert(w[4].2.len() != w[9].2.len());
            } else if j == 10 { assert(w[4].2.len() != w[10].2.len());
            }
        } else if i == 5 {
            if j == 6 { assert(w[5].2.len() != w[6].2.len());
            } else if j == 7 { assert(w[5].2.len() != w[7].2.len());
            } else if j == 8 { assert(w[5].2.len() != w[8].2.len());
            } else if j == 9 { assert(w[5].2.len() != w[9].2.len());
            } else if j == 10 { assert(w[5].2.len() != w[10].2.len());
            }
        } else if i == 6 {
            if j == 7 { assert(w[6].2.len() != w[7].2.len());
            } else if j == 8 { assert(w[6].2.len() != w[8].2.len());
            } else if j == 9 { assert(w[6].2.len() != w[9].2.len());
            } else if j == 10 { assert(w[6].2.len() != w[10].2.len());
            }
        } else if i == 7 {
            if j == 8 { assert(w[7].2.len() != w[8].2.len());
            } else if j == 9 { assert(w[7].2.len() != w[9].2.len());
            } else if j == 10 { assert(w[7].2.len() != w[10].2.len());
            }
        } else if i == 8 {
            if j == 9 { assert(w[8].2.len() != w[9].2.len());
            } else if j == 10 { assert(w[8].2[0] != w[10].2[0]);
            }
        } else if i == 9 {
            if j == 10 { assert(w[9].2.len() != w[10].2.len());
            }
        }
    }
}

/// The default linux configuration collects each source once: no two of its
/// artifacts share a source path.
pub proof fn law_default_linux_sources(c: CollectionConfig, version: Seq<char>, description: Seq<char>)
    requires
        is_plain_config(c, version, description, linux_defaults()),
    ensures
        forall|i: int, j: int|
            0 <= i < j < c.artifacts@.len() ==> (#[trigger] c.artifacts@[i]).source_path@ != (
            #[trigger] c.artifacts@[j]).source_path@,
{
    lemma_linux_sources_distinct();
    let w = linux_defaults();
    let views = c.artifacts@.map_values(|a: Artifact| artifact_view(a));
    assert(views == w);
    assert forall|i: int, j: int| 0 <= i < j < c.artifacts@.len() implies (#[trigger] c.artifacts@[i]).source_path@
        != (#[trigger] c.artifacts@[j]).source_path@ by {
        assert(views[i] == artifact_view(c.artifacts@[i]));
        assert(views[j] == artifact_view(c.artifacts@[j]));
        assert(w[i].2 != w[j].2);
    }
}

/// The source paths of the default macos configuration are all different.
proof fn lemma_macos_sources_distinct()
    ensures
        macos_defaults().len() == 10,
        forall|i: int, j: int| 0 <= i < j < macos_defaults().len() ==> #[trigger] macos_defaults()[i].2 != #[trigger] macos_defaults()[j].2,
{
    let w = macos_defaults();
    reveal_strlit("$HOME/Library/Application Support/Knowledge/knowledgeC.db");
    reveal_strlit("$HOME/Library/LaunchAgents");
    reveal_strlit("$HOME/Library/Preferences/com.apple.LaunchServices.QuarantineEventsV2");
    reveal_strlit("/.Spotlight-V100");
    reveal_strlit("/Library/LaunchAgents");
    reveal_strlit("/Library/LaunchDaemons");
    reveal_strlit("/Library/Preferences");
    reveal_strlit("/System/Volumes/Data/.fseventsd");
    reveal_strlit("/private/var/db/diagnostics");
    reveal_strlit("/var/log/system.log");
    assert(w[0].2 == "/var/log/system.log"@);
    assert(w[1].2 == "/private/var/db/diagnostics"@);
    assert(w[2].2 == "/System/Volumes/Data/.fseventsd"@);
    assert(w[3].2 == "$HOME/Library/Preferences/com.apple.LaunchServices.QuarantineEventsV2"@);
    assert(w[4].2 == "$HOME/Library/Application Support/Knowledge/knowledgeC.db"@);
    assert(w[5].2 == "/Library/LaunchAgents"@);
    assert(w[6].2 == "$HOME/Library/LaunchAgents"@);
    assert(w[7].2 == "/Library/LaunchDaemons"@);
    assert(w[8].2 == "/.Spotlight-V100"@);
    assert(w[9].2 == "/Library/Preferences"@);
    assert forall|i: int, j: int| 0 <= i < j < w.len() implies #[trigger] w[i].2 != #[trigger] w[j].2 by {
        if i == 0 {
            if j == 1 { assert(w[0].2.len() != w[1].2.len());
            } else if j == 2 { assert(w[0].2.len() != w[2].2.len());
            } else if j == 3 { assert(w[0].2.len() != w[3].2.len());
            } else if j == 4 { assert(w[0].2.len() != w[4].2.len());
            } else if j == 5 { assert(w[0].2.len() != w[5].2.len());
            } else if j == 6 { assert(w[0].2.len() != w[6].2.len());
            } else if j == 7 { assert(w[0].2.len() != w[7].2.len());
            } else if j == 8 { assert(w[0].2.len() != w[8].2.len());
            } else if j == 9 { assert(w[0].2.len() != w[9].2.len());
            }
        } else if i == 1 {
            if j == 2 { assert(w[1].2.len() != w[2].2.len());
            } else if j == 3 { assert(w[1].2.len() != w[3].2.len());
            } else if j == 4 { assert(w[1].2.len() != w[4].2.len());
            } else if j == 5 { assert(w[1].2.len() != w[5].2.len());
            } else if j == 6 { assert(w[1].2.len() != w[6].2.len());
            } else if j == 7 { assert(w[1].2.len() != w[7].2.len());
            } else if j == 8 { assert(w[1].2.len() != w[8].2.len());
            } else if j == 9 { assert(w[1].2.len() != w[9].2.len());
            }
        } else if i == 2 {
            if j == 3 { assert(w[2].2.len() != w[3].2.len());
            } else if j == 4 { assert(w[2].2.len() != w[4].2.len());
            } else if j == 5 { assert(w[2].2.len() != w[5].2.len());
            } else if j == 6 { assert(w[2].2.len() != w[6].2.len());
            } else if j == 7 { assert(w[2].2.len() != w[7].2.len());
            } else if j == 8 { assert(w[2].2.len() != w[8].2.len());
            } else if j == 9 { assert(w[2].2.len() != w[9].2.len());
            }
        } else if i == 3 {
            if j == 4 { assert(w[3].2.len() != w[4].2.len());
            } else if j == 5 { assert(w[3].2.len() != w[5].2.len());
            } else if j == 6 { assert(w[3].2.len() != w[6].2.len());
            } else if j == 7 { assert(w[3].2.len() != w[7].2.len());
            } else if j == 8 { assert(w[3].2.len() != w[8].2.len());
            } else if j == 9 { assert(w[3].2.len() != w[9].2.len());
            }
        } else if i == 4 {
            if j == 5 { assert(w[4].2.len() != w[5].2.len());
            } else if j == 6 { assert(w[4].2.len() != w[6].2.len());
            } else if j == 7 { assert(w[4].2.len() != w[7].2.len());
            } else if j == 8 { assert(w[4].2.len() != w[8].2.len());
            } else if j == 9 { assert(w[4].2.len() != w[9].2.len());
            }
        } else if i == 5 {
            if j == 6 { assert(w[5].2.len() != w[6].2.len());
            } else if j == 7 { assert(w[5].2.len() != w[7].2.len());
            } else if j == 8 { assert(w[5].2.len() != w[8].2.len());
            } else if j == 9 { assert(w[5].2.len() != w[9].2.len());
            }
        } else if i == 6 {
            if j == 7 { assert(w[6].2.len() != w[7].2.len());
            } else if j == 8 { assert(w[6].2.len() != w[8].2.len());
            } else if j == 9 { assert(w[6].2.len() != w[9].2.len());
            }
        } else if i == 7 {
            if j == 8 { assert(w[7].2.len() != w[8].2.len());
            } else if j == 9 { assert(w[7].2.len() != w[9].2.len());
            }
        } else if i == 8 {
            if j == 9 { assert(w[8].2.len() != w[9].2.len());
            }
        }
    }
}

/// The default macos configuration collects each source once: no two of its
/// artifacts share a source path.
pub proof fn law_default_macos_sources(c: CollectionConfig, version: Seq<char>, description: Seq<char>)
    requires
        is_plain_config(c, version, description, macos_defaults()),
    ensures
        forall|i: int, j: int|
            0 <= i < j < c.artifacts@.len() ==> (#[trigger] c.artifacts@[i]).source_path@ != (
            #[trigger] c.artifacts@[j]).source_path@,
{
    lemma_macos_sources_distinct();
    let w = macos_defaults();
    let views = c.artifacts@.map_values(|a: Artifact| artifact_view(a));
    assert(views == w);
    assert forall|i: int, j: int| 0 <= i < j < c.artifacts@.len() implies (#[trigger] c.artifacts@[i]).source_path@
        != (#[trigger] c.artifacts@[j]).source_path@ by {
        assert(views[i] == artifact_view(c.artifacts@[i]));
        assert(views[j] == artifact_view(c.artifacts@[j]));
        assert(w[i].2 != w[j].2);
    }
}

/// The source paths of the default minimal configuration are all different.
proof fn lemma_minimal_sources_distinct()
    ensures
        minimal_defaults().len() == 2,
        forall|i: int, j: int| 0 <= i < j < minimal_defaults().len() ==> #[trigger] minimal_defaults()[i].2 != #[trigger] minimal_defaults()[j].2,
{
    let w = minimal_defaults();
    reveal_strlit("/etc/hostname");
    reveal_strlit("/var/log");
    assert(w[0].2 == "/etc/hostname"@);
    assert(w[1].2 == "/var/log"@);
    assert forall|i: int, j: int| 0 <= i < j < w.len() implies #[trigger] w[i].2 != #[trigger] w[j].2 by {
        if i == 0 {
            if j == 1 { assert(w[0].2.len() != w[1].2.len());
            }
        }
    }
}

/// The default minimal configuration collects each source once: no two of its
/// artifacts share a source path.
pub proof fn law_default_minimal_sources(c: CollectionConfig, version: Seq<char>, description: Seq<char>)
    requires
        is_plain_config(c, version, description, minimal_defaults()),
    ensures
        forall|i: int, j: int|
            0 <= i < j < c.artifacts@.len() ==> (#[trigger] c.artifacts@[i]).source_path@ != (
            #[trigger] c.artifacts@[j]).source_path@,
{
    lemma_minimal_sources_distinct();
    let w = minimal_defaults();
    let views = c.artifacts@.map_values(|a: Artifact| artifact_view(a));
    assert(views == w);
    assert forall|i: int, j: int| 0 <= i < j < c.artifacts@.len() implies (#[trigger] c.artifacts@[i]).source_path@
        != (#[trigger] c.artifacts@[j]).source_path@ by {
        assert(views[i] == artifact_view(c.artifacts@[i]));
        assert(views[j] == artifact_view(c.artifacts@[j]));
        assert(w[i].2 != w[j].2);
    }
}

/// A text that lacks one of the characters of a pattern holds no occurrence of it.
proof fn lemma_no_match_without_char(s: Seq<char>, pat: Seq<char>, j: int)
    requires
        0 <= j < pat.len(),
        !s.contains(pat[j]),
    ensures
        !contains_sub(s, pat),
{
    assert forall|i: int| !matches_at(s, pat, i) by {
        if matches_at(s, pat, i) {
            assert(s.subrange(i, i + pat.len())[j] == s[i + j]);
        }
    }
}

/// `[heap]` names no library and holds itself.
proof fn lemma_heap_literal()
    ensures
        !crate::text::ends_with("[heap]"@, ".so"@),
        !contains_sub("[heap]"@, ".so."@),
        !contains_sub("[heap]"@, "/lib/"@),
        contains_sub("[heap]"@, "[heap]"@),
{
    reveal_strlit("[heap]");
    reveal_strlit(".so");
    reveal_strlit(".so.");
    reveal_strlit("/lib/");
    let h = "[heap]"@;
    assert(h =~= seq!['[', 'h', 'e', 'a', 'p', ']']);
    assert(!h.contains('.') && !h.contains('/')) by {
        assert forall|i: int| 0 <= i < h.len() implies h[i] != '.' && h[i] != '/' by {}
    }
    lemma_no_match_without_char(h, ".so."@, 0);
    lemma_no_match_without_char(h, "/lib/"@, 0);
    assert(h.subrange(3, 6)[2] != ".so"@[2]);
    assert(h.subrange(0, 6) =~= h);
    assert(matches_at(h, h, 0));
}

/// `[stack]` names no library and no heap, and holds itself.
proof fn lemma_stack_literal()
    ensures
        !crate::text::ends_with("[stack]"@, ".so"@),
        !contains_sub("[stack]"@, ".so."@),
        !contains_sub("[stack]"@, "/lib/"@),
        !contains_sub("[stack]"@, "[heap]"@),
        contains_sub("[stack]"@, "[stack]"@),
{
    reveal_strlit("[stack]");
    reveal_strlit("[heap]");
    reveal_strlit(".so");
    reveal_strlit(".so.");
    reveal_strlit("/lib/");
    let st = "[stack]"@;
    assert(st =~= seq!['[', 's', 't', 'a', 'c', 'k', ']']);
    assert(!st.contains('.') && !st.contains('/') && !st.contains('h')) by {
        assert forall|i: int| 0 <= i < st.len() implies st[i] != '.' && st[i] != '/' && st[i] != 'h' by {}
    }
    lemma_no_match_without_char(st, ".so."@, 0);
    lemma_no_match_without_char(st, "/lib/"@, 0);
    lemma_no_match_without_char(st, "[heap]"@, 1);
    assert(st.subrange(4, 7)[2] != ".so"@[2]);
    assert(st.subrange(0, 7) =~= st);
    assert(matches_at(st, st, 0));
}

/// The heap and the stack of a process are typed as such: a region mapping
/// `[heap]` is heap memory and one mapping `[stack]` is stack memory.
pub proof fn law_heap_and_stack_regions(perms: Seq<char>)
    ensures
        maps_region_type(Some("[heap]"@), perms) == MemoryRegionType::Heap,
        maps_region_type(Some("[stack]"@), perms) == MemoryRegionType::Stack,
{
    lemma_heap_literal();
    lemma_stack_literal();
}

/// A process counts as a system process exactly when its lowercase name is
/// one of the named system processes, begins with `system`, or is a short
/// daemon name (ending in `d`, at most eight bytes), or its ID is below 10.
pub proof fn law_system_process_characterized(pid: u32, lower: Seq<char>)
    ensures
        is_system(pid, lower) <==> (named_system_process(lower) || crate::text::starts_with(lower, "system"@)
            || (has_suffix(lower, "d"@) && crate::collectors::memory::filters::utf8_len(lower) <= 8) || pid < 10),
{
    lemma_named_system_listed();
    let l = crate::collectors::memory::filters::system_process_names();
    if l.contains(lower) {
        let k = choose|k: int| 0 <= k < l.len() && l[k] == lower;
        assert(named_system_process(l[k]));
    }
}

/// On macOS a property list held in a file is converted, a directory of
/// them is copied, and a missing one is reported; every artifact type
/// without a rule of its own is copied as a file where its source is not a
/// directory.
pub proof fn law_macos_other_sources(t: ArtifactType, source: SourceKind)
    ensures
        macos_action(ArtifactType::MacOS(MacOSArtifactType::Plist), SourceKind::File) == CollectionAction::ConvertPlist,
        macos_action(ArtifactType::MacOS(MacOSArtifactType::Plist), SourceKind::Missing)
            == CollectionAction::ReportMissing,
        t != ArtifactType::MacOS(MacOSArtifactType::UnifiedLogs) && t != ArtifactType::MacOS(MacOSArtifactType::Plist)
            && source != SourceKind::Directory ==> macos_action(t, source) == CollectionAction::CopyFile,
{
}

} // verus!
