//! The Linux collector: which artifact types it takes and how it collects each.
use vstd::prelude::*;
use crate::config::artifact_types::{ArtifactType, LinuxArtifactType};
use crate::collectors::collector::ArtifactCollector;
use crate::collectors::platforms::common::{
    CollectionAction, FallbackCollector, SourceKind, copy_by_kind, dir_or_file, is_generic_type,
    is_generic_artifact_type,
};
use crate::text::{chars_of, starts_with, starts_with_exec};

verus! {

/// The Linux collector.
#[derive(Debug, Clone, Copy)]
pub struct LinuxCollector {
    fallback: FallbackCollector,
}

/// The artifact types the Linux collector takes: the Linux ones and the generic ones.
pub open spec fn linux_handles(t: ArtifactType) -> bool {
    t is Linux || is_generic_type(t)
}

/// Whether `path` is `base` or lies under it.
pub open spec fn is_under(path: Seq<char>, base: Seq<char>) -> bool {
    path == base || starts_with(path, base + seq!['/'])
}

/// The entries of `/proc` that refer to the collecting process itself:
/// `/proc/self` and `/proc/thread-self` and what lies under them.
pub open spec fn is_self_referential(path: Seq<char>) -> bool {
    is_under(path, "/proc/self"@) || is_under(path, "/proc/thread-self"@)
}

/// How the Linux collector collects an artifact of type `t` whose source
/// path is `path` and holds `source`.
pub open spec fn linux_action(t: ArtifactType, path: Seq<char>, source: SourceKind) -> CollectionAction {
    match t {
        ArtifactType::Linux(LinuxArtifactType::Journal) => CollectionAction::ExportJournal,
        ArtifactType::Linux(LinuxArtifactType::Proc) => if is_self_referential(path) {
            CollectionAction::WriteProcNote
        } else {
            dir_or_file(source)
        },
        ArtifactType::Linux(LinuxArtifactType::Audit) => CollectionAction::CopyFile,
        ArtifactType::Linux(LinuxArtifactType::Bash) => CollectionAction::CopyFile,
        _ => dir_or_file(source),
    }
}

/// Whether `path` is `base` or lies under it, as `is_under` says.
fn is_under_exec(path: &Vec<char>, base: &str) -> (r: bool)
    ensures
        r == is_under(path@, base@),
{
    if str_eq_chars(path, base) {
        return true;
    }
    let mut prefix = chars_of(base);
    prefix.push('/');
    assert(prefix@ =~= base@ + seq!['/']);
    starts_with_exec(path, &prefix)
}

/// Whether the characters `v` spell the text `t`.
fn str_eq_chars(v: &Vec<char>, t: &str) -> (r: bool)
    ensures
        r == (v@ == t@),
{
    let w = chars_of(t);
    crate::text::chars_eq(v, &w)
}

/// Checks whether `path` is a self-referential `/proc` entry.
pub fn is_self_referential_proc(path: &str) -> (r: bool)
    ensures
        r == is_self_referential(path@),
{
    let p = chars_of(path);
    is_under_exec(&p, "/proc/self") || is_under_exec(&p, "/proc/thread-self")
}

impl LinuxCollector {
    /// The Linux collector.
    pub fn new() -> Self {
        LinuxCollector { fallback: FallbackCollector::new() }
    }

    /// System logs: a directory or a single file.
    pub fn collect_syslogs(&self, source: SourceKind) -> (r: CollectionAction)
        ensures
            r == dir_or_file(source),
    {
        copy_by_kind(source)
    }

    /// The journal is exported with `journalctl`.
    pub fn collect_journal(&self, source: SourceKind) -> (r: CollectionAction)
        ensures
            r == CollectionAction::ExportJournal,
    {
        CollectionAction::ExportJournal
    }

    /// A `/proc` entry: a note for a self-referential one, else a copy.
    pub fn collect_proc(&self, path: &str, source: SourceKind) -> (r: CollectionAction)
        ensures
            r == (if is_self_referential(path@) {
                CollectionAction::WriteProcNote
            } else {
                dir_or_file(source)
            }),
    {
        if is_self_referential_proc(path) {
            CollectionAction::WriteProcNote
        } else {
            copy_by_kind(source)
        }
    }

    /// Audit logs are copied as a file.
    pub fn collect_audit(&self, source: SourceKind) -> (r: CollectionAction)
        ensures
            r == CollectionAction::CopyFile,
    {
        CollectionAction::CopyFile
    }

    /// Cron jobs: a directory or a single file.
    pub fn collect_cron(&self, source: SourceKind) -> (r: CollectionAction)
        ensures
            r == dir_or_file(source),
    {
        copy_by_kind(source)
    }

    /// Bash history is copied as a file.
    pub fn collect_bash(&self, source: SourceKind) -> (r: CollectionAction)
        ensures
            r == CollectionAction::CopyFile,
    {
        CollectionAction::CopyFile
    }

    /// Package manager logs: a directory or a single file.
    pub fn collect_package_logs(&self, source: SourceKind) -> (r: CollectionAction)
        ensures
            r == dir_or_file(source),
    {
        copy_by_kind(source)
    }

    /// Systemd units: a directory or a single file.
    pub fn collect_systemd(&self, source: SourceKind) -> (r: CollectionAction)
        ensures
            r == dir_or_file(source),
    {
        copy_by_kind(source)
    }

    /// How an artifact of type `artifact_type`, whose source path (its
    /// variables expanded) is `path` and holds `source`, is collected.
    pub fn plan(&self, artifact_type: &ArtifactType, path: &str, source: SourceKind) -> (r: CollectionAction)
        ensures
            r == linux_action(*artifact_type, path@, source),
    {
        match artifact_type {
            ArtifactType::Linux(LinuxArtifactType::SysLogs) => self.collect_syslogs(source),
            ArtifactType::Linux(LinuxArtifactType::Journal) => self.collect_journal(source),
            ArtifactType::Linux(LinuxArtifactType::Proc) => self.collect_proc(path, source),
            ArtifactType::Linux(LinuxArtifactType::Audit) => self.collect_audit(source),
            ArtifactType::Linux(LinuxArtifactType::Cron) => self.collect_cron(source),
            ArtifactType::Linux(LinuxArtifactType::Bash) => self.collect_bash(source),
            ArtifactType::Linux(LinuxArtifactType::Apt)
            | ArtifactType::Linux(LinuxArtifactType::Dpkg)
            | ArtifactType::Linux(LinuxArtifactType::Yum) => self.collect_package_logs(source),
            ArtifactType::Linux(LinuxArtifactType::Systemd) => self.collect_systemd(source),
            _ => copy_by_kind(source),
        }
    }
}

impl ArtifactCollector for LinuxCollector {
    open spec fn handles(&self, artifact_type: ArtifactType) -> bool {
        linux_handles(artifact_type)
    }

    fn supports_artifact_type(&self, artifact_type: &ArtifactType) -> (r: bool) {
        match artifact_type {
            ArtifactType::Linux(_) => true,
            _ => is_generic_artifact_type(artifact_type),
        }
    }
}

} // verus!
