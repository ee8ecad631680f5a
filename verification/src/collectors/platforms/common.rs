//! What every platform collector shares: the kinds of source, the ways of
//! collecting one, and the collector used where no platform has its own.
use vstd::prelude::*;
use crate::config::artifact_types::ArtifactType;
use crate::collectors::collector::ArtifactCollector;

verus! {

/// What is found at a source path.
#[derive(Debug, Clone, Copy, PartialEq, Eq, Structural)]
pub enum SourceKind {
    /// A directory.
    Directory,
    /// A regular file.
    File,
    /// Something that exists but is neither a directory nor a regular file.
    Other,
    /// Nothing.
    Missing,
}

/// How one artifact is collected.
#[derive(Debug, Clone, Copy, PartialEq, Eq, Structural)]
pub enum CollectionAction {
    /// Copy the source directory recursively.
    CopyDirectory,
    /// Copy the source as one file.
    CopyFile,
    /// Report that the source does not exist.
    ReportMissing,
    /// Export the systemd journal with `journalctl`, copying the journal
    /// directory where that fails.
    ExportJournal,
    /// Write a note in place of a self-referential `/proc` entry.
    WriteProcNote,
    /// Export the unified logs with `log show`, copying the source where that
    /// fails and it exists.
    ExportUnifiedLogs,
    /// Convert a binary property list to XML with `plutil`, copying the file
    /// where it is not binary or the conversion fails.
    ConvertPlist,
    /// Read the file through a raw handle, which reaches locked files.
    RawHandle,
}

/// A directory is copied as a directory, anything else as a file.
pub open spec fn dir_or_file(source: SourceKind) -> CollectionAction {
    if source == SourceKind::Directory {
        CollectionAction::CopyDirectory
    } else {
        CollectionAction::CopyFile
    }
}

/// Chooses the copy that `dir_or_file` says.
pub fn copy_by_kind(source: SourceKind) -> (r: CollectionAction)
    ensures
        r == dir_or_file(source),
{
    match source {
        SourceKind::Directory => CollectionAction::CopyDirectory,
        _ => CollectionAction::CopyFile,
    }
}

/// The artifact types that belong to no platform and that every platform
/// collector handles.
pub open spec fn is_generic_type(t: ArtifactType) -> bool {
    ||| t == ArtifactType::FileSystem
    ||| t == ArtifactType::Logs
    ||| t == ArtifactType::UserData
    ||| t == ArtifactType::SystemInfo
    ||| t == ArtifactType::Memory
    ||| t == ArtifactType::Network
    ||| t == ArtifactType::Custom
}

/// Checks whether `t` is one of the generic artifact types.
pub fn is_generic_artifact_type(t: &ArtifactType) -> (r: bool)
    ensures
        r == is_generic_type(*t),
{
    match t {
        ArtifactType::FileSystem | ArtifactType::Logs | ArtifactType::UserData
        | ArtifactType::SystemInfo | ArtifactType::Memory | ArtifactType::Network
        | ArtifactType::Custom => true,
        _ => false,
    }
}

/// The collector for platforms without one of their own: it takes every
/// artifact type and copies whatever is at the source.
#[derive(Debug, Clone, Copy)]
pub struct FallbackCollector;

/// How the fallback collector collects a source: a directory as a
/// directory, a missing source is reported, anything else is copied as a file.
pub open spec fn fallback_action(source: SourceKind) -> CollectionAction {
    if source == SourceKind::Missing {
        CollectionAction::ReportMissing
    } else {
        dir_or_file(source)
    }
}

impl FallbackCollector {
    /// The fallback collector.
    pub fn new() -> Self {
        FallbackCollector
    }

    /// How the fallback collector collects an artifact whose source is `source`.
    pub fn plan(&self, source: SourceKind) -> (r: CollectionAction)
        ensures
            r == fallback_action(source),
    {
        match source {
            SourceKind::Missing => CollectionAction::ReportMissing,
            _ => copy_by_kind(source),
        }
    }
}

impl ArtifactCollector for FallbackCollector {
    open spec fn handles(&self, artifact_type: ArtifactType) -> bool {
        true
    }

    fn supports_artifact_type(&self, artifact_type: &ArtifactType) -> (r: bool) {
        true
    }
}

} // verus!
