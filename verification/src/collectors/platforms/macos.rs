//! The macOS collector: which artifact types it takes and how it collects each.
use vstd::prelude::*;
use crate::config::artifact_types::{ArtifactType, MacOSArtifactType};
use crate::collectors::collector::ArtifactCollector;
use crate::collectors::platforms::common::{
    CollectionAction, FallbackCollector, SourceKind, copy_by_kind, dir_or_file, is_generic_type,
    is_generic_artifact_type,
};

verus! {

/// The macOS collector.
#[derive(Debug, Clone, Copy)]
pub struct MacOSCollector {
    fallback: FallbackCollector,
}

/// The artifact types the macOS collector takes: the macOS ones and the generic ones.
pub open spec fn macos_handles(t: ArtifactType) -> bool {
    t is MacOS || is_generic_type(t)
}

/// Unified logs: a directory or a file is copied; otherwise they are exported.
pub open spec fn unified_logs_action(source: SourceKind) -> CollectionAction {
    if source == SourceKind::Directory {
        CollectionAction::CopyDirectory
    } else if source == SourceKind::File {
        CollectionAction::CopyFile
    } else {
        CollectionAction::ExportUnifiedLogs
    }
}

/// A property list: a directory is copied, a file converted; anything else
/// is reported missing.
pub open spec fn plist_action(source: SourceKind) -> CollectionAction {
    if source == SourceKind::Directory {
        CollectionAction::CopyDirectory
    } else if source == SourceKind::File {
        CollectionAction::ConvertPlist
    } else {
        CollectionAction::ReportMissing
    }
}

/// How the macOS collector collects an artifact of type `t` whose source holds `source`.
pub open spec fn macos_action(t: ArtifactType, source: SourceKind) -> CollectionAction {
    match t {
        ArtifactType::MacOS(MacOSArtifactType::UnifiedLogs) => unified_logs_action(source),
        ArtifactType::MacOS(MacOSArtifactType::Plist) => plist_action(source),
        ArtifactType::MacOS(MacOSArtifactType::Quarantine) => CollectionAction::CopyFile,
        ArtifactType::MacOS(MacOSArtifactType::KnowledgeC) => CollectionAction::CopyFile,
        _ => dir_or_file(source),
    }
}

impl MacOSCollector {
    /// The macOS collector.
    pub fn new() -> Self {
        MacOSCollector { fallback: FallbackCollector::new() }
    }

    /// Unified logs, as `unified_logs_action` says.
    pub fn collect_unified_logs(&self, source: SourceKind) -> (r: CollectionAction)
        ensures
            r == unified_logs_action(source),
    {
        match source {
            SourceKind::Directory => CollectionAction::CopyDirectory,
            SourceKind::File => CollectionAction::CopyFile,
            _ => CollectionAction::ExportUnifiedLogs,
        }
    }

    /// FSEvents: a directory or a single file.
    pub fn collect_fsevents(&self, source: SourceKind) -> (r: CollectionAction)
        ensures
            r == dir_or_file(source),
    {
        copy_by_kind(source)
    }

    /// A property list, as `plist_action` says.
    pub fn collect_plist(&self, source: SourceKind) -> (r: CollectionAction)
        ensures
            r == plist_action(source),
    {
        match source {
            SourceKind::Directory => CollectionAction::CopyDirectory,
            SourceKind::File => CollectionAction::ConvertPlist,
            _ => CollectionAction::ReportMissing,
        }
    }

    /// Spotlight metadata: a directory or a single file.
    pub fn collect_spotlight(&self, source: SourceKind) -> (r: CollectionAction)
        ensures
            r == dir_or_file(source),
    {
        copy_by_kind(source)
    }

    /// The quarantine database is copied as a file.
    pub fn collect_quarantine(&self, source: SourceKind) -> (r: CollectionAction)
        ensures
            r == CollectionAction::CopyFile,
    {
        CollectionAction::CopyFile
    }

    /// The KnowledgeC database is copied as a file.
    pub fn collect_knowledgec(&self, source: SourceKind) -> (r: CollectionAction)
        ensures
            r == CollectionAction::CopyFile,
    {
        CollectionAction::CopyFile
    }

    /// Launch agents: a directory or a single file.
    pub fn collect_launch_agents(&self, source: SourceKind) -> (r: CollectionAction)
        ensures
            r == dir_or_file(source),
    {
        copy_by_kind(source)
    }

    /// Launch daemons: a directory or a single file.
    pub fn collect_launch_daemons(&self, source: SourceKind) -> (r: CollectionAction)
        ensures
            r == dir_or_file(source),
    {
        copy_by_kind(source)
    }

    /// How an artifact of type `artifact_type` whose source holds `source` is collected.
    pub fn plan(&self, artifact_type: &ArtifactType, source: SourceKind) -> (r: CollectionAction)
        ensures
            r == macos_action(*artifact_type, source),
    {
        match artifact_type {
            ArtifactType::MacOS(MacOSArtifactType::UnifiedLogs) => self.collect_unified_logs(source),
            ArtifactType::MacOS(MacOSArtifactType::FSEvents) => self.collect_fsevents(source),
            ArtifactType::MacOS(MacOSArtifactType::Plist) => self.collect_plist(source),
            ArtifactType::MacOS(MacOSArtifactType::Spotlight) => self.collect_spotlight(source),
            ArtifactType::MacOS(MacOSArtifactType::Quarantine) => self.collect_quarantine(source),
            ArtifactType::MacOS(MacOSArtifactType::KnowledgeC) => self.collect_knowledgec(source),
            ArtifactType::MacOS(MacOSArtifactType::LaunchAgents) => self.collect_launch_agents(source),
            ArtifactType::MacOS(MacOSArtifactType::LaunchDaemons) => self.collect_launch_daemons(
                source,
            ),
            _ => copy_by_kind(source),
        }
    }
}

impl ArtifactCollector for MacOSCollector {
    open spec fn handles(&self, artifact_type: ArtifactType) -> bool {
        macos_handles(artifact_type)
    }

    fn supports_artifact_type(&self, artifact_type: &ArtifactType) -> (r: bool) {
        match artifact_type {
            ArtifactType::MacOS(_) => true,
            _ => is_generic_artifact_type(artifact_type),
        }
    }
}

} // verus!
