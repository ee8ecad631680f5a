//! The Windows collector: which artifact types it takes and how it collects each.
use vstd::prelude::*;
use crate::config::artifact_types::{ArtifactType, WindowsArtifactType};
use crate::collectors::collector::ArtifactCollector;
use crate::collectors::platforms::common::{CollectionAction, is_generic_type, is_generic_artifact_type};

verus! {

/// The Windows collector.  It reads every artifact through a raw handle,
/// which also reaches files that the system holds locked.
#[derive(Debug, Clone, Copy)]
pub struct WindowsCollector;

/// The artifact types the Windows collector takes: the Windows ones and the generic ones.
pub open spec fn windows_handles(t: ArtifactType) -> bool {
    t is Windows || is_generic_type(t)
}

impl WindowsCollector {
    /// The Windows collector.
    pub fn new() -> Self {
        WindowsCollector
    }

    /// The MFT is read through a raw handle.
    pub fn collect_mft(&self) -> (r: CollectionAction)
        ensures
            r == CollectionAction::RawHandle,
    {
        CollectionAction::RawHandle
    }

    /// A registry hive is read through a raw handle.
    pub fn collect_registry(&self) -> (r: CollectionAction)
        ensures
            r == CollectionAction::RawHandle,
    {
        CollectionAction::RawHandle
    }

    /// An event log is read through a raw handle.
    pub fn collect_eventlog(&self) -> (r: CollectionAction)
        ensures
            r == CollectionAction::RawHandle,
    {
        CollectionAction::RawHandle
    }

    /// Prefetch files are read through a raw handle.
    pub fn collect_prefetch(&self) -> (r: CollectionAction)
        ensures
            r == CollectionAction::RawHandle,
    {
        CollectionAction::RawHandle
    }

    /// The USN journal is read through a raw handle.
    pub fn collect_usn_journal(&self) -> (r: CollectionAction)
        ensures
            r == CollectionAction::RawHandle,
    {
        CollectionAction::RawHandle
    }

    /// How an artifact of type `artifact_type` is collected: always through a raw handle.
    pub fn plan(&self, artifact_type: &ArtifactType) -> (r: CollectionAction)
        ensures
            r == CollectionAction::RawHandle,
    {
        match artifact_type {
            ArtifactType::Windows(WindowsArtifactType::MFT) => self.collect_mft(),
            ArtifactType::Windows(WindowsArtifactType::Registry) => self.collect_registry(),
            ArtifactType::Windows(WindowsArtifactType::EventLog) => self.collect_eventlog(),
            ArtifactType::Windows(WindowsArtifactType::Prefetch) => self.collect_prefetch(),
            ArtifactType::Windows(WindowsArtifactType::USNJournal) => self.collect_usn_journal(),
            _ => CollectionAction::RawHandle,
        }
    }
}

impl ArtifactCollector for WindowsCollector {
    open spec fn handles(&self, artifact_type: ArtifactType) -> bool {
        windows_handles(artifact_type)
    }

    fn supports_artifact_type(&self, artifact_type: &ArtifactType) -> (r: bool) {
        match artifact_type {
            ArtifactType::Windows(_) => true,
            _ => is_generic_artifact_type(artifact_type),
        }
    }
}

} // verus!
