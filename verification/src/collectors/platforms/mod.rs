//! The collector for each platform, and the choice among them.
pub mod common;
pub mod windows;
pub mod linux;
pub mod macos;

use vstd::prelude::*;
use crate::config::artifact_types::ArtifactType;
use crate::config::collection_config::{Artifact, same_artifact};
use crate::collectors::collector::ArtifactCollector;
use crate::collectors::platforms::common::{CollectionAction, FallbackCollector, SourceKind, fallback_action};
use crate::collectors::platforms::windows::{WindowsCollector, windows_handles};
use crate::collectors::platforms::linux::{LinuxCollector, linux_handles, linux_action};
use crate::collectors::platforms::macos::{MacOSCollector, macos_handles, macos_action};
use crate::text::str_eq;

verus! {

/// The collector of one platform.
#[derive(Debug, Clone, Copy)]
pub enum PlatformCollector {
    Windows(WindowsCollector),
    Linux(LinuxCollector),
    MacOS(MacOSCollector),
    Fallback(FallbackCollector),
}

/// The artifact types collected on the OS named `os` ("windows", "linux",
/// "macos"; any other OS takes every type).
pub open spec fn platform_handles(os: Seq<char>, t: ArtifactType) -> bool {
    if os == "windows"@ {
        windows_handles(t)
    } else if os == "linux"@ {
        linux_handles(t)
    } else if os == "macos"@ {
        macos_handles(t)
    } else {
        true
    }
}

/// The collector for the OS named `os`: the Windows, Linux or macOS
/// collector, or the fallback collector for any other OS.
pub fn get_platform_collector(os: &str) -> (c: PlatformCollector)
    ensures
        os@ == "windows"@ ==> c is Windows,
        os@ == "linux"@ ==> c is Linux,
        os@ == "macos"@ ==> c is MacOS,
        os@ != "windows"@ && os@ != "linux"@ && os@ != "macos"@ ==> c is Fallback,
        forall|t: ArtifactType| #[trigger] c.handles(t) == platform_handles(os@, t),
{
    proof {
        reveal_strlit("windows");
        reveal_strlit("linux");
        reveal_strlit("macos");
        assert("windows"@ != "linux"@ && "windows"@ != "macos"@ && "linux"@ != "macos"@) by {
            assert("windows"@.len() != "linux"@.len());
            assert("windows"@[0] != "macos"@[0]);
            assert("linux"@[0] != "macos"@[0]);
        }
    }
    if str_eq(os, "windows") {
        PlatformCollector::Windows(WindowsCollector::new())
    } else if str_eq(os, "linux") {
        PlatformCollector::Linux(LinuxCollector::new())
    } else if str_eq(os, "macos") {
        PlatformCollector::MacOS(MacOSCollector::new())
    } else {
        PlatformCollector::Fallback(FallbackCollector::new())
    }
}

/// How the collector `c` collects an artifact of type `t` whose source path
/// is `path` and holds `source`.
pub open spec fn platform_action(
    c: PlatformCollector,
    t: ArtifactType,
    path: Seq<char>,
    source: SourceKind,
) -> CollectionAction {
    match c {
        PlatformCollector::Windows(_) => CollectionAction::RawHandle,
        PlatformCollector::Linux(_) => linux_action(t, path, source),
        PlatformCollector::MacOS(_) => macos_action(t, source),
        PlatformCollector::Fallback(_) => fallback_action(source),
    }
}

impl PlatformCollector {
    /// How an artifact of type `artifact_type`, whose source path (its
    /// variables expanded) is `path` and holds `source`, is collected.
    pub fn plan(&self, artifact_type: &ArtifactType, path: &str, source: SourceKind) -> (r: CollectionAction)
        ensures
            r == platform_action(*self, *artifact_type, path@, source),
    {
        match self {
            PlatformCollector::Windows(w) => w.plan(artifact_type),
            PlatformCollector::Linux(l) => l.plan(artifact_type, path, source),
            PlatformCollector::MacOS(m) => m.plan(artifact_type, source),
            PlatformCollector::Fallback(f) => f.plan(source),
        }
    }
}

impl ArtifactCollector for PlatformCollector {
    open spec fn handles(&self, artifact_type: ArtifactType) -> bool {
        match self {
            PlatformCollector::Windows(_) => windows_handles(artifact_type),
            PlatformCollector::Linux(_) => linux_handles(artifact_type),
            PlatformCollector::MacOS(_) => macos_handles(artifact_type),
            PlatformCollector::Fallback(_) => true,
        }
    }

    fn supports_artifact_type(&self, artifact_type: &ArtifactType) -> (r: bool) {
        match self {
            PlatformCollector::Windows(w) => w.supports_artifact_type(artifact_type),
            PlatformCollector::Linux(l) => l.supports_artifact_type(artifact_type),
            PlatformCollector::MacOS(m) => m.supports_artifact_type(artifact_type),
            PlatformCollector::Fallback(f) => f.supports_artifact_type(artifact_type),
        }
    }
}

/// The predicate "collected on the OS named `os`" on artifacts.
pub open spec fn collected_on(os: Seq<char>) -> spec_fn(Artifact) -> bool {
    |a: Artifact| platform_handles(os, a.artifact_type)
}

/// The artifacts that are collected on the OS named `os`, in their order:
/// copies of those whose type its collector takes.
pub fn filter_artifacts_for_platform(artifacts: &[Artifact], os: &str) -> (r: Vec<Artifact>)
    ensures
        r@.len() == artifacts@.filter(collected_on(os@)).len(),
        forall|k: int|
            0 <= k < r@.len() ==> same_artifact(#[trigger] r@[k], artifacts@.filter(collected_on(os@))[k]),
{
    let collector = get_platform_collector(os);
    let mut r: Vec<Artifact> = Vec::new();
    let n = artifacts.len();
    let mut i: usize = 0;
    while i < n
        invariant
            i <= n,
            n == artifacts@.len(),
            forall|t: ArtifactType| #[trigger] collector.handles(t) == platform_handles(os@, t),
            r@.len() == artifacts@.take(i as int).filter(collected_on(os@)).len(),
            forall|k: int|
                0 <= k < r@.len() ==> same_artifact(
                    #[trigger] r@[k],
                    artifacts@.take(i as int).filter(collected_on(os@))[k],
                ),
        decreases n - i,
    {
        proof {
            assert(artifacts@.take(i + 1) =~= artifacts@.take(i as int).push(artifacts@[i as int]));
            artifacts@.take(i as int).lemma_filter_push(artifacts@[i as int], collected_on(os@));
        }
        let keep = collector.supports_artifact_type(&artifacts[i].artifact_type);
        if keep {
            let a = artifacts[i].duplicate();
            r.push(a);
        }
        i += 1;
    }
    assert(artifacts@.take(n as int) =~= artifacts@);
    r
}

} // verus!
