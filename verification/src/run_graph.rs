//! Bookkeeping types of the build orchestrator's run graph. The graph walk
//! and the task scheduling belong to the orchestrator, outside this core;
//! these types only carry what a run accumulates.

use vstd::prelude::*;

verus! {

/// Stores the workspace configuration files by package name: for each
/// package, where its manifest and its task configuration live, as paths
/// relative to the repository root.
pub struct WorkspaceCatalog {
    package_jsons: Vec<(String, String)>,
    turbo_jsons: Vec<(String, String)>,
}

impl WorkspaceCatalog {
    /// The recorded manifest locations, by package name.
    pub closed spec fn package_jsons_seq(&self) -> Seq<(String, String)> {
        self.package_jsons@
    }

    /// The recorded task-configuration locations, by package name.
    pub closed spec fn turbo_jsons_seq(&self) -> Seq<(String, String)> {
        self.turbo_jsons@
    }
}

impl Default for WorkspaceCatalog {
    /// An empty catalog: no package recorded yet.
    fn default() -> (r: Self)
        ensures
            r.package_jsons_seq() == Seq::<(String, String)>::empty(),
            r.turbo_jsons_seq() == Seq::<(String, String)>::empty(),
    {
        WorkspaceCatalog { package_jsons: Vec::new(), turbo_jsons: Vec::new() }
    }
}

/// Tracks hashes computed for tasks during a run; the hash computation itself
/// belongs to the orchestrator.
pub struct TaskHashTracker {}

impl Default for TaskHashTracker {
    /// A tracker with nothing tracked yet.
    fn default() -> (r: Self)
        ensures
            r == (TaskHashTracker {  }),
    {
        TaskHashTracker {  }
    }
}

} // verus!
