//! The failure taxonomy of the engine.
//!
//! Every failure is terminal: the caller reports it and aborts the whole
//! invocation. Variants carry the data a caller needs to render an
//! actionable message; rendering itself is left to the caller.

use vstd::prelude::*;

use crate::resolver::ResolvedTarget;

verus! {

/// Everything that can go wrong between reading the user's request and
/// handing the assembled command to the profiler.
#[derive(Debug)]
pub enum Error {
    /// A manifest path was given but does not point at a manifest file
    /// inside a directory.
    InvalidManifestPath,
    /// No ancestor of the working directory holds the project manifest.
    ManifestNotFound,
    /// The metadata query tool could not be invoked or returned malformed
    /// data.
    MetadataUnavailable,
    /// An explicit package name matched no package; carries that name.
    UnknownPackage(String),
    /// No package filter was given and no package lies under the crate root.
    NoPackageInScope,
    /// More than one exec-style selector (bin, example, test, bench,
    /// unit-test) was set on one request.
    MultipleSelection,
    /// No target survives disambiguation.
    NoTarget,
    /// Several targets survive disambiguation; carries every candidate so
    /// the user can form a precise follow-up request.
    AmbiguousTarget(Vec<ResolvedTarget>),
    /// The build subprocess could not be spawned at all.
    BuildLaunchFailed,
    /// The build subprocess ran and exited with a non-zero status.
    BuildFailed,
    /// A line of the build tool's structured output stream could not be
    /// decoded; carries the decoder's own description of the fault.
    BuildOutputParse(String),
    /// The build produced artifacts, but none of them has an executable
    /// path.
    NoExecutableProduced,
    /// The request sets no exec-style selector, so there is nothing to
    /// extract.
    NoSelection,
    /// No built artifact matches the requested target; carries the
    /// (kind tags, name) pair of every artifact seen, for diagnosis.
    TargetArtifactNotFound(Vec<(Vec<String>, String)>),
    /// The profiler tool itself could not be spawned (missing, permissions).
    ProfilerLaunchFailed,
    /// The profiler ran and reported failure through its exit status.
    ProfilerFailed,
}

} // verus!
