//! The user's request: which target to profile, under which build profile,
//! with which build flags, and which arguments to forward to the profiled
//! program.

use vstd::prelude::*;

use crate::errors::Error;
use crate::resolver::ResolvedTarget;

verus! {

/// Whether and how a request needs target disambiguation before the build
/// can be invoked.
pub enum ResolutionNeed {
    /// No selector at all: the request means the project's unique binary.
    UniqueBinary,
    /// A unit-test request: resolve among binary and library targets,
    /// filtered by the inner name when one was given.
    UnitTest(Option<String>),
    /// The request names its target explicitly; nothing to resolve.
    Settled,
}

/// Everything the user asked for. At most one of the exec-style selectors
/// (`bin`, `example`, `test`, `bench`, `unit_test`) may be set; a request
/// with none set means "the project's unique binary" and is settled by the
/// resolver before building.
pub struct BuildRequest {
    /// Build with the dev profile.
    pub dev: bool,
    /// Build with this named profile.
    pub profile: Option<String>,
    /// Restrict to the package with this name.
    pub package: Option<String>,
    /// Profile this binary.
    pub bin: Option<String>,
    /// Profile this example.
    pub example: Option<String>,
    /// Profile this test binary.
    pub test: Option<String>,
    /// Profile the unit-test harness of this target; the inner name may be
    /// omitted when the crate has only one candidate target.
    pub unit_test: Option<Option<String>>,
    /// Profile this benchmark.
    pub bench: Option<String>,
    /// Explicit path of the project manifest, passed through verbatim.
    pub manifest_path: Option<String>,
    /// Build features to enable, passed through verbatim.
    pub features: Option<String>,
    /// Disable default features.
    pub no_default_features: bool,
    /// Arguments forwarded, in order, to the profiled program.
    pub trailing_arguments: Vec<String>,
}

impl BuildRequest {
    /// How many of the five exec-style selectors are set.
    pub open spec fn selection_count(&self) -> int {
        (if self.bin is Some { 1int } else { 0int })
            + (if self.example is Some { 1int } else { 0int })
            + (if self.test is Some { 1int } else { 0int })
            + (if self.bench is Some { 1int } else { 0int })
            + (if self.unit_test is Some { 1int } else { 0int })
    }

    /// A request is well formed when at most one exec-style selector is set.
    pub open spec fn wf(&self) -> bool {
        self.selection_count() <= 1
    }

    /// Builds a request, rejecting one that sets more than one exec-style
    /// selector before anything else can act on it.
    #[allow(clippy::too_many_arguments)]
    pub fn new(
        dev: bool,
        profile: Option<String>,
        package: Option<String>,
        bin: Option<String>,
        example: Option<String>,
        test: Option<String>,
        unit_test: Option<Option<String>>,
        bench: Option<String>,
        manifest_path: Option<String>,
        features: Option<String>,
        no_default_features: bool,
        trailing_arguments: Vec<String>,
    ) -> (r: Result<BuildRequest, Error>)
        ensures
            ({
                let want = (BuildRequest {
                    dev,
                    profile,
                    package,
                    bin,
                    example,
                    test,
                    unit_test,
                    bench,
                    manifest_path,
                    features,
                    no_default_features,
                    trailing_arguments,
                });
                match r {
                    Ok(req) => want.wf() && req == want,
                    Err(e) => !want.wf() && e is MultipleSelection,
                }
            }),
    {
        let req = BuildRequest {
            dev,
            profile,
            package,
            bin,
            example,
            test,
            unit_test,
            bench,
            manifest_path,
            features,
            no_default_features,
            trailing_arguments,
        };
        let mut selectors: usize = 0;
        if req.bin.is_some() {
            selectors = selectors + 1;
        }
        if req.example.is_some() {
            selectors = selectors + 1;
        }
        if req.test.is_some() {
            selectors = selectors + 1;
        }
        if req.bench.is_some() {
            selectors = selectors + 1;
        }
        if req.unit_test.is_some() {
            selectors = selectors + 1;
        }
        if selectors <= 1 {
            Ok(req)
        } else {
            Err(Error::MultipleSelection)
        }
    }

    /// Whether the request under-specifies its target and must go through
    /// disambiguation: with no selector at all it means the project's
    /// unique binary, and a unit-test selector leaves the target open
    /// (wholly, or up to its inner name).
    pub fn resolution_need(&self) -> (r: ResolutionNeed)
        ensures
            match r {
                ResolutionNeed::UniqueBinary => self.selection_count() == 0,
                ResolutionNeed::UnitTest(inner) => self.unit_test == Some(inner),
                ResolutionNeed::Settled => self.unit_test is None && self.selection_count() > 0,
            },
    {
        if self.bin.is_none() && self.bench.is_none() && self.example.is_none()
            && self.test.is_none() && self.unit_test.is_none() {
            ResolutionNeed::UniqueBinary
        } else {
            match &self.unit_test {
                Some(inner) => ResolutionNeed::UnitTest(
                    match inner {
                        Some(name) => Some(name.clone()),
                        None => None,
                    },
                ),
                None => ResolutionNeed::Settled,
            }
        }
    }

    /// Adopts a resolved target as the request's binary selection,
    /// restricting the build to its package; hands back the target's kind
    /// tags for the build invocation.
    pub fn adopt_binary(&mut self, target: ResolvedTarget) -> (kinds: Vec<String>)
        ensures
            *final(self) == (BuildRequest {
                bin: Some(target.target),
                package: Some(target.package),
                ..*old(self)
            }),
            kinds == target.kinds,
    {
        self.bin = Some(target.target);
        self.package = Some(target.package);
        target.kinds
    }

    /// Adopts a resolved target as the request's unit-test selection,
    /// restricting the build to its package; hands back the target's kind
    /// tags for the build invocation.
    pub fn adopt_unit_test(&mut self, target: ResolvedTarget) -> (kinds: Vec<String>)
        ensures
            *final(self) == (BuildRequest {
                unit_test: Some(Some(target.target)),
                package: Some(target.package),
                ..*old(self)
            }),
            kinds == target.kinds,
    {
        self.unit_test = Some(Some(target.target));
        self.package = Some(target.package);
        target.kinds
    }
}

} // verus!
