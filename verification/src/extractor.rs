//! Workload extraction: find the single built artifact the request means,
//! judge whether a debug-information advisory is due, and assemble the
//! final command.

use vstd::prelude::*;

use crate::errors::Error;
use crate::invoker::ArtifactInfo;
use crate::invoker::ArtifactInfoView;
use crate::request::BuildRequest;
use crate::resolver::clone_strings;
use crate::resolver::kind_intersects;
use crate::resolver::kinds_intersect;

verus! {

/// The final command: the executable's path, then the request's trailing
/// arguments, in their original order, unmodified.
pub struct AssembledWorkload {
    pub executable: String,
    pub args: Vec<String>,
}

/// Which profile a debug-information advisory names: binaries, examples
/// and unit tests build under the release profile, tests and benchmarks
/// under the bench profile.
pub enum AdvisoryProfile {
    Release,
    Bench,
}

/// What extraction hands back: the assembled workload, and the
/// debug-information advisory when one is due. The advisory never alters
/// behaviour; the caller only reports it.
pub struct Extraction {
    pub workload: AssembledWorkload,
    pub advisory: Option<AdvisoryProfile>,
}

/// The kind tags and target name the request selects, in the order the
/// selectors are consulted; nothing is selected when no exec-style
/// selector is set (a unit-test selector without its inner name is settled
/// by the resolver before extraction).
pub open spec fn spec_selection(req: BuildRequest) -> Option<(Seq<Seq<char>>, Seq<char>)> {
    match req.bin {
        Some(t) => Some((seq!["bin"@], t@)),
        None => match req.example {
            Some(t) => Some((seq!["example"@], t@)),
            None => match req.test {
                Some(t) => Some((seq!["test"@], t@)),
                None => match req.bench {
                    Some(t) => Some((seq!["bench"@], t@)),
                    None => match req.unit_test {
                        Some(Some(t)) => Some((seq!["lib"@, "bin"@], t@)),
                        _ => None,
                    },
                },
            },
        },
    }
}

/// Whether an artifact is the one the request means: it has an executable
/// path, its target carries the requested name, and its kind tags meet the
/// requested kinds.
pub open spec fn artifact_matches(
    a: ArtifactInfoView,
    kinds: Seq<Seq<char>>,
    name: Seq<char>,
) -> bool {
    a.executable is Some && a.target_name == name && kind_intersects(a.kinds, kinds)
}

/// Whether the request builds under the release profile for advisory
/// purposes: a binary, an example, or a named unit test.
pub open spec fn release_style(req: BuildRequest) -> bool {
    req.example is Some || req.bin is Some || (req.unit_test matches Some(Some(_)))
}

/// The advisory due for a matched artifact: one is emitted exactly when
/// the build is not for dev and the artifact carries no debug information,
/// and it names the profile the build effectively used.
pub open spec fn spec_advisory(req: BuildRequest, matched: ArtifactInfoView) -> Option<
    AdvisoryProfile,
> {
    if !req.dev && matched.debuginfo is Absent {
        if release_style(req) {
            Some(AdvisoryProfile::Release)
        } else {
            Some(AdvisoryProfile::Bench)
        }
    } else {
        None
    }
}

/// The (kind tags, name) pair of every artifact, in order, for diagnosis.
pub open spec fn kind_name_pairs(arts: Seq<ArtifactInfoView>) -> Seq<(Seq<Seq<char>>, Seq<char>)>
    decreases arts.len(),
{
    if arts.len() == 0 {
        Seq::empty()
    } else {
        kind_name_pairs(arts.drop_last()).push(
            (arts.last().kinds, arts.last().target_name),
        )
    }
}

/// The kind tags and target name the request selects, as values.
fn selection_of<'a>(req: &'a BuildRequest) -> (r: Option<(Vec<String>, &'a String)>)
    ensures
        match r {
            Some(sel) => spec_selection(*req) == Some((sel.0.deep_view(), sel.1@)),
            None => spec_selection(*req) is None,
        },
{
    match &req.bin {
        Some(t) => {
            let mut ks: Vec<String> = Vec::new();
            ks.push(String::from_str("bin"));
            proof {
                assert(ks.deep_view() =~= seq!["bin"@]);
            }
            Some((ks, t))
        },
        None => match &req.example {
            Some(t) => {
                let mut ks: Vec<String> = Vec::new();
                ks.push(String::from_str("example"));
                proof {
                    assert(ks.deep_view() =~= seq!["example"@]);
                }
                Some((ks, t))
            },
            None => match &req.test {
                Some(t) => {
                    let mut ks: Vec<String> = Vec::new();
                    ks.push(String::from_str("test"));
                    proof {
                        assert(ks.deep_view() =~= seq!["test"@]);
                    }
                    Some((ks, t))
                },
                None => match &req.bench {
                    Some(t) => {
                        let mut ks: Vec<String> = Vec::new();
                        ks.push(String::from_str("bench"));
                        proof {
                            assert(ks.deep_view() =~= seq!["bench"@]);
                        }
                        Some((ks, t))
                    },
                    None => match &req.unit_test {
                        Some(inner) => match inner {
                            Some(t) => {
                                let mut ks: Vec<String> = Vec::new();
                                ks.push(String::from_str("lib"));
                                ks.push(String::from_str("bin"));
                                proof {
                                    assert(ks.deep_view() =~= seq!["lib"@, "bin"@]);
                                }
                                Some((ks, t))
                            },
                            None => None,
                        },
                        None => None,
                    },
                },
            },
        },
    }
}

/// Builds the diagnostic listing of every artifact's kind tags and name.
fn artifact_listing(artifacts: &Vec<ArtifactInfo>) -> (r: Vec<(Vec<String>, String)>)
    ensures
        r.deep_view() == kind_name_pairs(artifacts.deep_view()),
{
    let ghost arts = artifacts.deep_view();
    let mut listing: Vec<(Vec<String>, String)> = Vec::new();
    let mut k: usize = 0;
    proof {
        assert(arts.take(0) =~= Seq::<ArtifactInfoView>::empty());
        assert(listing.deep_view() =~= Seq::<(Seq<Seq<char>>, Seq<char>)>::empty());
    }
    while k < artifacts.len()
        invariant
            k <= artifacts@.len(),
            arts == artifacts.deep_view(),
            arts.len() == artifacts@.len(),
            listing.deep_view() == kind_name_pairs(arts.take(k as int)),
        decreases artifacts.len() - k,
    {
        let a = &artifacts[k];
        proof {
            assert(arts[k as int] == artifacts@[k as int].deep_view());
        }
        let pair = (clone_strings(&a.kinds), a.target_name.clone());
        proof {
            assert(pair.deep_view().0 =~= arts[k as int].kinds);
            assert(pair.deep_view() == (arts[k as int].kinds, arts[k as int].target_name));
        }
        let ghost pre = listing.deep_view();
        let ghost pair_view = pair.deep_view();
        listing.push(pair);
        proof {
            assert(listing.deep_view() =~= pre.push(pair_view));
            assert(arts.take(k + 1).drop_last() =~= arts.take(k as int));
            assert(arts.take(k + 1).last() == arts[k as int]);
        }
        k = k + 1;
    }
    proof {
        assert(arts.take(artifacts@.len() as int) =~= arts);
    }
    listing
}

/// Finds the single built artifact the request means and assembles the
/// final command: the artifact's executable path followed by the request's
/// trailing arguments, unmodified, plus the debug-information advisory
/// when one is due.
pub fn extract(req: &BuildRequest, artifacts: &Vec<ArtifactInfo>) -> (r: Result<Extraction, Error>)
    ensures
        ({
            let arts = artifacts.deep_view();
            match r {
                Ok(e) => (spec_selection(*req) matches Some(sel) && exists|i: int|
                    #![trigger arts[i]]
                    0 <= i < arts.len() && artifact_matches(arts[i], sel.0, sel.1) && (forall|
                        j: int,
                    |
                        0 <= j < i ==> !artifact_matches(arts[j], sel.0, sel.1)) && (
                    arts[i].executable matches Some(ex) && e.workload.executable@ == ex)
                        && e.advisory == spec_advisory(*req, arts[i])) && e.workload.args.deep_view()
                    == req.trailing_arguments.deep_view(),
                Err(e) => match e {
                    Error::NoSelection => spec_selection(*req) is None,
                    Error::TargetArtifactNotFound(listing) => (spec_selection(*req) matches Some(
                        sel,
                    ) && (forall|j: int|
                        0 <= j < arts.len() ==> !artifact_matches(arts[j], sel.0, sel.1))
                        && listing.deep_view() == kind_name_pairs(arts)),
                    _ => false,
                },
            }
        }),
{
    let ghost arts = artifacts.deep_view();
    let selection = match selection_of(req) {
        Some(sel) => sel,
        None => {
            return Err(Error::NoSelection);
        },
    };
    let sel_kinds = selection.0;
    let sel_name = selection.1;

    let mut i: usize = 0;
    while i < artifacts.len()
        invariant
            i <= artifacts@.len(),
            arts == artifacts.deep_view(),
            arts.len() == artifacts@.len(),
            spec_selection(*req) == Some((sel_kinds.deep_view(), sel_name@)),
            forall|j: int| 0 <= j < i ==> !artifact_matches(arts[j], sel_kinds.deep_view(), sel_name@),
        decreases artifacts.len() - i,
    {
        let a = &artifacts[i];
        proof {
            assert(arts[i as int] == artifacts@[i as int].deep_view());
        }
        let name_ok = a.target_name == *sel_name;
        let kind_ok = kinds_intersect(&a.kinds, &sel_kinds);
        let exe_ok = a.executable.is_some();
        if name_ok && kind_ok && exe_ok {
            let executable = match &a.executable {
                Some(e) => e.clone(),
                None => {
                    proof {
                        assert(false);
                    }
                    unreached()
                },
            };
            let debug_absent = match &a.debuginfo {
                crate::invoker::DebugInfo::Absent => true,
                crate::invoker::DebugInfo::Level(_) => false,
            };
            let advisory: Option<AdvisoryProfile> = if !req.dev && debug_absent {
                let release = req.example.is_some() || req.bin.is_some() || (match &req.unit_test {
                    Some(inner) => inner.is_some(),
                    None => false,
                });
                if release {
                    Some(AdvisoryProfile::Release)
                } else {
                    Some(AdvisoryProfile::Bench)
                }
            } else {
                None
            };
            assert(advisory == spec_advisory(*req, arts[i as int]));
            let args = clone_strings(&req.trailing_arguments);
            proof {
                assert(args.deep_view() =~= req.trailing_arguments.deep_view());
            }
            return Ok(Extraction { workload: AssembledWorkload { executable, args }, advisory });
        }
        assert(!artifact_matches(arts[i as int], sel_kinds.deep_view(), sel_name@));
        i = i + 1;
    }
    Err(Error::TargetArtifactNotFound(artifact_listing(artifacts)))
}

} // verus!
