//! Target disambiguation: narrow the project's package/target graph to the
//! unique target a loosely specified request means.

use vstd::prelude::*;

use crate::errors::Error;

verus! {

/// One declared build target of a package: a name and its ordered kind
/// tags (such as `bin`, `lib`, `example`, `test`, `bench`).
pub struct TargetDescriptor {
    pub name: String,
    pub kinds: Vec<String>,
}

/// The mathematical image of a [`TargetDescriptor`].
pub struct TargetDescriptorView {
    pub name: Seq<char>,
    pub kinds: Seq<Seq<char>>,
}

impl DeepView for TargetDescriptor {
    type V = TargetDescriptorView;

    open spec fn deep_view(&self) -> TargetDescriptorView {
        TargetDescriptorView { name: self.name@, kinds: self.kinds.deep_view() }
    }
}

/// A package of the project graph, as the metadata query reports it: its
/// name, the path of its manifest split into components, its declared
/// targets, and the name of its `default-run` target when one is marked.
pub struct PackageMeta {
    pub name: String,
    pub manifest_path: Vec<String>,
    pub targets: Vec<TargetDescriptor>,
    pub default_run: Option<String>,
}

/// The mathematical image of a [`PackageMeta`].
pub struct PackageMetaView {
    pub name: Seq<char>,
    pub manifest_path: Seq<Seq<char>>,
    pub targets: Seq<TargetDescriptorView>,
    pub default_run: Option<Seq<char>>,
}

impl DeepView for PackageMeta {
    type V = PackageMetaView;

    open spec fn deep_view(&self) -> PackageMetaView {
        PackageMetaView {
            name: self.name@,
            manifest_path: self.manifest_path.deep_view(),
            targets: self.targets.deep_view(),
            default_run: self.default_run.deep_view(),
        }
    }
}

/// The outcome of disambiguation: exactly one (package, target) pair,
/// with the target's kind tags.
#[derive(Debug)]
pub struct ResolvedTarget {
    pub package: String,
    pub target: String,
    pub kinds: Vec<String>,
}

/// The mathematical image of a [`ResolvedTarget`].
pub struct ResolvedTargetView {
    pub package: Seq<char>,
    pub target: Seq<char>,
    pub kinds: Seq<Seq<char>>,
}

impl DeepView for ResolvedTarget {
    type V = ResolvedTargetView;

    open spec fn deep_view(&self) -> ResolvedTargetView {
        ResolvedTargetView {
            package: self.package@,
            target: self.target@,
            kinds: self.kinds.deep_view(),
        }
    }
}

/// What disambiguation hands back: the unique target, and whether the
/// caller should announce the automatic choice. The announcement is
/// suppressed exactly when a single package was in scope and its
/// default-run marker was the sole reason the choice was unique — without
/// the marker several targets would have survived — because then the
/// selection is the expected one.
pub struct ResolutionOutcome {
    pub target: ResolvedTarget,
    pub notice: bool,
}

/// Whether some kind tag of a target is among the requested kinds.
pub open spec fn kind_intersects(target_kinds: Seq<Seq<char>>, kinds: Seq<Seq<char>>) -> bool {
    exists|i: int| 0 <= i < target_kinds.len() && kinds.contains(target_kinds[i])
}

/// Whether one declared target survives the narrowing: its kind set meets
/// the requested kinds, it is the package's default-run target when one is
/// marked, and it carries the requested name when one is given.
pub open spec fn target_survives(
    t: TargetDescriptorView,
    kinds: Seq<Seq<char>>,
    default_run: Option<Seq<char>>,
    target_name: Option<Seq<char>>,
) -> bool {
    &&& kind_intersects(t.kinds, kinds)
    &&& (default_run matches Some(d) ==> t.name == d)
    &&& (target_name matches Some(n) ==> t.name == n)
}

/// The surviving targets of one package, in declaration order.
pub open spec fn targets_surviving(
    pkg_name: Seq<char>,
    targets: Seq<TargetDescriptorView>,
    kinds: Seq<Seq<char>>,
    default_run: Option<Seq<char>>,
    target_name: Option<Seq<char>>,
) -> Seq<ResolvedTargetView>
    decreases targets.len(),
{
    if targets.len() == 0 {
        Seq::empty()
    } else {
        let rest = targets_surviving(pkg_name, targets.drop_last(), kinds, default_run, target_name);
        let t = targets.last();
        if target_survives(t, kinds, default_run, target_name) {
            rest.push(ResolvedTargetView { package: pkg_name, target: t.name, kinds: t.kinds })
        } else {
            rest
        }
    }
}

/// Whether a package is in scope: it carries the requested name when a
/// package filter is given, and otherwise its manifest lies under the
/// crate root.
pub open spec fn in_scope(
    p: PackageMetaView,
    package_filter: Option<Seq<char>>,
    crate_root: Seq<Seq<char>>,
) -> bool {
    match package_filter {
        Some(n) => p.name == n,
        None => crate::paths::spec_is_path_prefix(crate_root, p.manifest_path),
    }
}

/// How many packages are in scope.
pub open spec fn scope_size(
    pkgs: Seq<PackageMetaView>,
    package_filter: Option<Seq<char>>,
    crate_root: Seq<Seq<char>>,
) -> int
    decreases pkgs.len(),
{
    if pkgs.len() == 0 {
        0
    } else {
        scope_size(pkgs.drop_last(), package_filter, crate_root) + (
        if in_scope(pkgs.last(), package_filter, crate_root) {
            1int
        } else {
            0int
        })
    }
}

/// Whether some in-scope package marks a default-run target.
pub open spec fn scope_has_default_run(
    pkgs: Seq<PackageMetaView>,
    package_filter: Option<Seq<char>>,
    crate_root: Seq<Seq<char>>,
) -> bool
    decreases pkgs.len(),
{
    if pkgs.len() == 0 {
        false
    } else {
        scope_has_default_run(pkgs.drop_last(), package_filter, crate_root) || (in_scope(
            pkgs.last(),
            package_filter,
            crate_root,
        ) && pkgs.last().default_run is Some)
    }
}

/// Every (package, target) pair that survives the narrowing, across all
/// in-scope packages, in order.
pub open spec fn survivors(
    pkgs: Seq<PackageMetaView>,
    kinds: Seq<Seq<char>>,
    package_filter: Option<Seq<char>>,
    crate_root: Seq<Seq<char>>,
    target_name: Option<Seq<char>>,
) -> Seq<ResolvedTargetView>
    decreases pkgs.len(),
{
    if pkgs.len() == 0 {
        Seq::empty()
    } else {
        survivors(pkgs.drop_last(), kinds, package_filter, crate_root, target_name) + (
        if in_scope(pkgs.last(), package_filter, crate_root) {
            targets_surviving(
                pkgs.last().name,
                pkgs.last().targets,
                kinds,
                pkgs.last().default_run,
                target_name,
            )
        } else {
            Seq::empty()
        })
    }
}

/// Every (package, target) pair that would survive with the default-run
/// restriction ignored, across all in-scope packages, in order. Comparing
/// this against [`survivors`] tells whether a package's default-run marker
/// was the sole reason the surviving choice was unique.
pub open spec fn unrestricted_survivors(
    pkgs: Seq<PackageMetaView>,
    kinds: Seq<Seq<char>>,
    package_filter: Option<Seq<char>>,
    crate_root: Seq<Seq<char>>,
    target_name: Option<Seq<char>>,
) -> Seq<ResolvedTargetView>
    decreases pkgs.len(),
{
    if pkgs.len() == 0 {
        Seq::empty()
    } else {
        unrestricted_survivors(pkgs.drop_last(), kinds, package_filter, crate_root, target_name) + (
        if in_scope(pkgs.last(), package_filter, crate_root) {
            targets_surviving(
                pkgs.last().name,
                pkgs.last().targets,
                kinds,
                Option::<Seq<char>>::None,
                target_name,
            )
        } else {
            Seq::empty()
        })
    }
}

/// Decides whether `hay` holds a string whose characters equal `needle`'s.
pub(crate) fn contains_string(hay: &Vec<String>, needle: &String) -> (r: bool)
    ensures
        r == hay.deep_view().contains(needle@),
{
    let mut i: usize = 0;
    while i < hay.len()
        invariant
            i <= hay@.len(),
            hay@.len() == hay.deep_view().len(),
            forall|j: int| 0 <= j < i ==> hay.deep_view()[j] != needle@,
        decreases hay.len() - i,
    {
        assert(hay.deep_view()[i as int] == hay@[i as int]@);
        if hay[i] == *needle {
            assert(hay.deep_view().contains(needle@)) by {
                assert(hay.deep_view()[i as int] == needle@);
            }
            return true;
        }
        i = i + 1;
    }
    false
}

/// Decides whether a target's kind tags meet the requested kinds.
pub fn kinds_intersect(target_kinds: &Vec<String>, kinds: &Vec<String>) -> (r: bool)
    ensures
        r == kind_intersects(target_kinds.deep_view(), kinds.deep_view()),
{
    let mut i: usize = 0;
    while i < target_kinds.len()
        invariant
            i <= target_kinds@.len(),
            target_kinds@.len() == target_kinds.deep_view().len(),
            forall|j: int|
                0 <= j < i ==> !kinds.deep_view().contains(target_kinds.deep_view()[j]),
        decreases target_kinds.len() - i,
    {
        assert(target_kinds.deep_view()[i as int] == target_kinds@[i as int]@);
        if contains_string(kinds, &target_kinds[i]) {
            assert(kind_intersects(target_kinds.deep_view(), kinds.deep_view())) by {
                assert(kinds.deep_view().contains(target_kinds.deep_view()[i as int]));
            }
            return true;
        }
        i = i + 1;
    }
    false
}

/// Copies a list of strings, keeping every element's value.
pub(crate) fn clone_strings(v: &Vec<String>) -> (r: Vec<String>)
    ensures
        r@ == v@,
{
    let mut out: Vec<String> = Vec::new();
    let mut i: usize = 0;
    assert(out@ =~= v@.take(0));
    while i < v.len()
        invariant
            i <= v@.len(),
            out@ == v@.take(i as int),
        decreases v.len() - i,
    {
        out.push(v[i].clone());
        assert(out@ =~= v@.take(i + 1));
        i = i + 1;
    }
    assert(v@.take(v@.len() as int) =~= v@);
    out
}

/// Narrows the package/target graph to the unique target the request
/// means.
///
/// Exactly one survivor resolves; zero survivors is `NoTarget` (or one of
/// the empty-scope errors when no package is in scope at all), and several
/// survivors are `AmbiguousTarget`, carrying every candidate.
pub fn resolve(
    kinds: &Vec<String>,
    package_filter: &Option<String>,
    crate_root: &Vec<String>,
    target_name: &Option<String>,
    packages: &Vec<PackageMeta>,
) -> (r: Result<ResolutionOutcome, Error>)
    ensures
        ({
            let s = survivors(
                packages.deep_view(),
                kinds.deep_view(),
                package_filter.deep_view(),
                crate_root.deep_view(),
                target_name.deep_view(),
            );
            let n = scope_size(
                packages.deep_view(),
                package_filter.deep_view(),
                crate_root.deep_view(),
            );
            let d = scope_has_default_run(
                packages.deep_view(),
                package_filter.deep_view(),
                crate_root.deep_view(),
            );
            let u = unrestricted_survivors(
                packages.deep_view(),
                kinds.deep_view(),
                package_filter.deep_view(),
                crate_root.deep_view(),
                target_name.deep_view(),
            );
            match r {
                Ok(out) => s.len() == 1 && out.target.deep_view() == s[0] && (out.notice <==> !(n
                    == 1 && d && u.len() > 1)),
                Err(Error::UnknownPackage(p)) => n == 0 && (package_filter.deep_view() matches Some(
                    f,
                ) && p@ == f),
                Err(Error::NoPackageInScope) => n == 0 && package_filter is None,
                Err(Error::NoTarget) => n > 0 && s.len() == 0,
                Err(Error::AmbiguousTarget(c)) => s.len() > 1 && c.deep_view() == s,
                Err(_) => false,
            }
        }),
{
    let ghost all = packages.deep_view();
    let ghost gkinds = kinds.deep_view();
    let ghost gfilter = package_filter.deep_view();
    let ghost groot = crate_root.deep_view();
    let ghost gname = target_name.deep_view();

    let mut found: Vec<ResolvedTarget> = Vec::new();
    let mut num_in_scope: usize = 0;
    let mut any_default: bool = false;
    let mut unrestricted_seen: usize = 0;
    let mut pi: usize = 0;

    proof {
        assert(all.take(0) =~= Seq::<PackageMetaView>::empty());
        assert(found.deep_view() =~= Seq::<ResolvedTargetView>::empty());
        assert(unrestricted_survivors(all.take(0), gkinds, gfilter, groot, gname)
            =~= Seq::<ResolvedTargetView>::empty());
    }

    while pi < packages.len()
        invariant
            pi <= packages@.len(),
            all == packages.deep_view(),
            gkinds == kinds.deep_view(),
            gfilter == package_filter.deep_view(),
            groot == crate_root.deep_view(),
            gname == target_name.deep_view(),
            all.len() == packages@.len(),
            num_in_scope <= pi,
            found.deep_view() == survivors(all.take(pi as int), gkinds, gfilter, groot, gname),
            num_in_scope == scope_size(all.take(pi as int), gfilter, groot),
            any_default == scope_has_default_run(all.take(pi as int), gfilter, groot),
            unrestricted_seen <= 2,
            ({
                let u = unrestricted_survivors(all.take(pi as int), gkinds, gfilter, groot, gname).len();
                (unrestricted_seen as int) == (if u < 2 { u as int } else { 2int })
            }),
        decreases packages.len() - pi,
    {
        let p = &packages[pi];
        let ghost pv = all[pi as int];
        proof {
            assert(all[pi as int] == packages@[pi as int].deep_view());
        }
        let p_in_scope: bool = match package_filter {
            Some(f) => p.name == *f,
            None => crate::paths::is_path_prefix(crate_root, &p.manifest_path),
        };
        assert(p_in_scope == in_scope(pv, gfilter, groot));

        if p_in_scope {
            num_in_scope = num_in_scope + 1;
            if p.default_run.is_some() {
                any_default = true;
            }
            let mut ti: usize = 0;
            proof {
                assert(pv.targets.take(0) =~= Seq::<TargetDescriptorView>::empty());
                assert(found.deep_view() + Seq::<ResolvedTargetView>::empty() =~= found.deep_view());
                assert(targets_surviving(
                    pv.name,
                    pv.targets.take(0),
                    gkinds,
                    Option::<Seq<char>>::None,
                    gname,
                ) =~= Seq::<ResolvedTargetView>::empty());
            }
            while ti < p.targets.len()
                invariant
                    ti <= p.targets@.len(),
                    all == packages.deep_view(),
                    gkinds == kinds.deep_view(),
                    gfilter == package_filter.deep_view(),
                    groot == crate_root.deep_view(),
                    gname == target_name.deep_view(),
                    pi < packages@.len(),
                    all.len() == packages@.len(),
                    p == &packages@[pi as int],
                    pv == all[pi as int],
                    pv.targets.len() == p.targets@.len(),
                    found.deep_view() == survivors(all.take(pi as int), gkinds, gfilter, groot, gname)
                        + targets_surviving(
                        pv.name,
                        pv.targets.take(ti as int),
                        gkinds,
                        pv.default_run,
                        gname,
                    ),
                    unrestricted_seen <= 2,
                    ({
                        let u = unrestricted_survivors(
                            all.take(pi as int),
                            gkinds,
                            gfilter,
                            groot,
                            gname,
                        ).len() + targets_surviving(
                            pv.name,
                            pv.targets.take(ti as int),
                            gkinds,
                            Option::<Seq<char>>::None,
                            gname,
                        ).len();
                        (unrestricted_seen as int) == (if u < 2 { u as int } else { 2int })
                    }),
                decreases p.targets.len() - ti,
            {
                let t = &p.targets[ti];
                let ghost tv = pv.targets[ti as int];
                proof {
                    assert(pv.targets[ti as int] == p.targets@[ti as int].deep_view());
                }
                let kind_ok = kinds_intersect(&t.kinds, kinds);
                let default_ok: bool = match &p.default_run {
                    Some(d) => t.name == *d,
                    None => true,
                };
                let name_ok: bool = match target_name {
                    Some(n) => t.name == *n,
                    None => true,
                };
                let keep = kind_ok && default_ok && name_ok;
                assert(keep == target_survives(tv, gkinds, pv.default_run, gname));
                let keep_unrestricted = kind_ok && name_ok;
                assert(keep_unrestricted == target_survives(
                    tv,
                    gkinds,
                    Option::<Seq<char>>::None,
                    gname,
                ));
                if keep_unrestricted && unrestricted_seen < 2 {
                    unrestricted_seen = unrestricted_seen + 1;
                }
                if keep {
                    let kinds_copy = clone_strings(&t.kinds);
                    let chosen = ResolvedTarget {
                        package: p.name.clone(),
                        target: t.name.clone(),
                        kinds: kinds_copy,
                    };
                    proof {
                        assert(chosen.kinds.deep_view() =~= t.kinds.deep_view());
                        assert(chosen.deep_view() == (ResolvedTargetView {
                            package: pv.name,
                            target: tv.name,
                            kinds: tv.kinds,
                        }));
                    }
                    let ghost pre = found.deep_view();
                    let ghost chosen_view = chosen.deep_view();
                    found.push(chosen);
                    proof {
                        assert(found.deep_view() =~= pre.push(chosen_view));
                    }
                }
                proof {
                    assert(pv.targets.take(ti + 1).drop_last() =~= pv.targets.take(ti as int));
                    assert(pv.targets.take(ti + 1).last() == pv.targets[ti as int]);
                    assert(targets_surviving(
                        pv.name,
                        pv.targets.take(ti + 1),
                        gkinds,
                        Option::<Seq<char>>::None,
                        gname,
                    ).len() == targets_surviving(
                        pv.name,
                        pv.targets.take(ti as int),
                        gkinds,
                        Option::<Seq<char>>::None,
                        gname,
                    ).len() + (if keep_unrestricted {
                        1int
                    } else {
                        0int
                    }));
                    if keep {
                        assert(found.deep_view() =~= survivors(
                            all.take(pi as int),
                            gkinds,
                            gfilter,
                            groot,
                            gname,
                        ) + targets_surviving(
                            pv.name,
                            pv.targets.take(ti + 1),
                            gkinds,
                            pv.default_run,
                            gname,
                        ));
                    }
                }
                ti = ti + 1;
            }
            proof {
                assert(pv.targets.take(p.targets@.len() as int) =~= pv.targets);
            }
        }
        proof {
            assert(all.take(pi + 1).drop_last() =~= all.take(pi as int));
            assert(all.take(pi + 1).last() == all[pi as int]);
            if !p_in_scope {
                assert(survivors(all.take(pi + 1), gkinds, gfilter, groot, gname) =~= survivors(
                    all.take(pi as int),
                    gkinds,
                    gfilter,
                    groot,
                    gname,
                ));
                assert(unrestricted_survivors(all.take(pi + 1), gkinds, gfilter, groot, gname)
                    =~= unrestricted_survivors(all.take(pi as int), gkinds, gfilter, groot, gname));
            } else {
                assert(unrestricted_survivors(all.take(pi + 1), gkinds, gfilter, groot, gname)
                    =~= unrestricted_survivors(all.take(pi as int), gkinds, gfilter, groot, gname)
                    + targets_surviving(
                    pv.name,
                    pv.targets,
                    gkinds,
                    Option::<Seq<char>>::None,
                    gname,
                ));
            }
        }
        pi = pi + 1;
    }

    proof {
        assert(all.take(packages@.len() as int) =~= all);
    }

    if num_in_scope == 0 {
        return match package_filter {
            Some(f) => Err(Error::UnknownPackage(f.clone())),
            None => Err(Error::NoPackageInScope),
        };
    }
    if found.len() == 0 {
        return Err(Error::NoTarget);
    }
    if found.len() > 1 {
        return Err(Error::AmbiguousTarget(found));
    }
    let target = match found.pop() {
        Some(t) => t,
        None => {
            proof {
                assert(false);
            }
            unreached()
        },
    };
    let notice = !(num_in_scope == 1 && any_default && unrestricted_seen > 1);
    Ok(ResolutionOutcome { target, notice })
}

} // verus!
