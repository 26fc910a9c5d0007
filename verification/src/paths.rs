//! Path reasoning on plain values.
//!
//! The engine never touches the file system itself; a path is modelled as
//! its ordered list of components. The caller turns real paths into
//! component lists, probes the file system where needed, and hands the
//! results back in.

use vstd::prelude::*;

use crate::errors::Error;

verus! {

/// Whether `prefix` is a component-wise prefix of `path`.
pub open spec fn spec_is_path_prefix(prefix: Seq<Seq<char>>, path: Seq<Seq<char>>) -> bool {
    prefix.len() <= path.len() && forall|i: int| 0 <= i < prefix.len() ==> prefix[i] == path[i]
}

/// Decides whether `prefix` is a component-wise prefix of `path`, the way
/// a path is "under" a directory.
pub fn is_path_prefix(prefix: &Vec<String>, path: &Vec<String>) -> (r: bool)
    ensures
        r == spec_is_path_prefix(prefix.deep_view(), path.deep_view()),
{
    if prefix.len() > path.len() {
        return false;
    }
    let mut i: usize = 0;
    while i < prefix.len()
        invariant
            i <= prefix.len(),
            prefix.len() <= path.len(),
            prefix@.len() == prefix.deep_view().len(),
            path@.len() == path.deep_view().len(),
            forall|j: int| 0 <= j < i ==> prefix.deep_view()[j] == path.deep_view()[j],
        decreases prefix.len() - i,
    {
        assert(prefix.deep_view()[i as int] == prefix@[i as int]@);
        assert(path.deep_view()[i as int] == path@[i as int]@);
        if prefix[i] != path[i] {
            return false;
        }
        i = i + 1;
    }
    true
}

/// The parent directory of an explicitly given manifest path: the path
/// with its final component (the manifest file itself) removed. A path
/// with no components has no parent and cannot point at a manifest file.
pub fn manifest_parent(manifest_path: &Vec<String>) -> (r: Result<Vec<String>, Error>)
    ensures
        match r {
            Ok(parent) => manifest_path@.len() > 0 && parent@ == manifest_path@.drop_last(),
            Err(e) => manifest_path@.len() == 0 && e is InvalidManifestPath,
        },
{
    if manifest_path.len() == 0 {
        return Err(Error::InvalidManifestPath);
    }
    let mut parent: Vec<String> = Vec::new();
    let mut i: usize = 0;
    assert(parent@ =~= manifest_path@.take(0));
    while i < manifest_path.len() - 1
        invariant
            manifest_path@.len() > 0,
            i <= manifest_path@.len() - 1,
            parent@ == manifest_path@.take(i as int),
        decreases manifest_path.len() - 1 - i,
    {
        parent.push(manifest_path[i].clone());
        assert(parent@ =~= manifest_path@.take(i + 1));
        i = i + 1;
    }
    assert(manifest_path@.take(manifest_path@.len() - 1) =~= manifest_path@.drop_last());
    Ok(parent)
}

/// Every ancestor of a directory, from the directory itself down to the
/// root: entry `k` of the result is the path shortened by its last `k`
/// components.
pub fn ancestor_dirs(dir: &Vec<String>) -> (r: Vec<Vec<String>>)
    ensures
        r@.len() == dir@.len() + 1,
        forall|k: int| 0 <= k <= dir@.len() ==> r@[k]@ == dir@.take(dir@.len() - k),
{
    let n = dir.len();
    let mut out: Vec<Vec<String>> = Vec::new();
    let mut k: usize = 0;
    while k < n
        invariant
            n == dir@.len(),
            k <= n,
            out@.len() == k,
            forall|m: int| 0 <= m < k ==> out@[m]@ == dir@.take(n - m),
        decreases n - k,
    {
        let keep = n - k;
        let mut prefix: Vec<String> = Vec::new();
        let mut i: usize = 0;
        assert(prefix@ =~= dir@.take(0));
        while i < keep
            invariant
                i <= keep,
                keep <= n,
                n == dir@.len(),
                prefix@ == dir@.take(i as int),
            decreases keep - i,
        {
            prefix.push(dir[i].clone());
            assert(prefix@ =~= dir@.take(i + 1));
            i = i + 1;
        }
        out.push(prefix);
        k = k + 1;
    }
    let root: Vec<String> = Vec::new();
    assert(root@ =~= dir@.take(0));
    out.push(root);
    out
}

/// Picks the crate root from a manifest scan: `has_manifest[k]` reports
/// whether the `k`-th candidate directory holds the project manifest, and
/// the first that does is the root. When none does, the manifest is
/// nowhere to be found.
pub fn pick_crate_root(has_manifest: &Vec<bool>) -> (r: Result<usize, Error>)
    ensures
        match r {
            Ok(k) => k < has_manifest@.len() && has_manifest@[k as int] && forall|j: int|
                0 <= j < k ==> !has_manifest@[j],
            Err(e) => e is ManifestNotFound && forall|j: int|
                0 <= j < has_manifest@.len() ==> !has_manifest@[j],
        },
{
    let mut k: usize = 0;
    while k < has_manifest.len()
        invariant
            k <= has_manifest@.len(),
            forall|j: int| 0 <= j < k ==> !has_manifest@[j],
        decreases has_manifest.len() - k,
    {
        if has_manifest[k] {
            return Ok(k);
        }
        k = k + 1;
    }
    Err(Error::ManifestNotFound)
}

} // verus!
