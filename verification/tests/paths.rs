use cargo_heaptrack::errors::Error;
use cargo_heaptrack::paths::ancestor_dirs;
use cargo_heaptrack::paths::is_path_prefix;
use cargo_heaptrack::paths::manifest_parent;
use cargo_heaptrack::paths::pick_crate_root;

fn comps(parts: &[&str]) -> Vec<String> {
    parts.iter().map(|s| s.to_string()).collect()
}

#[test]
fn the_manifest_parent_drops_the_file_component() {
    let parent = manifest_parent(&comps(&["w", "proj", "Cargo.toml"])).unwrap();
    assert_eq!(parent, comps(&["w", "proj"]));
}

#[test]
fn a_rootless_manifest_path_is_invalid() {
    let r = manifest_parent(&Vec::new());
    assert!(matches!(r, Err(Error::InvalidManifestPath)));
}

#[test]
fn ancestors_run_from_the_directory_to_the_root() {
    let dirs = ancestor_dirs(&comps(&["a", "b"]));
    assert_eq!(dirs.len(), 3);
    assert_eq!(dirs[0], comps(&["a", "b"]));
    assert_eq!(dirs[1], comps(&["a"]));
    assert_eq!(dirs[2], Vec::<String>::new());
}

#[test]
fn the_first_directory_with_a_manifest_wins() {
    let k = pick_crate_root(&vec![false, true, true]).unwrap();
    assert_eq!(k, 1);
}

#[test]
fn no_manifest_anywhere_is_a_failure() {
    let r = pick_crate_root(&vec![false, false]);
    assert!(matches!(r, Err(Error::ManifestNotFound)));
}

#[test]
fn path_prefixes_compare_by_components() {
    assert!(is_path_prefix(&comps(&["a", "b"]), &comps(&["a", "b", "c"])));
    assert!(is_path_prefix(&Vec::new(), &comps(&["a"])));
    assert!(is_path_prefix(&comps(&["a"]), &comps(&["a"])));
    assert!(!is_path_prefix(&comps(&["a", "b"]), &comps(&["a"])));
    assert!(!is_path_prefix(&comps(&["ab"]), &comps(&["a", "b"])));
}
