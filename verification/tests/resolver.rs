use cargo_heaptrack::errors::Error;
use cargo_heaptrack::resolver::resolve;
use cargo_heaptrack::resolver::PackageMeta;
use cargo_heaptrack::resolver::TargetDescriptor;

fn bin_target(name: &str) -> TargetDescriptor {
    TargetDescriptor { name: name.to_string(), kinds: vec!["bin".to_string()] }
}

fn package(name: &str, targets: Vec<TargetDescriptor>, default_run: Option<&str>) -> PackageMeta {
    PackageMeta {
        name: name.to_string(),
        manifest_path: vec!["work".to_string(), name.to_string(), "Cargo.toml".to_string()],
        targets,
        default_run: default_run.map(|s| s.to_string()),
    }
}

fn bin_kinds() -> Vec<String> {
    vec!["bin".to_string()]
}

fn root() -> Vec<String> {
    vec!["work".to_string()]
}

#[test]
fn two_candidate_bins_are_ambiguous() {
    let packages = vec![package("p", vec![bin_target("a"), bin_target("b")], None)];
    let r = resolve(&bin_kinds(), &None, &root(), &None, &packages);
    match r {
        Err(Error::AmbiguousTarget(candidates)) => {
            assert_eq!(candidates.len(), 2);
            assert_eq!(candidates[0].target, "a");
            assert_eq!(candidates[1].target, "b");
            assert_eq!(candidates[0].package, "p");
        },
        _ => panic!("expected an ambiguous-target failure"),
    }
}

#[test]
fn single_bin_resolves_with_a_notice() {
    let packages = vec![package("p", vec![bin_target("a")], None)];
    let r = resolve(&bin_kinds(), &None, &root(), &None, &packages).unwrap();
    assert_eq!(r.target.target, "a");
    assert_eq!(r.target.package, "p");
    assert_eq!(r.target.kinds, vec!["bin".to_string()]);
    assert!(r.notice);
}

#[test]
fn default_run_resolves_silently() {
    let packages = vec![package("p", vec![bin_target("a"), bin_target("b")], Some("a"))];
    let r = resolve(&bin_kinds(), &None, &root(), &None, &packages).unwrap();
    assert_eq!(r.target.target, "a");
    assert!(!r.notice);
}

#[test]
fn default_run_that_decides_nothing_still_gets_a_notice() {
    let packages = vec![package("p", vec![bin_target("a")], Some("a"))];
    let r = resolve(&bin_kinds(), &None, &root(), &None, &packages).unwrap();
    assert_eq!(r.target.target, "a");
    assert!(r.notice);
}

#[test]
fn default_run_restriction_precedes_the_name_filter() {
    let packages = vec![package("p", vec![bin_target("a"), bin_target("b")], Some("a"))];
    let r = resolve(&bin_kinds(), &None, &root(), &Some("b".to_string()), &packages);
    assert!(matches!(r, Err(Error::NoTarget)));
}

#[test]
fn name_filter_narrows_to_one_target() {
    let packages = vec![package("p", vec![bin_target("a"), bin_target("b")], None)];
    let r = resolve(&bin_kinds(), &None, &root(), &Some("b".to_string()), &packages).unwrap();
    assert_eq!(r.target.target, "b");
    assert!(r.notice);
}

#[test]
fn unknown_package_filter_is_reported_with_its_name() {
    let packages = vec![package("p", vec![bin_target("a")], None)];
    let r = resolve(&bin_kinds(), &Some("ghost".to_string()), &root(), &None, &packages);
    match r {
        Err(Error::UnknownPackage(name)) => assert_eq!(name, "ghost"),
        _ => panic!("expected an unknown-package failure"),
    }
}

#[test]
fn no_package_under_the_crate_root_is_its_own_failure() {
    let packages = vec![package("p", vec![bin_target("a")], None)];
    let elsewhere = vec!["elsewhere".to_string()];
    let r = resolve(&bin_kinds(), &None, &elsewhere, &None, &packages);
    assert!(matches!(r, Err(Error::NoPackageInScope)));
}

#[test]
fn package_filter_overrides_the_crate_root_scope() {
    let packages = vec![package("p", vec![bin_target("a")], None)];
    let elsewhere = vec!["elsewhere".to_string()];
    let r = resolve(&bin_kinds(), &Some("p".to_string()), &elsewhere, &None, &packages).unwrap();
    assert_eq!(r.target.target, "a");
}

#[test]
fn kind_mismatch_yields_no_target() {
    let lib = TargetDescriptor { name: "p".to_string(), kinds: vec!["lib".to_string()] };
    let packages = vec![package("p", vec![lib], None)];
    let r = resolve(&bin_kinds(), &None, &root(), &None, &packages);
    assert!(matches!(r, Err(Error::NoTarget)));
}

#[test]
fn unit_test_kinds_match_a_lib_target() {
    let lib = TargetDescriptor { name: "p".to_string(), kinds: vec!["lib".to_string()] };
    let packages = vec![package("p", vec![lib], None)];
    let kinds = vec!["bin".to_string(), "lib".to_string()];
    let r = resolve(&kinds, &None, &root(), &None, &packages).unwrap();
    assert_eq!(r.target.kinds, vec!["lib".to_string()]);
}

#[test]
fn targets_of_two_packages_accumulate() {
    let packages = vec![
        package("p", vec![bin_target("a")], None),
        package("q", vec![bin_target("b")], None),
    ];
    let r = resolve(&bin_kinds(), &None, &root(), &None, &packages);
    match r {
        Err(Error::AmbiguousTarget(candidates)) => {
            assert_eq!(candidates.len(), 2);
            assert_eq!(candidates[0].package, "p");
            assert_eq!(candidates[1].package, "q");
        },
        _ => panic!("expected an ambiguous-target failure"),
    }
}
