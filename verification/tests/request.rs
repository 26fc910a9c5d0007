use cargo_heaptrack::errors::Error;
use cargo_heaptrack::request::BuildRequest;
use cargo_heaptrack::request::ResolutionNeed;
use cargo_heaptrack::resolver::ResolvedTarget;

fn plain_request() -> BuildRequest {
    BuildRequest {
        dev: false,
        profile: None,
        package: None,
        bin: None,
        example: None,
        test: None,
        unit_test: None,
        bench: None,
        manifest_path: None,
        features: None,
        no_default_features: false,
        trailing_arguments: Vec::new(),
    }
}

#[test]
fn request_with_one_selector_is_accepted() {
    let r = BuildRequest::new(
        false,
        None,
        None,
        Some("x".to_string()),
        None,
        None,
        None,
        None,
        None,
        None,
        false,
        vec!["--flag".to_string()],
    );
    let req = r.unwrap();
    assert_eq!(req.bin, Some("x".to_string()));
    assert_eq!(req.trailing_arguments, vec!["--flag".to_string()]);
}

#[test]
fn request_with_no_selector_is_accepted() {
    let r = BuildRequest::new(
        true,
        None,
        None,
        None,
        None,
        None,
        None,
        None,
        None,
        None,
        false,
        Vec::new(),
    );
    assert!(r.is_ok());
}

#[test]
fn request_with_two_selectors_is_rejected() {
    let r = BuildRequest::new(
        false,
        None,
        None,
        Some("x".to_string()),
        None,
        Some("t".to_string()),
        None,
        None,
        None,
        None,
        false,
        Vec::new(),
    );
    assert!(matches!(r, Err(Error::MultipleSelection)));
}

#[test]
fn request_with_unit_test_and_bench_is_rejected() {
    let r = BuildRequest::new(
        false,
        None,
        None,
        None,
        None,
        None,
        Some(None),
        Some("b".to_string()),
        None,
        None,
        false,
        Vec::new(),
    );
    assert!(matches!(r, Err(Error::MultipleSelection)));
}

#[test]
fn empty_request_needs_unique_binary_resolution() {
    let req = plain_request();
    assert!(matches!(req.resolution_need(), ResolutionNeed::UniqueBinary));
}

#[test]
fn unit_test_request_needs_unit_test_resolution() {
    let mut req = plain_request();
    req.unit_test = Some(None);
    assert!(matches!(req.resolution_need(), ResolutionNeed::UnitTest(None)));
    req.unit_test = Some(Some("inner".to_string()));
    match req.resolution_need() {
        ResolutionNeed::UnitTest(Some(name)) => assert_eq!(name, "inner"),
        _ => panic!("expected a unit-test resolution with the inner name"),
    }
}

#[test]
fn explicit_request_needs_no_resolution() {
    let mut req = plain_request();
    req.bench = Some("b".to_string());
    assert!(matches!(req.resolution_need(), ResolutionNeed::Settled));
}

#[test]
fn adopting_a_binary_fills_bin_and_package() {
    let mut req = plain_request();
    let kinds = req.adopt_binary(ResolvedTarget {
        package: "p".to_string(),
        target: "t".to_string(),
        kinds: vec!["bin".to_string()],
    });
    assert_eq!(req.bin, Some("t".to_string()));
    assert_eq!(req.package, Some("p".to_string()));
    assert_eq!(kinds, vec!["bin".to_string()]);
}

#[test]
fn adopting_a_unit_test_fills_the_inner_name() {
    let mut req = plain_request();
    req.unit_test = Some(None);
    let kinds = req.adopt_unit_test(ResolvedTarget {
        package: "p".to_string(),
        target: "t".to_string(),
        kinds: vec!["lib".to_string()],
    });
    assert_eq!(req.unit_test, Some(Some("t".to_string())));
    assert_eq!(req.package, Some("p".to_string()));
    assert_eq!(kinds, vec!["lib".to_string()]);
}
