use cargo_heaptrack::errors::Error;
use cargo_heaptrack::extractor::extract;
use cargo_heaptrack::extractor::AdvisoryProfile;
use cargo_heaptrack::invoker::ArtifactInfo;
use cargo_heaptrack::invoker::DebugInfo;
use cargo_heaptrack::request::BuildRequest;

fn plain_request() -> BuildRequest {
    BuildRequest {
        dev: false,
        profile: None,
        package: None,
        bin: None,
        example: None,
        test: None,
        unit_test: None,
        bench: None,
        manifest_path: None,
        features: None,
        no_default_features: false,
        trailing_arguments: Vec::new(),
    }
}

fn artifact(name: &str, kind: &str, executable: Option<&str>, debuginfo: DebugInfo) -> ArtifactInfo {
    ArtifactInfo {
        target_name: name.to_string(),
        kinds: vec![kind.to_string()],
        executable: executable.map(|s| s.to_string()),
        debuginfo,
    }
}

#[test]
fn a_matched_bin_without_debuginfo_gets_a_release_advisory() {
    let mut req = plain_request();
    req.bin = Some("x".to_string());
    let artifacts = vec![artifact("x", "bin", Some("/w/x"), DebugInfo::Absent)];
    let e = extract(&req, &artifacts).unwrap();
    assert_eq!(e.workload.executable, "/w/x");
    assert!(e.workload.args.is_empty());
    assert!(matches!(e.advisory, Some(AdvisoryProfile::Release)));
}

#[test]
fn a_matched_bin_with_debuginfo_gets_no_advisory() {
    let mut req = plain_request();
    req.bin = Some("x".to_string());
    let artifacts = vec![artifact("x", "bin", Some("/w/x"), DebugInfo::Level("2".to_string()))];
    let e = extract(&req, &artifacts).unwrap();
    assert!(e.advisory.is_none());
}

#[test]
fn a_dev_build_gets_no_advisory_even_without_debuginfo() {
    let mut req = plain_request();
    req.dev = true;
    req.bin = Some("x".to_string());
    let artifacts = vec![artifact("x", "bin", Some("/w/x"), DebugInfo::Absent)];
    let e = extract(&req, &artifacts).unwrap();
    assert!(e.advisory.is_none());
}

#[test]
fn a_bench_without_debuginfo_gets_a_bench_advisory() {
    let mut req = plain_request();
    req.bench = Some("b".to_string());
    let artifacts = vec![artifact("b", "bench", Some("/w/b"), DebugInfo::Absent)];
    let e = extract(&req, &artifacts).unwrap();
    assert!(matches!(e.advisory, Some(AdvisoryProfile::Bench)));
}

#[test]
fn a_unit_test_without_debuginfo_gets_a_release_advisory() {
    let mut req = plain_request();
    req.unit_test = Some(Some("t".to_string()));
    let artifacts = vec![artifact("t", "lib", Some("/w/t"), DebugInfo::Absent)];
    let e = extract(&req, &artifacts).unwrap();
    assert!(matches!(e.advisory, Some(AdvisoryProfile::Release)));
}

#[test]
fn trailing_arguments_round_trip_in_order() {
    let mut req = plain_request();
    req.bin = Some("x".to_string());
    req.trailing_arguments = vec!["--a".to_string(), "b".to_string(), "--a".to_string()];
    let artifacts = vec![artifact("x", "bin", Some("/w/x"), DebugInfo::Absent)];
    let e = extract(&req, &artifacts).unwrap();
    assert_eq!(e.workload.args, req.trailing_arguments);
}

#[test]
fn an_empty_trailing_list_round_trips() {
    let mut req = plain_request();
    req.bin = Some("x".to_string());
    let artifacts = vec![artifact("x", "bin", Some("/w/x"), DebugInfo::Absent)];
    let e = extract(&req, &artifacts).unwrap();
    assert_eq!(e.workload.args, Vec::<String>::new());
}

#[test]
fn no_selector_means_nothing_to_extract() {
    let req = plain_request();
    let artifacts = vec![artifact("x", "bin", Some("/w/x"), DebugInfo::Absent)];
    let r = extract(&req, &artifacts);
    assert!(matches!(r, Err(Error::NoSelection)));
}

#[test]
fn a_unit_test_selector_without_inner_name_means_nothing_to_extract() {
    let mut req = plain_request();
    req.unit_test = Some(None);
    let artifacts = vec![artifact("x", "bin", Some("/w/x"), DebugInfo::Absent)];
    let r = extract(&req, &artifacts);
    assert!(matches!(r, Err(Error::NoSelection)));
}

#[test]
fn a_missing_target_lists_every_artifact_for_diagnosis() {
    let mut req = plain_request();
    req.bin = Some("ghost".to_string());
    let artifacts = vec![
        artifact("x", "bin", Some("/w/x"), DebugInfo::Absent),
        artifact("y", "lib", None, DebugInfo::Absent),
    ];
    match extract(&req, &artifacts) {
        Err(Error::TargetArtifactNotFound(listing)) => {
            assert_eq!(listing.len(), 2);
            assert_eq!(listing[0], (vec!["bin".to_string()], "x".to_string()));
            assert_eq!(listing[1], (vec!["lib".to_string()], "y".to_string()));
        },
        _ => panic!("expected a target-artifact-not-found failure"),
    }
}

#[test]
fn a_name_match_without_an_executable_does_not_count() {
    let mut req = plain_request();
    req.test = Some("t".to_string());
    let artifacts = vec![artifact("t", "test", None, DebugInfo::Absent)];
    let r = extract(&req, &artifacts);
    assert!(matches!(r, Err(Error::TargetArtifactNotFound(_))));
}

#[test]
fn the_first_matching_artifact_wins() {
    let mut req = plain_request();
    req.bin = Some("x".to_string());
    let artifacts = vec![
        artifact("y", "bin", Some("/w/y"), DebugInfo::Absent),
        artifact("x", "bin", Some("/w/first"), DebugInfo::Absent),
        artifact("x", "bin", Some("/w/second"), DebugInfo::Absent),
    ];
    let e = extract(&req, &artifacts).unwrap();
    assert_eq!(e.workload.executable, "/w/first");
}

#[test]
fn a_unit_test_matches_a_lib_artifact() {
    let mut req = plain_request();
    req.unit_test = Some(Some("p".to_string()));
    let artifacts = vec![artifact("p", "lib", Some("/w/p-hash"), DebugInfo::Level("2".to_string()))];
    let e = extract(&req, &artifacts).unwrap();
    assert_eq!(e.workload.executable, "/w/p-hash");
}
