use assess::bundle::derive::canonical_tool;
use assess::bundle::{
    ArtifactRefusal, ArtifactReport, ArtifactSource, BundleError, Signal, load,
};
use assess::refusal::DetailField;

fn report(tool: Option<&str>, version: &str, outcome: Option<&str>) -> ArtifactReport {
    ArtifactReport {
        tool: tool.map(str::to_owned),
        version: version.to_owned(),
        outcome: outcome.map(str::to_owned),
        refusal: None,
        policy_signals: Vec::new(),
    }
}

fn source(path: &str, report: ArtifactReport) -> ArtifactSource {
    ArtifactSource {
        artifact: path.to_owned(),
        report: Ok(report),
    }
}

#[test]
fn canonical_tool_prefers_explicit_tool_then_version_fallback() {
    assert_eq!(
        canonical_tool(Some("verify"), "verify.report.v1"),
        Some("verify".to_owned())
    );
    assert_eq!(
        canonical_tool(None, "benchmark.v0"),
        Some("benchmark".to_owned())
    );
}

#[test]
fn canonical_tool_rejects_malformed_explicit_or_fallback_values() {
    assert_eq!(canonical_tool(Some(""), "shape.v0"), None);
    assert_eq!(
        canonical_tool(Some("verify.report"), "verify.report.v1"),
        None
    );
    assert_eq!(canonical_tool(None, "verify.report.v1"), None);
    assert_eq!(canonical_tool(None, "shape.latest"), None);
}

#[test]
fn load_builds_full_basis_and_sorted_observed_tools() {
    let verify = ArtifactReport {
        policy_signals: vec![Signal {
            name: "severity_band".to_owned(),
            value: "\"CLEAN\"".to_owned(),
        }],
        ..report(Some("verify"), "verify.report.v1", Some("PASS"))
    };
    let shape = report(Some("shape"), "shape.report.v1", Some("COMPATIBLE"));
    let rvl = ArtifactReport {
        refusal: Some(ArtifactRefusal {
            code: "E_DIFFUSE".to_owned(),
            message: None,
        }),
        ..report(Some("rvl"), "rvl.report.v1", None)
    };
    let bundle = load(vec![
        source("fixtures/artifacts/verify_pass.json", verify),
        source("fixtures/artifacts/shape_compatible.json", shape),
        source("fixtures/artifacts/rvl_refusal_diffuse.json", rvl),
    ])
    .expect("bundle should load");

    assert_eq!(
        bundle.observed_tools(),
        vec!["rvl".to_owned(), "shape".to_owned(), "verify".to_owned()]
    );
    assert_eq!(bundle.basis().len(), 3);

    let verify = bundle.get("verify").expect("verify artifact should exist");
    assert_eq!(verify.outcome.as_deref(), Some("PASS"));
    assert_eq!(
        verify
            .policy_signals
            .iter()
            .find(|signal| signal.name == "severity_band")
            .map(|signal| signal.value.as_str()),
        Some("\"CLEAN\"")
    );

    let rvl = bundle
        .basis()
        .iter()
        .find(|entry| entry.tool == "rvl")
        .expect("rvl basis entry should exist");
    assert_eq!(rvl.artifact, "fixtures/artifacts/rvl_refusal_diffuse.json");
    assert_eq!(rvl.outcome, None);
    assert_eq!(
        rvl.refusal.as_ref().map(|refusal| refusal.code.as_str()),
        Some("E_DIFFUSE")
    );
}

#[test]
fn load_rejects_duplicate_canonical_tool_identities() {
    let explicit = source(
        "verify-report.json",
        report(Some("verify"), "verify.report.v1", Some("PASS")),
    );
    let fallback = source(
        "verify-fallback.json",
        report(None, "verify.v0", Some("PASS")),
    );

    let error = load(vec![explicit, fallback]).expect_err("duplicate tool identities should fail");
    assert!(matches!(
        error,
        BundleError::DuplicateTool { ref tool, .. } if tool == "verify"
    ));
    assert_eq!(error.refusal_code().as_str(), "E_DUPLICATE_TOOL");
}

#[test]
fn load_rejects_bad_artifacts() {
    let bad = source(
        "bad-artifact.json",
        report(Some(""), "verify.report.v1", Some("PASS")),
    );

    let error = load(vec![bad]).expect_err("malformed tool should fail");
    assert!(matches!(error, BundleError::BadArtifact { .. }));
    assert_eq!(error.refusal_code().as_str(), "E_BAD_ARTIFACT");
}

#[test]
fn load_rejects_compiled_verify_constraints_with_specific_guidance() {
    let path = "/tmp/assess-bundle/constraints.verify.json";
    let constraints = source(path, report(None, "verify.constraint.v1", None));

    let error = load(vec![constraints])
        .expect_err("compiled constraints should not be accepted as assess evidence");
    assert!(matches!(
        error,
        BundleError::VerifyConstraintsArtifact { ref path, ref version }
            if path == "/tmp/assess-bundle/constraints.verify.json" && version == "verify.constraint.v1"
    ));
    assert_eq!(error.refusal_code().as_str(), "E_BAD_ARTIFACT");
    assert_eq!(
        error.refusal_detail(),
        Some(vec![
            DetailField {
                key: "artifact".to_owned(),
                value: path.to_owned(),
            },
            DetailField {
                key: "received_version".to_owned(),
                value: "verify.constraint.v1".to_owned(),
            },
            DetailField {
                key: "expected_version".to_owned(),
                value: "verify.report.v1".to_owned(),
            },
        ])
    );

    let next_command = error
        .refusal_next_command()
        .expect("compiled constraints should surface a next command");
    assert!(next_command.starts_with("verify run "));
    assert!(next_command.contains("constraints.verify.json"));
    assert!(next_command.contains("&& assess "));
}

#[test]
fn unreadable_artifacts_are_bad_artifacts_with_their_reason() {
    let unreadable = ArtifactSource {
        artifact: "missing.json".to_owned(),
        report: Err("No such file or directory".to_owned()),
    };
    let error = load(vec![unreadable]).unwrap_err();
    assert_eq!(
        error,
        BundleError::BadArtifact {
            path: "missing.json".to_owned(),
            message: "No such file or directory".to_owned(),
        }
    );
    assert_eq!(error.refusal_detail(), None);
    assert_eq!(error.refusal_next_command(), None);
}

#[test]
fn underivable_tool_message_names_tool_and_version() {
    let error = load(vec![source("odd.json", report(None, "odd.latest", None))]).unwrap_err();
    assert_eq!(
        error,
        BundleError::BadArtifact {
            path: "odd.json".to_owned(),
            message: "cannot derive canonical tool from tool=None version=odd.latest".to_owned(),
        }
    );
}

#[test]
fn empty_bundle_loads_with_no_tools() {
    let bundle = load(Vec::new()).unwrap();
    assert!(bundle.observed_tools().is_empty());
    assert!(bundle.basis().is_empty());
    assert!(bundle.get("verify").is_none());
}
