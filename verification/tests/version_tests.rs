use hazelnut_service::version::{
    check_for_updates_crates_io, compare_versions, judge_document, judge_reply,
    published_version, user_agent, version_components, version_is_newer, RegistryReply,
    VersionCheck, DEFAULT_TIMEOUT_SECS, REGISTRY_URL, VERSION,
};

fn doc(text: &str) -> serde_json::Value {
    serde_json::from_str(text).unwrap()
}

#[test]
fn newer_patch_is_newer() {
    assert!(version_is_newer("1.2.3", "1.2.0"));
}

#[test]
fn prerelease_suffix_is_ignored() {
    assert!(!version_is_newer("1.2.0-beta", "1.2.0"));
    assert!(version_is_newer("1.3.0-rc1", "1.2.9"));
}

#[test]
fn newer_major_is_newer() {
    assert!(version_is_newer("2.0.0", "1.9.9"));
}

#[test]
fn older_patch_is_not_newer() {
    assert!(!version_is_newer("1.0.0", "1.0.1"));
}

#[test]
fn missing_component_counts_as_zero() {
    assert!(!version_is_newer("1.0", "1.0.0"));
    assert!(!version_is_newer("1.0.0", "1.0"));
    assert!(version_is_newer("1.1", "1.0.9"));
    assert!(!version_is_newer("", ""));
    assert!(version_is_newer("1", ""));
}

#[test]
fn equal_versions_are_not_newer() {
    assert!(!version_is_newer("3.4.5", "3.4.5"));
}

#[test]
fn fourth_component_does_not_decide() {
    assert!(!version_is_newer("1.2.3.9", "1.2.3.1"));
}

#[test]
fn components_drop_what_is_no_number() {
    assert_eq!(version_components("1.2.3"), vec![1, 2, 3]);
    assert_eq!(version_components("1.x.3"), vec![1, 3]);
    assert_eq!(version_components("1..3"), vec![1, 3]);
    assert_eq!(version_components("1.2.3-beta.4"), vec![1, 2, 3]);
    assert_eq!(version_components("-1.2"), Vec::<u32>::new());
    assert_eq!(version_components("+7.08"), vec![7, 8]);
    assert_eq!(version_components("4294967295.4294967296"), vec![4294967295]);
    assert_eq!(version_components("v1.2"), vec![2]);
    assert_eq!(version_components(""), Vec::<u32>::new());
}

#[test]
fn dropped_component_shifts_the_rest() {
    assert!(version_is_newer("1.x.3", "1.2"));
    assert!(!version_is_newer("1.x.1", "1.2"));
}

#[test]
fn compare_reports_both_versions() {
    match compare_versions("1.2.3", "1.2.0") {
        VersionCheck::UpdateAvailable { latest, current } => {
            assert_eq!(latest, "1.2.3");
            assert_eq!(current, "1.2.0");
        }
        other => panic!("unexpected {:?}", other),
    }
    assert!(matches!(compare_versions("1.2.0", "1.2.0"), VersionCheck::UpToDate));
}

#[test]
fn published_version_reads_nested_field() {
    let d = doc(r#"{"crate": {"max_version": "1.2.3", "name": "hazelnut"}}"#);
    assert_eq!(published_version(&d), Some("1.2.3".to_string()));
}

#[test]
fn published_version_absent_or_not_text() {
    assert_eq!(published_version(&doc(r#"{"crate": {}}"#)), None);
    assert_eq!(published_version(&doc(r#"{"crate": {"max_version": 3}}"#)), None);
    assert_eq!(published_version(&doc(r#"{"other": 1}"#)), None);
    assert_eq!(published_version(&doc(r#"["crate"]"#)), None);
    assert_eq!(published_version(&doc(r#"{"crate": "max_version"}"#)), None);
}

#[test]
fn document_without_version_fails_the_check() {
    match judge_document(&doc(r#"{"crate": {}}"#), "1.0.0") {
        VersionCheck::CheckFailed(reason) => {
            assert_eq!(reason, "Could not parse crates.io response")
        }
        other => panic!("unexpected {:?}", other),
    }
}

#[test]
fn document_with_newer_version() {
    let d = doc(r#"{"crate": {"max_version": "2.0.0"}}"#);
    match judge_document(&d, "1.9.9") {
        VersionCheck::UpdateAvailable { latest, current } => {
            assert_eq!(latest, "2.0.0");
            assert_eq!(current, "1.9.9");
        }
        other => panic!("unexpected {:?}", other),
    }
    assert!(matches!(judge_document(&d, "2.0.0"), VersionCheck::UpToDate));
}

#[test]
fn failed_request_fails_the_check() {
    let reply = RegistryReply::Failed("timed out".to_string());
    match judge_reply(&reply, "1.0.0") {
        VersionCheck::CheckFailed(reason) => assert_eq!(reason, "Request failed: timed out"),
        other => panic!("unexpected {:?}", other),
    }
}

#[test]
fn unreadable_body_fails_the_check() {
    let reply = RegistryReply::Unreadable("connection reset".to_string());
    match judge_reply(&reply, "1.0.0") {
        VersionCheck::CheckFailed(reason) => {
            assert_eq!(reason, "Failed to parse response: connection reset")
        }
        other => panic!("unexpected {:?}", other),
    }
}

#[test]
fn malformed_body_fails_the_check() {
    let reply = RegistryReply::Body(b"{not json".to_vec());
    match judge_reply(&reply, "1.0.0") {
        VersionCheck::CheckFailed(reason) => {
            assert!(reason.starts_with("Failed to parse response: "));
            assert!(reason.len() > "Failed to parse response: ".len());
        }
        other => panic!("unexpected {:?}", other),
    }
}

#[test]
fn body_is_judged_against_given_version() {
    let reply = RegistryReply::Body(br#"{"crate":{"max_version":"1.2.3"}}"#.to_vec());
    assert!(matches!(judge_reply(&reply, "1.2.3"), VersionCheck::UpToDate));
    assert!(matches!(
        judge_reply(&reply, "1.2.2"),
        VersionCheck::UpdateAvailable { .. }
    ));
}

#[test]
fn check_uses_running_version() {
    let newer = RegistryReply::Body(br#"{"crate":{"max_version":"999.0.0"}}"#.to_vec());
    match check_for_updates_crates_io(&newer) {
        VersionCheck::UpdateAvailable { latest, current } => {
            assert_eq!(latest, "999.0.0");
            assert_eq!(current, VERSION);
        }
        other => panic!("unexpected {:?}", other),
    }
    let same = RegistryReply::Body(
        format!("{{\"crate\":{{\"max_version\":\"{}\"}}}}", VERSION).into_bytes(),
    );
    assert!(matches!(check_for_updates_crates_io(&same), VersionCheck::UpToDate));
    let older = RegistryReply::Body(br#"{"crate":{"max_version":"0.0.1"}}"#.to_vec());
    assert!(matches!(check_for_updates_crates_io(&older), VersionCheck::UpToDate));
}

#[test]
fn request_constants() {
    assert_eq!(user_agent(), format!("hazelnut/{}", VERSION));
    assert_eq!(DEFAULT_TIMEOUT_SECS, 5);
    assert_eq!(REGISTRY_URL, "https://crates.io/api/v1/crates/hazelnut");
}
