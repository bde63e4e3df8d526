use antigravity_core_mcp::manifest::{audit_manifest, prerelease, AuditStep, LookupOutcome, UpdateStatus};

const MANIFEST: &str = r#"
[package]
name = "demo"

[dependencies]
tokio = { version = "1.0", features = ["full"] }
serde = "1.0.100"
local = { path = "../local" }
odd = 3
anyhow = ""
"#;

#[test]
fn audit_looks_up_declared_versions_in_key_order() {
    let mut audit = audit_manifest(MANIFEST).ok().unwrap();
    assert_eq!(audit.lookup_count(), 2);
    match audit.next_step() {
        AuditStep::PauseThenLookup { pause_ms, crate_name } => {
            assert_eq!(pause_ms, 1050);
            assert_eq!(crate_name, "serde");
        }
        AuditStep::Finished => panic!("expected a lookup"),
    }
    audit.record_lookup(LookupOutcome::Answered(Some("1.0.200".to_string())));
    match audit.next_step() {
        AuditStep::PauseThenLookup { pause_ms, crate_name } => {
            assert_eq!(pause_ms, 1050);
            assert_eq!(crate_name, "tokio");
        }
        AuditStep::Finished => panic!("expected a lookup"),
    }
    audit.record_lookup(LookupOutcome::Answered(Some("1.0".to_string())));
    assert!(audit.is_finished());
    assert!(matches!(audit.next_step(), AuditStep::Finished));
    let recs = audit.recommendations();
    assert_eq!(recs.len(), 2);
    assert_eq!(recs[0].dependency, "serde");
    assert_eq!(recs[0].status, UpdateStatus::UpdateAvailable);
    assert_eq!(recs[0].status.label(), "Update Available");
    assert_eq!(recs[0].recommendation, "Upgrade 'serde' from '1.0.100' to '1.0.200'");
    assert_eq!(recs[1].dependency, "tokio");
    assert_eq!(recs[1].status, UpdateStatus::UpToDate);
    assert_eq!(recs[1].status.label(), "Up to date");
    assert_eq!(recs[1].recommendation, "None");
}

#[test]
fn failed_lookups_give_no_recommendation() {
    let mut audit = audit_manifest("[dependencies]\na = \"1\"\nb = \"2\"\nc = \"3\"\n").ok().unwrap();
    audit.record_lookup(LookupOutcome::Unreachable);
    audit.record_lookup(LookupOutcome::ErrorStatus);
    audit.record_lookup(LookupOutcome::Answered(None));
    assert!(audit.is_finished());
    assert!(audit.recommendations().is_empty());
}

#[test]
fn empty_latest_version_is_up_to_date() {
    let mut audit = audit_manifest("[dependencies]\na = \"1\"\n").ok().unwrap();
    audit.record_lookup(LookupOutcome::Answered(Some(String::new())));
    assert_eq!(audit.recommendations()[0].status, UpdateStatus::UpToDate);
}

#[test]
fn manifest_without_dependencies_has_nothing_to_do() {
    let audit = audit_manifest("[package]\nname = \"x\"\n").ok().unwrap();
    assert!(audit.is_finished());
    let audit = audit_manifest("dependencies = 5\n").ok().unwrap();
    assert!(audit.is_finished());
}

#[test]
fn invalid_manifest_is_a_bad_request() {
    let text = "[dependencies\nserde = ";
    let e = audit_manifest(text).err().unwrap();
    assert_eq!(e.code, 400);
    let description = toml::from_str::<toml::Value>(text).err().unwrap().to_string();
    assert_eq!(e.message, format!("Invalid Cargo.toml syntax: {}", description));
}

#[test]
fn pre_releases_are_never_recommended() {
    let mut audit = audit_manifest("[dependencies]\na = \"1.0\"\nb = \"2.0\"\nc = \"3.0\"\n").ok().unwrap();
    audit.record_lookup(LookupOutcome::Answered(Some("2.0.0-beta.1".to_string())));
    audit.record_lookup(LookupOutcome::Answered(Some("2.1.0+build-7".to_string())));
    audit.record_lookup(LookupOutcome::Answered(Some("3.0".to_string())));
    let recs = audit.recommendations();
    assert_eq!(recs.len(), 2);
    assert_eq!(recs[0].dependency, "b");
    assert_eq!(recs[0].latest_version, "2.1.0+build-7");
    assert_eq!(recs[0].status, UpdateStatus::UpdateAvailable);
    assert_eq!(recs[1].dependency, "c");
    assert_eq!(recs[1].status, UpdateStatus::UpToDate);
}

#[test]
fn prerelease_detection() {
    assert!(prerelease("1.0.0-alpha"));
    assert!(prerelease("0.1.0-rc.1+meta"));
    assert!(!prerelease("1.0.0"));
    assert!(!prerelease("1.0.0+build-5"));
}
