use antigravity_core_mcp::crates::{
    crate_details, crate_url, is_success, lookup_status_error, search_status_error, search_url,
    summarize_search, CrateListing, CrateRecord, CratesAdvisorServer, QueryPacer,
};

#[test]
fn advisor_settings() {
    let s = CratesAdvisorServer::new();
    assert_eq!(s.user_agent, "crates_advisor_mcp/0.1.0 (local AI agent infrastructure)");
    assert_eq!(s.lookup_pause_ms, 1050);
}

#[test]
fn search_query_is_percent_encoded() {
    assert_eq!(search_url("foo bar?"), "https://crates.io/api/v1/crates?q=foo%20bar%3F");
    assert_eq!(search_url("serde"), "https://crates.io/api/v1/crates?q=serde");
    assert_eq!(search_url("é-x_1"), "https://crates.io/api/v1/crates?q=%C3%A9%2Dx%5F1");
    assert_eq!(crate_url("tokio"), "https://crates.io/api/v1/crates/tokio");
}

#[test]
fn statuses() {
    assert!(is_success(200) && is_success(299));
    assert!(!is_success(199) && !is_success(300) && !is_success(404));
    assert!(search_status_error(204, "204 No Content").is_none());
    let e = search_status_error(503, "503 Service Unavailable").unwrap();
    assert_eq!(e.code, 500);
    assert_eq!(e.message, "crates.io responded with error status: 503 Service Unavailable");
    let nf = lookup_status_error("nosuch", 404, "404 Not Found").unwrap();
    assert_eq!(nf.code, 404);
    assert_eq!(nf.message, "Crate 'nosuch' not found on crates.io.");
    let bad = lookup_status_error("x", 500, "500 Internal Server Error").unwrap();
    assert_eq!(bad.code, 500);
    assert!(lookup_status_error("x", 200, "200 OK").is_none());
}

fn listing(i: u64) -> CrateListing {
    CrateListing {
        name: Some(format!("crate{}", i)),
        downloads: Some(i * 10),
        max_version: Some(format!("{}.0.0", i)),
        description: Some(format!("d{}", i)),
    }
}

#[test]
fn search_keeps_five_and_fills_defaults() {
    let mut ls: Vec<CrateListing> = (0..7).map(listing).collect();
    ls[1] = CrateListing { name: None, downloads: None, max_version: None, description: None };
    let r = summarize_search(&ls);
    assert_eq!(r.len(), 5);
    assert_eq!(r[0].crate_name, "crate0");
    assert_eq!(r[4].latest_version, "4.0.0");
    assert_eq!(r[1].crate_name, "");
    assert_eq!(r[1].downloads, 0);
    assert_eq!(r[1].latest_version, "unknown");
    assert_eq!(r[1].description, "No description provided.");
    assert_eq!(summarize_search(&vec![listing(3)]).len(), 1);
}

#[test]
fn details_find_the_latest_version_entry() {
    let rec = CrateRecord { name: Some("serde".into()), max_version: Some("1.0.2".into()), documentation: None };
    let nums = vec![Some("1.0.3".to_string()), None, Some("1.0.2".to_string()), Some("1.0.2".to_string())];
    let d = crate_details("Serde", &Some(rec), &nums).ok().unwrap();
    assert_eq!(d.crate_name, "serde");
    assert_eq!(d.latest_version, "1.0.2");
    assert_eq!(d.documentation, "");
    assert_eq!(d.features_from, Some(2));
}

#[test]
fn details_defaults_and_missing_crate() {
    let rec = CrateRecord { name: None, max_version: None, documentation: Some("https://docs.rs/x".into()) };
    let d = crate_details("x", &Some(rec), &vec![Some("unknown".to_string())]).ok().unwrap();
    assert_eq!(d.crate_name, "x");
    assert_eq!(d.latest_version, "unknown");
    assert_eq!(d.features_from, Some(0));
    let e = crate_details("x", &None, &vec![]).err().unwrap();
    assert_eq!(e.code, 500);
    assert_eq!(e.message, "Missing 'crate' field in crates.io response");
}

#[test]
fn queries_are_paced_by_the_pause() {
    let mut p = QueryPacer::new();
    assert_eq!(p.pause_before(5), 0);
    p.record_query(1000);
    assert_eq!(p.pause_before(1000), 1050);
    assert_eq!(p.pause_before(1500), 550);
    assert_eq!(p.pause_before(2050), 0);
    assert_eq!(p.pause_before(9000), 0);
    p.record_query(u64::MAX - 10);
    assert_eq!(p.pause_before(0), u64::MAX);
}
