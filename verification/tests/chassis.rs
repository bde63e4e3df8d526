use antigravity_core_mcp::chassis::{server_argument, server_kind, ServerKind, USAGE};
use antigravity_core_mcp::firecrawl::{CrawlParams, FirecrawlServer, MapParams, ScrapeParams};

fn args(a: &[&str]) -> Vec<String> {
    a.iter().map(|s| s.to_string()).collect()
}

#[test]
fn server_argument_follows_the_first_flag() {
    assert_eq!(server_argument(&args(&["bin", "--server", "crates"])), Some(2));
    assert_eq!(server_argument(&args(&["bin", "--server", "borrow", "--server", "crates"])), Some(2));
    assert_eq!(server_argument(&args(&["bin", "--server"])), None);
    assert_eq!(server_argument(&args(&["bin"])), None);
}

#[test]
fn server_names_are_case_insensitive() {
    assert_eq!(server_kind("FireCrawl").ok(), Some(ServerKind::Firecrawl));
    assert_eq!(server_kind("crates").ok(), Some(ServerKind::Crates));
    assert_eq!(server_kind("BORROW").ok(), Some(ServerKind::Borrow));
    assert_eq!(server_kind("appliance").ok(), Some(ServerKind::Appliance));
    assert_eq!(server_kind("Web").err(), Some("web".to_string()));
}

#[test]
fn firecrawl_defaults() {
    let s = FirecrawlServer::new(None, None);
    assert_eq!(s.api_url, "http://localhost:3002");
    assert_eq!(s.api_key, "local_development");
    let r = s.scrape_request(ScrapeParams { url: "https://x.dev".into(), formats: None, only_main_content: None });
    assert_eq!(r.endpoint, "http://localhost:3002/v1/scrape");
    assert_eq!(r.payload.formats, vec!["markdown".to_string()]);
    assert!(r.payload.only_main_content);
    let c = s.crawl_request(CrawlParams { url: "https://x.dev".into(), limit: None });
    assert_eq!(c.endpoint, "http://localhost:3002/v1/crawl");
    assert_eq!(c.payload.limit, 5);
}

#[test]
fn firecrawl_settings_and_parameters_are_kept() {
    let s = FirecrawlServer::new(Some("https://fc.example".into()), Some("k".into()));
    assert_eq!(s.api_key, "k");
    let r = s.scrape_request(ScrapeParams {
        url: "u".into(),
        formats: Some(vec!["html".into(), "markdown".into()]),
        only_main_content: Some(false),
    });
    assert_eq!(r.payload.formats, vec!["html".to_string(), "markdown".to_string()]);
    assert!(!r.payload.only_main_content);
    assert_eq!(s.crawl_request(CrawlParams { url: "u".into(), limit: Some(40) }).payload.limit, 40);
    assert_eq!(s.crawl_status_endpoint("job-7"), "https://fc.example/v1/crawl/job-7");
    assert_eq!(s.map_request(MapParams { url: "u".into(), search: None }).endpoint, "https://fc.example/v1/map");
}

#[test]
fn map_request_keeps_the_search_filter() {
    let s = FirecrawlServer::new(None, None);
    let r = s.map_request(MapParams { url: "https://x.dev".into(), search: Some("docs".into()) });
    assert_eq!(r.endpoint, "http://localhost:3002/v1/map");
    assert_eq!(r.payload.url, "https://x.dev");
    assert_eq!(r.payload.search.as_deref(), Some("docs"));
    let r = s.map_request(MapParams { url: "u".into(), search: None });
    assert!(r.payload.search.is_none());
}

#[test]
fn usage_ends_with_a_blank_line() {
    assert!(USAGE.starts_with("\n=== Antigravity Core MCP Server Chassis ===\nUsage: antigravity_core_mcp --server <target>\n\nAvailable Targets:\n"));
    assert!(USAGE.ends_with("============================================\n\n"));
}
