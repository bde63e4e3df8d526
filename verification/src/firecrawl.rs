//! The Firecrawl bridge: where the service is, and the request that each
//! tool sends to it, with the defaults the tools fill in.
use vstd::prelude::*;

use crate::text::{owned, owned_or, push_text, text_or};

verus! {

pub const DEFAULT_API_URL: &'static str = "http://localhost:3002";

pub const DEFAULT_API_KEY: &'static str = "local_development";

pub const DEFAULT_FORMAT: &'static str = "markdown";

/// The page limit of a crawl that names none.
pub const DEFAULT_CRAWL_LIMIT: u32 = 5;

/// Where the Firecrawl service is and the key it is called with.
pub struct FirecrawlServer {
    pub api_url: String,
    pub api_key: String,
}

/// The parameters of a scrape.
pub struct ScrapeParams {
    pub url: String,
    pub formats: Option<Vec<String>>,
    pub only_main_content: Option<bool>,
}

/// The body of a scrape request.
pub struct ScrapePayload {
    pub url: String,
    pub formats: Vec<String>,
    pub only_main_content: bool,
}

/// The parameters of a crawl.
pub struct CrawlParams {
    pub url: String,
    pub limit: Option<u32>,
}

/// The body of a crawl request.
pub struct CrawlPayload {
    pub url: String,
    pub limit: u32,
}

/// The parameters of a site map.
pub struct MapParams {
    pub url: String,
    pub search: Option<String>,
}

/// The body of a site map request; `search` is sent only where it is given.
pub struct MapPayload {
    pub url: String,
    pub search: Option<String>,
}

/// A request: the address it goes to and its body.
pub struct ServiceRequest<P> {
    pub endpoint: String,
    pub payload: P,
}

impl FirecrawlServer {
    /// The service settings from the `FIRECRAWL_API_URL` and
    /// `FIRECRAWL_API_KEY` settings, each with its local default where it
    /// is not set.
    pub fn new(api_url_setting: Option<String>, api_key_setting: Option<String>) -> (s: Self)
        ensures
            s.api_url@ == text_or(api_url_setting, DEFAULT_API_URL@),
            s.api_key@ == text_or(api_key_setting, DEFAULT_API_KEY@),
    {
        FirecrawlServer {
            api_url: owned_or(&api_url_setting, DEFAULT_API_URL),
            api_key: owned_or(&api_key_setting, DEFAULT_API_KEY),
        }
    }

    /// The address of a service path.
    fn endpoint(&self, path: &str) -> (r: String)
        ensures
            r@ == self.api_url@ + path@,
    {
        let mut r = self.api_url.clone();
        push_text(&mut r, path);
        r
    }

    /// A scrape: posted to `/v1/scrape`; markdown where no format is asked
    /// for, and only the main content unless told otherwise.
    pub fn scrape_request(&self, params: ScrapeParams) -> (r: ServiceRequest<ScrapePayload>)
        ensures
            r.endpoint@ == self.api_url@ + "/v1/scrape"@,
            r.payload.url == params.url,
            match params.formats {
                Some(f) => r.payload.formats == f,
                None => r.payload.formats@.len() == 1 && r.payload.formats@[0]@ == DEFAULT_FORMAT@,
            },
            r.payload.only_main_content == (match params.only_main_content {
                Some(b) => b,
                None => true,
            }),
    {
        let endpoint = self.endpoint("/v1/scrape");
        let formats = match params.formats {
            Some(f) => f,
            None => vec![owned(DEFAULT_FORMAT)],
        };
        let only_main_content = match params.only_main_content {
            Some(b) => b,
            None => true,
        };
        ServiceRequest {
            endpoint,
            payload: ScrapePayload { url: params.url, formats, only_main_content },
        }
    }

    /// A crawl: posted to `/v1/crawl`, five pages where no limit is given.
    pub fn crawl_request(&self, params: CrawlParams) -> (r: ServiceRequest<CrawlPayload>)
        ensures
            r.endpoint@ == self.api_url@ + "/v1/crawl"@,
            r.payload.url == params.url,
            r.payload.limit == (match params.limit {
                Some(l) => l,
                None => DEFAULT_CRAWL_LIMIT,
            }),
    {
        let endpoint = self.endpoint("/v1/crawl");
        let limit = match params.limit {
            Some(l) => l,
            None => DEFAULT_CRAWL_LIMIT,
        };
        ServiceRequest { endpoint, payload: CrawlPayload { url: params.url, limit } }
    }

    /// The address at which the status of crawl job `job_id` is read.
    pub fn crawl_status_endpoint(&self, job_id: &str) -> (r: String)
        ensures
            r@ == self.api_url@ + "/v1/crawl/"@ + job_id@,
    {
        let mut r = self.endpoint("/v1/crawl/");
        push_text(&mut r, job_id);
        r
    }

    /// A site map: posted to `/v1/map`, with the search filter only where
    /// one is given.
    pub fn map_request(&self, params: MapParams) -> (r: ServiceRequest<MapPayload>)
        ensures
            r.endpoint@ == self.api_url@ + "/v1/map"@,
            r.payload.url == params.url,
            r.payload.search == params.search,
    {
        let endpoint = self.endpoint("/v1/map");
        ServiceRequest { endpoint, payload: MapPayload { url: params.url, search: params.search } }
    }
}

} // verus!
