//! The crate advisor's dealings with the crates.io registry: the addresses
//! it asks, how it reads the answers to a search and to a crate lookup, and
//! the errors it reports for them.
use vstd::prelude::*;

use crate::error::{ToolError, INTERNAL_ERROR, NOT_FOUND};
use vstd::utf8::encode_utf8;

use crate::text::{digit_char, owned, owned_or, push_text, text_eq, text_or};

verus! {

/// The `User-Agent` that the crawler policy of crates.io asks for.
pub const USER_AGENT: &'static str = "crates_advisor_mcp/0.1.0 (local AI agent infrastructure)";

/// The pause, in milliseconds, before each registry query of a manifest
/// audit: crates.io allows one request per second.
pub const LOOKUP_PAUSE_MS: u64 = 1050;

/// The most search results that are reported.
pub const SEARCH_RESULT_LIMIT: usize = 5;

pub const SEARCH_ENDPOINT: &'static str = "https://crates.io/api/v1/crates?q=";

pub const CRATE_ENDPOINT: &'static str = "https://crates.io/api/v1/crates/";

pub const NO_DESCRIPTION: &'static str = "No description provided.";

pub const UNKNOWN_VERSION: &'static str = "unknown";

pub const STATUS_ERROR_PREFIX: &'static str = "crates.io responded with error status: ";

pub const MISSING_CRATE_FIELD: &'static str = "Missing 'crate' field in crates.io response";

/// The settings of the crate advisor's registry client.
pub struct CratesAdvisorServer {
    pub user_agent: &'static str,
    pub lookup_pause_ms: u64,
}

impl CratesAdvisorServer {
    /// The advisor with the crawler-policy user agent and the one-second
    /// pause between manifest lookups.
    pub fn new() -> (s: Self)
        ensures
            s.user_agent@ == USER_AGENT@,
            s.lookup_pause_ms == LOOKUP_PAUSE_MS,
    {
        CratesAdvisorServer { user_agent: USER_AGENT, lookup_pause_ms: LOOKUP_PAUSE_MS }
    }
}

// ---------------------------------------------------------------------------
// Pacing the registry queries
// ---------------------------------------------------------------------------

/// The earliest time (milliseconds on the caller's monotonic clock) at which
/// the next query may go out after one sent at `sent`; it stops at the
/// clock's end.
pub open spec fn next_query_due(sent: u64) -> int {
    if sent + LOOKUP_PAUSE_MS <= u64::MAX {
        sent + LOOKUP_PAUSE_MS
    } else {
        u64::MAX as int
    }
}

/// How long to wait at `now` before the next query, after the last query
/// sent at `last` (none yet: no wait).
pub open spec fn pause_before(last: Option<u64>, now: u64) -> int {
    match last {
        None => 0,
        Some(sent) => if now >= next_query_due(sent) {
            0
        } else {
            next_query_due(sent) - now
        },
    }
}

/// The advisor's sequential rate limiter: when the last registry query of
/// any of its tools went out. Every query waits until 1050 ms have passed
/// since the one before.
pub struct QueryPacer {
    pub last_query: Option<u64>,
}

impl QueryPacer {
    /// A pacer before any query.
    pub fn new() -> (p: Self)
        ensures
            p.last_query is None,
    {
        QueryPacer { last_query: None }
    }

    /// How many milliseconds to wait at time `now` before the next query.
    pub fn pause_before(&self, now: u64) -> (w: u64)
        ensures
            w == pause_before(self.last_query, now),
    {
        match self.last_query {
            None => 0,
            Some(sent) => {
                let due = sent.saturating_add(LOOKUP_PAUSE_MS);
                if now >= due {
                    0
                } else {
                    due - now
                }
            },
        }
    }

    /// Notes that a query went out at time `sent`.
    pub fn record_query(&mut self, sent: u64)
        ensures
            final(self).last_query == Some(sent),
    {
        self.last_query = Some(sent);
    }
}

/// A query sent no earlier than the pacer's wait allows comes at least
/// 1050 ms after the previous query (short of the clock's end).
pub proof fn lemma_paced_queries_are_spaced(sent: u64, now: u64, next: u64)
    requires
        sent + LOOKUP_PAUSE_MS <= u64::MAX,
        next >= now + pause_before(Some(sent), now),
    ensures
        next - sent >= LOOKUP_PAUSE_MS,
{
}

// ---------------------------------------------------------------------------
// Addresses
// ---------------------------------------------------------------------------

/// An ASCII letter or digit, the bytes that percent-encoding leaves alone.
pub open spec fn is_ascii_alphanumeric(b: u8) -> bool {
    (48 <= b <= 57) || (65 <= b <= 90) || (97 <= b <= 122)
}

/// An upper-case hexadecimal digit.
pub open spec fn hex_digit(d: nat) -> char {
    if d < 10 {
        digit_char(d)
    } else if d == 10 {
        'A'
    } else if d == 11 {
        'B'
    } else if d == 12 {
        'C'
    } else if d == 13 {
        'D'
    } else if d == 14 {
        'E'
    } else {
        'F'
    }
}

/// One byte, percent-encoded unless it is an ASCII letter or digit.
pub open spec fn encode_byte(b: u8) -> Seq<char> {
    if is_ascii_alphanumeric(b) {
        seq![b as char]
    } else {
        seq!['%', hex_digit((b / 16) as nat), hex_digit((b % 16) as nat)]
    }
}

/// A byte string with every byte but ASCII letters and digits percent-encoded.
pub open spec fn percent_encoded(bytes: Seq<u8>) -> Seq<char>
    decreases bytes.len(),
{
    if bytes.len() == 0 {
        seq![]
    } else {
        percent_encoded(bytes.drop_last()) + encode_byte(bytes.last())
    }
}

/// Calls `percent_encoding::utf8_percent_encode` with the `NON_ALPHANUMERIC`
/// set and collects the pieces: every byte of the UTF-8 encoding that is not
/// an ASCII letter or digit becomes `%` and two upper-case hex digits.
#[verifier::external_body]
fn percent_encode_text(s: &str) -> (r: String)
    ensures
        r@ == percent_encoded(encode_utf8(s@)),
{
    percent_encoding::utf8_percent_encode(s, percent_encoding::NON_ALPHANUMERIC).to_string()
}

/// A character that may stand in a query after percent-encoding: an ASCII
/// letter or digit, or `%`.
pub open spec fn is_query_safe(c: char) -> bool {
    ('0' <= c <= '9') || ('A' <= c <= 'Z') || ('a' <= c <= 'z') || c == '%'
}

/// A percent-encoded query holds only ASCII letters, digits and `%`, so it
/// can stand in an address as it is.
pub proof fn lemma_percent_encoded_is_query_safe(bytes: Seq<u8>)
    ensures
        forall|i: int|
            0 <= i < percent_encoded(bytes).len() ==> is_query_safe(
                #[trigger] percent_encoded(bytes)[i],
            ),
    decreases bytes.len(),
{
    if bytes.len() > 0 {
        lemma_percent_encoded_is_query_safe(bytes.drop_last());
        let prev = percent_encoded(bytes.drop_last());
        let last = encode_byte(bytes.last());
        let b = bytes.last();
        assert forall|i: int| 0 <= i < last.len() implies is_query_safe(#[trigger] last[i]) by {
            if is_ascii_alphanumeric(b) {
                assert(last[i] == b as char);
            }
        }
        assert forall|i: int|
            0 <= i < percent_encoded(bytes).len() implies is_query_safe(
            #[trigger] percent_encoded(bytes)[i],
        ) by {
            if i < prev.len() {
                assert(percent_encoded(bytes)[i] == prev[i]);
            } else {
                assert(percent_encoded(bytes)[i] == last[i - prev.len()]);
            }
        }
    }
}

/// The registry address of a search for `query`, the query percent-encoded.
pub fn search_url(query: &str) -> (r: String)
    ensures
        r@ == SEARCH_ENDPOINT@ + percent_encoded(encode_utf8(query@)),
{
    let mut r = owned(SEARCH_ENDPOINT);
    let encoded = percent_encode_text(query);
    push_text(&mut r, encoded.as_str());
    r
}

/// The registry address of one crate; the name is used as given.
pub fn crate_url(crate_name: &str) -> (r: String)
    ensures
        r@ == CRATE_ENDPOINT@ + crate_name@,
{
    let mut r = owned(CRATE_ENDPOINT);
    push_text(&mut r, crate_name);
    r
}

// ---------------------------------------------------------------------------
// Response status
// ---------------------------------------------------------------------------

/// A 2xx status.
pub open spec fn is_success_status(status: u16) -> bool {
    200 <= status <= 299
}

/// Whether an HTTP status is a success (2xx).
pub fn is_success(status: u16) -> (r: bool)
    ensures
        r == is_success_status(status),
{
    200 <= status && status <= 299
}

/// The error for an unsuccessful registry answer; `status_text` is the
/// status as it is displayed, such as `503 Service Unavailable`.
pub fn status_error(status_text: &str) -> (e: ToolError)
    ensures
        e.code == INTERNAL_ERROR,
        e.message@ == STATUS_ERROR_PREFIX@ + status_text@,
{
    let mut message = owned(STATUS_ERROR_PREFIX);
    push_text(&mut message, status_text);
    ToolError { code: INTERNAL_ERROR, message }
}

/// The error for a search answer: none on success, else the status error.
pub fn search_status_error(status: u16, status_text: &str) -> (r: Option<ToolError>)
    ensures
        is_success_status(status) <==> r is None,
        r matches Some(e) ==> e.code == INTERNAL_ERROR && e.message@ == STATUS_ERROR_PREFIX@
            + status_text@,
{
    if is_success(status) {
        None
    } else {
        Some(status_error(status_text))
    }
}

/// The message for a crate that the registry does not know.
pub open spec fn not_found_message(crate_name: Seq<char>) -> Seq<char> {
    "Crate '"@ + crate_name + "' not found on crates.io."@
}

/// The error for a crate lookup answer: not-found for 404, the status error
/// for any other unsuccessful status, none on success.
pub fn lookup_status_error(crate_name: &str, status: u16, status_text: &str) -> (r: Option<
    ToolError,
>)
    ensures
        status == 404 ==> (r matches Some(e) && e.code == NOT_FOUND && e.message@
            == not_found_message(crate_name@)),
        status != 404 && !is_success_status(status) ==> (r matches Some(e) && e.code
            == INTERNAL_ERROR && e.message@ == STATUS_ERROR_PREFIX@ + status_text@),
        is_success_status(status) ==> r is None,
{
    if status == 404 {
        let mut message = owned("Crate '");
        push_text(&mut message, crate_name);
        push_text(&mut message, "' not found on crates.io.");
        Some(ToolError { code: NOT_FOUND, message })
    } else if !is_success(status) {
        Some(status_error(status_text))
    } else {
        None
    }
}

// ---------------------------------------------------------------------------
// Search results
// ---------------------------------------------------------------------------

/// One crate of a search answer, as far as it is read; a field is `None`
/// where the entry lacks it or holds another type.
pub struct CrateListing {
    pub name: Option<String>,
    pub downloads: Option<u64>,
    pub max_version: Option<String>,
    pub description: Option<String>,
}

/// One reported search result.
pub struct CrateSummary {
    pub crate_name: String,
    pub downloads: u64,
    pub latest_version: String,
    pub description: String,
}

/// `s` reports `l`, with the defaults for what `l` lacks: no name, no
/// downloads, an unknown version, no description.
pub open spec fn summarizes(l: CrateListing, s: CrateSummary) -> bool {
    &&& s.crate_name@ == text_or(l.name, seq![])
    &&& s.downloads == (match l.downloads {
        Some(d) => d,
        None => 0,
    })
    &&& s.latest_version@ == text_or(l.max_version, UNKNOWN_VERSION@)
    &&& s.description@ == text_or(l.description, NO_DESCRIPTION@)
}

/// The summary of one search entry.
pub fn summarize_listing(l: &CrateListing) -> (s: CrateSummary)
    ensures
        summarizes(*l, s),
{
    proof {
        reveal_strlit("");
        assert(""@ =~= Seq::<char>::empty());
    }
    CrateSummary {
        crate_name: owned_or(&l.name, ""),
        downloads: match l.downloads {
            Some(d) => d,
            None => 0,
        },
        latest_version: owned_or(&l.max_version, UNKNOWN_VERSION),
        description: owned_or(&l.description, NO_DESCRIPTION),
    }
}

/// The first five entries of a search answer, in order, each summarized.
pub fn summarize_search(listings: &Vec<CrateListing>) -> (r: Vec<CrateSummary>)
    ensures
        r@.len() == (if listings@.len() < SEARCH_RESULT_LIMIT {
            listings@.len()
        } else {
            SEARCH_RESULT_LIMIT as nat
        }),
        forall|i: int| 0 <= i < r@.len() ==> summarizes(listings@[i], #[trigger] r@[i]),
{
    let mut r: Vec<CrateSummary> = Vec::new();
    let mut i: usize = 0;
    while i < listings.len() && i < SEARCH_RESULT_LIMIT
        invariant
            i <= listings@.len(),
            i <= SEARCH_RESULT_LIMIT,
            r@.len() == i,
            forall|j: int| 0 <= j < i ==> summarizes(listings@[j], #[trigger] r@[j]),
        decreases listings@.len() - i,
    {
        r.push(summarize_listing(&listings[i]));
        i += 1;
    }
    r
}

// ---------------------------------------------------------------------------
// Crate details
// ---------------------------------------------------------------------------

/// The `crate` object of a lookup answer, as far as it is read.
pub struct CrateRecord {
    pub name: Option<String>,
    pub max_version: Option<String>,
    pub documentation: Option<String>,
}

/// What the advisor reports of one crate. `features_from` is the position
/// in the answer's version list of the entry whose features are reported.
pub struct CrateDetails {
    pub crate_name: String,
    pub latest_version: String,
    pub documentation: String,
    pub features_from: Option<usize>,
}

/// The version entry at `i` has the number `v`.
pub open spec fn numbered(nums: Seq<Option<String>>, i: int, v: Seq<char>) -> bool {
    nums[i] matches Some(n) && n@ == v
}

/// The details reported for the crate asked for as `requested`: the name,
/// latest version and documentation of the record (else the requested name,
/// an unknown version, no documentation), and the first version entry that
/// carries the latest version.
pub open spec fn details_of(
    d: CrateDetails,
    requested: Seq<char>,
    rec: CrateRecord,
    nums: Seq<Option<String>>,
) -> bool {
    let latest = text_or(rec.max_version, UNKNOWN_VERSION@);
    &&& d.crate_name@ == text_or(rec.name, requested)
    &&& d.latest_version@ == latest
    &&& d.documentation@ == text_or(rec.documentation, seq![])
    &&& match d.features_from {
        Some(i) => {
            &&& i < nums.len()
            &&& numbered(nums, i as int, latest)
            &&& forall|j: int| 0 <= j < i ==> !numbered(nums, j, latest)
        },
        None => forall|j: int| 0 <= j < nums.len() ==> !numbered(nums, j, latest),
    }
}

/// The position of the first version entry numbered `v`.
fn first_numbered(nums: &Vec<Option<String>>, v: &str) -> (r: Option<usize>)
    ensures
        match r {
            Some(i) => {
                &&& i < nums@.len()
                &&& numbered(nums@, i as int, v@)
                &&& forall|j: int| 0 <= j < i ==> !numbered(nums@, j, v@)
            },
            None => forall|j: int| 0 <= j < nums@.len() ==> !numbered(nums@, j, v@),
        },
{
    let mut i: usize = 0;
    while i < nums.len()
        invariant
            i <= nums@.len(),
            forall|j: int| 0 <= j < i ==> !numbered(nums@, j, v@),
        decreases nums@.len() - i,
    {
        let hit = match &nums[i] {
            Some(n) => text_eq(n.as_str(), v),
            None => false,
        };
        if hit {
            return Some(i);
        }
        i += 1;
    }
    None
}

/// The details of a crate lookup answer; an answer without a `crate` object
/// is an error. `version_numbers` holds the `num` of each entry of the
/// answer's version list.
pub fn crate_details(
    requested: &str,
    record: &Option<CrateRecord>,
    version_numbers: &Vec<Option<String>>,
) -> (r: Result<CrateDetails, ToolError>)
    ensures
        match r {
            Ok(d) => *record matches Some(rec) && details_of(d, requested@, rec, version_numbers@),
            Err(e) => *record is None && e.code == INTERNAL_ERROR && e.message@
                == MISSING_CRATE_FIELD@,
        },
{
    let rec = match record {
        Some(rec) => rec,
        None => {
            return Err(ToolError { code: INTERNAL_ERROR, message: owned(MISSING_CRATE_FIELD) });
        },
    };
    proof {
        reveal_strlit("");
        assert(""@ =~= Seq::<char>::empty());
    }
    let crate_name = match &rec.name {
        Some(n) => n.clone(),
        None => owned(requested),
    };
    let latest_version = owned_or(&rec.max_version, UNKNOWN_VERSION);
    let documentation = owned_or(&rec.documentation, "");
    let features_from = first_numbered(version_numbers, latest_version.as_str());
    Ok(CrateDetails { crate_name, latest_version, documentation, features_from })
}

} // verus!
