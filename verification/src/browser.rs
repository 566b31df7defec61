//! The decisions of a browser session's workflow.
//!
//! A session is started by launching the process and applying the fixed
//! geolocation, timezone and default-header overrides to a newly opened
//! page context; any failure there surfaces as a `LaunchError` rather than
//! a partially configured session. Each fetch then runs a straight line of
//! steps on a fresh page context — open, apply headers, navigate, await
//! completion, extract — with no retries. Everything the workflow decides
//! is verified here: which URLs are rejected before any navigation, which
//! header set a call applies, the order of the steps, and which error kind
//! each failure surfaces as. The unverified rim performs the steps and
//! hands each outcome back.

use vstd::prelude::*;
use vstd::string::*;

use crate::headers::{spec_applied_headers, HeaderMap};

verus! {

/// What a session operation can fail with; the four kinds are mutually
/// exclusive per call.
#[derive(Debug)]
pub enum BrowserError {
    /// The process or a page context could not be created, or the one-time
    /// setup at start failed.
    LaunchError(String),
    /// The header override could not be applied.
    NetworkError(String),
    /// Navigation could not be initiated or did not complete.
    NavigationError(String),
    /// Content extraction failed after a successful navigation.
    FetchError(String),
}

/// A fetchable URL starts with the scheme prefix `http://` or `https://`
/// and has a nonempty remainder.
pub open spec fn valid_fetch_url(s: Seq<char>) -> bool {
    ||| (s.len() > 7 && s[0] == 'h' && s[1] == 't' && s[2] == 't' && s[3] == 'p' && s[4] == ':'
        && s[5] == '/' && s[6] == '/')
    ||| (s.len() > 8 && s[0] == 'h' && s[1] == 't' && s[2] == 't' && s[3] == 'p' && s[4] == 's'
        && s[5] == ':' && s[6] == '/' && s[7] == '/')
}

/// Decides [`valid_fetch_url`] for a URL string.
pub fn is_valid_fetch_url(url: &str) -> (b: bool)
    ensures
        b == valid_fetch_url(url@),
{
    let n = url.unicode_len();
    if n <= 7 {
        return false;
    }
    if !(url.get_char(0) == 'h' && url.get_char(1) == 't' && url.get_char(2) == 't'
        && url.get_char(3) == 'p') {
        return false;
    }
    if url.get_char(4) == ':' && url.get_char(5) == '/' && url.get_char(6) == '/' {
        return true;
    }
    n > 8 && url.get_char(4) == 's' && url.get_char(5) == ':' && url.get_char(6) == '/'
        && url.get_char(7) == '/'
}

/// Rejects a URL that no navigation will be attempted for: exactly the
/// syntactically invalid ones yield a `NavigationError` here.
pub fn validate_url(url: &str) -> (r: Result<(), BrowserError>)
    ensures
        r is Ok <==> valid_fetch_url(url@),
        r matches Err(e) ==> e matches BrowserError::NavigationError(m) && m@
            == "invalid URL"@,
{
    if is_valid_fetch_url(url) {
        Ok(())
    } else {
        Err(BrowserError::NavigationError(String::from_str("invalid URL")))
    }
}

/// The fixed default header set applied once at session start: a desktop
/// browser's accept, language, client-hint and user-agent values.
pub open spec fn spec_default_headers() -> Map<Seq<char>, Seq<char>> {
    Map::empty().insert("accept"@, "*/*"@).insert(
        "accept-encoding"@,
        "gzip, deflate, br, zstd"@,
    ).insert("accept-language"@, "zh-CN,zh;q=0.9,en;q=0.8,en-GB;q=0.7,en-US;q=0.6"@).insert(
        "connection"@,
        "keep-alive"@,
    ).insert(
        "sec-ch-ua"@,
        "\"Microsoft Edge\";v=\"135\", \"Not-A.Brand\";v=\"8\", \"Chromium\";v=\"135\""@,
    ).insert("sec-ch-ua-mobile"@, "?0"@).insert("sec-ch-ua-platform"@, "\"Windows\""@).insert(
        "sec-fetch-dest"@,
        "empty"@,
    ).insert("sec-fetch-mode"@, "cors"@).insert("sec-fetch-site"@, "cross-site"@).insert(
        "user-agent"@,
        "Mozilla/5.0 (Windows NT 10.0; Win64; x64) AppleWebKit/537.36 (KHTML, like Gecko) Chrome/135.0.0.0 Safari/537.36 Edg/135.0.0.0"@,
    )
}

/// Builds the default header set of [`spec_default_headers`].
pub fn default_headers() -> (h: HeaderMap)
    ensures
        h@ == spec_default_headers(),
        h.wf(),
{
    proof {
        reveal_strlit("accept");
        reveal_strlit("accept-encoding");
        reveal_strlit("accept-language");
        reveal_strlit("connection");
        reveal_strlit("sec-ch-ua");
        reveal_strlit("sec-ch-ua-mobile");
        reveal_strlit("sec-ch-ua-platform");
        reveal_strlit("sec-fetch-dest");
        reveal_strlit("sec-fetch-mode");
        reveal_strlit("sec-fetch-site");
        reveal_strlit("user-agent");
    }
    let mut h = HeaderMap::new();
    h.set("accept", "*/*");
    h.set("accept-encoding", "gzip, deflate, br, zstd");
    h.set("accept-language", "zh-CN,zh;q=0.9,en;q=0.8,en-GB;q=0.7,en-US;q=0.6");
    h.set("connection", "keep-alive");
    h.set("sec-ch-ua", "\"Microsoft Edge\";v=\"135\", \"Not-A.Brand\";v=\"8\", \"Chromium\";v=\"135\"");
    h.set("sec-ch-ua-mobile", "?0");
    h.set("sec-ch-ua-platform", "\"Windows\"");
    h.set("sec-fetch-dest", "empty");
    h.set("sec-fetch-mode", "cors");
    h.set("sec-fetch-site", "cross-site");
    h.set("user-agent", "Mozilla/5.0 (Windows NT 10.0; Win64; x64) AppleWebKit/537.36 (KHTML, like Gecko) Chrome/135.0.0.0 Safari/537.36 Edg/135.0.0.0");
    h
}

/// Header overrides are per call: a fetch with an override applies exactly
/// the override, and a fetch without one on a session whose defaults are
/// the fixed set applies exactly that fixed set — whatever override any
/// earlier fetch on the same session supplied.
pub proof fn lemma_header_override_per_call(
    defaults: HeaderMap,
    over: HeaderMap,
    next: Option<HeaderMap>,
)
    requires
        defaults@ == spec_default_headers(),
        next is None,
    ensures
        spec_applied_headers(defaults, Some(over)) == over@,
        spec_applied_headers(defaults, next) == spec_default_headers(),
{
}

/// The spoofed geolocation applied once at session start, as the JSON
/// object that `Emulation.setGeolocationOverride` takes.
pub const GEOLOCATION_JSON: &'static str =
    "{\"latitude\":31.2304,\"longitude\":121.4737,\"accuracy\":1.0}";

/// The timezone identifier applied once at session start.
pub const TIMEZONE_ID: &'static str = "Asia/Shanghai";

/// The steps of one fetch, in the order they run on a fresh page context.
#[derive(Clone, Copy, Debug, PartialEq, Eq, Structural)]
pub enum FetchStep {
    /// Open the page context.
    OpenTab,
    /// Apply the effective header set to it.
    ApplyHeaders,
    /// Issue the navigation.
    Navigate,
    /// Await navigation completion.
    WaitNavigated,
    /// Extract the document's serialized HTML.
    GetContent,
}

/// The step that runs after `step`, or `None` after the last: the workflow
/// is a straight line with no retries and no recovery transitions.
pub fn next_step(step: FetchStep) -> (r: Option<FetchStep>)
    ensures
        step == FetchStep::OpenTab ==> r == Some(FetchStep::ApplyHeaders),
        step == FetchStep::ApplyHeaders ==> r == Some(FetchStep::Navigate),
        step == FetchStep::Navigate ==> r == Some(FetchStep::WaitNavigated),
        step == FetchStep::WaitNavigated ==> r == Some(FetchStep::GetContent),
        step == FetchStep::GetContent ==> r is None,
{
    match step {
        FetchStep::OpenTab => Some(FetchStep::ApplyHeaders),
        FetchStep::ApplyHeaders => Some(FetchStep::Navigate),
        FetchStep::Navigate => Some(FetchStep::WaitNavigated),
        FetchStep::WaitNavigated => Some(FetchStep::GetContent),
        FetchStep::GetContent => None,
    }
}

/// The error that a failure at `step` surfaces as: a page context that
/// could not be opened is a launch failure, a rejected header set a
/// network failure, a navigation that could not start or did not complete
/// a navigation failure, and a failed extraction a fetch failure. The
/// failure is terminal: the message is passed through unchanged.
pub fn step_failure(step: FetchStep, message: String) -> (e: BrowserError)
    ensures
        step == FetchStep::OpenTab ==> (e matches BrowserError::LaunchError(m) && m == message),
        step == FetchStep::ApplyHeaders ==> (e matches BrowserError::NetworkError(m) && m
            == message),
        step == FetchStep::Navigate ==> (e matches BrowserError::NavigationError(m) && m
            == message),
        step == FetchStep::WaitNavigated ==> (e matches BrowserError::NavigationError(m) && m
            == message),
        step == FetchStep::GetContent ==> (e matches BrowserError::FetchError(m) && m == message),
{
    match step {
        FetchStep::OpenTab => BrowserError::LaunchError(message),
        FetchStep::ApplyHeaders => BrowserError::NetworkError(message),
        FetchStep::Navigate => BrowserError::NavigationError(message),
        FetchStep::WaitNavigated => BrowserError::NavigationError(message),
        FetchStep::GetContent => BrowserError::FetchError(message),
    }
}

/// Any failure while starting a session — launching the process, opening
/// the first page context, or one of the one-time overrides — surfaces as
/// a `LaunchError`: a session is either fully configured or not handed
/// out at all.
pub fn launch_failure(message: String) -> (e: BrowserError)
    ensures
        e matches BrowserError::LaunchError(m) && m == message,
{
    BrowserError::LaunchError(message)
}

} // verus!
