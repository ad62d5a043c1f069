//! Decisions of the loopback listener that captures the authorization
//! redirect: which requests end the wait, with what outcome, and which
//! page each request is answered with.
use vstd::prelude::*;
use vstd::string::StringExecFns;
use vstd::string::StrSliceExecFns;

use crate::types::{str_eq, AuthError};

verus! {

broadcast use vstd::string::group_string_axioms;

/// Path of the redirect endpoint.
pub const CALLBACK_PATH: &'static str = "/callback";

/// Origin of the loopback listener.
pub const LOOPBACK_ORIGIN: &'static str = "http://127.0.0.1:8888";

/// Redirect URI that the loopback flow registers.
pub const LOOPBACK_REDIRECT_URI: &'static str = "http://127.0.0.1:8888/callback";

/// The callback path followed by the start of a query.
pub const CALLBACK_QUERY_PREFIX: &'static str = "/callback?";

/// Seconds the listener waits for the redirect, in all.
pub const CALLBACK_TIMEOUT_SECS: u64 = 300;

/// The same bound in milliseconds.
pub const CALLBACK_TIMEOUT_MS: u64 = 300_000;

/// How much longer the listener may wait, in milliseconds, after
/// `elapsed_ms` of its whole wait; `None` once the wait is over.
pub fn remaining_wait_ms(elapsed_ms: u64) -> (r: Option<u64>)
    ensures
        elapsed_ms >= CALLBACK_TIMEOUT_MS ==> r is None,
        elapsed_ms < CALLBACK_TIMEOUT_MS ==> r == Some((CALLBACK_TIMEOUT_MS - elapsed_ms) as u64),
{
    if elapsed_ms >= CALLBACK_TIMEOUT_MS {
        None
    } else {
        Some(CALLBACK_TIMEOUT_MS - elapsed_ms)
    }
}

/// The query pairs of a URL, in order, decoded; `None` if it does not parse.
pub uninterp spec fn query_pairs_of(url: Seq<char>) -> Option<Seq<(Seq<char>, Seq<char>)>>;

/// Relies on url's `Url::parse` and `query_pairs`: the decoded pairs of the
/// query, in the order they appear.
#[verifier::external_body]
fn query_pairs(url: &str) -> (r: Option<Vec<(String, String)>>)
    ensures
        r.deep_view() == query_pairs_of(url@),
{
    match url::Url::parse(url) {
        Ok(u) => Some(u.query_pairs().into_owned().collect()),
        Err(_) => None,
    }
}

/// The value of the last pair named `key`; a later pair overrides an
/// earlier one.
pub open spec fn lookup(pairs: Seq<(Seq<char>, Seq<char>)>, key: Seq<char>) -> Option<Seq<char>>
    decreases pairs.len(),
{
    if pairs.len() == 0 {
        None
    } else if pairs.last().0 == key {
        Some(pairs.last().1)
    } else {
        lookup(pairs.drop_last(), key)
    }
}

/// Looks up the value of `key` among the query pairs.
pub fn find_param(pairs: &Vec<(String, String)>, key: &str) -> (r: Option<String>)
    ensures
        r.deep_view() == lookup(pairs.deep_view(), key@),
{
    let ghost dv = pairs.deep_view();
    let mut i: usize = pairs.len();
    assert(dv.len() == pairs@.len());
    assert(dv.take(i as int) =~= dv);
    while i > 0
        invariant
            i <= pairs@.len(),
            dv == pairs.deep_view(),
            dv.len() == pairs@.len(),
            lookup(dv, key@) == lookup(dv.take(i as int), key@),
        decreases i,
    {
        assert(dv.take(i as int).drop_last() =~= dv.take(i - 1));
        assert(dv.take(i as int).last() == dv[i - 1]);
        let (k, v) = &pairs[i - 1];
        if str_eq(k.as_str(), key) {
            return Some(v.clone());
        }
        i = i - 1;
    }
    assert(dv.take(0) =~= Seq::<(Seq<char>, Seq<char>)>::empty());
    None
}

/// The page a request is answered with.
#[derive(Debug, Clone)]
pub enum CallbackPage {
    NotFound,
    BadRequest,
    ProviderError(String),
    InvalidState,
    Success,
}

pub const FAILED_PAGE_HEAD: &'static str = "<html><body style='font-family: sans-serif; text-align: center; padding-top: 50px;'><h1 style='color: #e74c3c;'>Authentication Failed</h1>";

pub const FAILED_PAGE_TAIL: &'static str = "<p>You can close this window.</p></body></html>";

pub const SUCCESS_PAGE: &'static str = "<html><body style='font-family: sans-serif; text-align: center; padding-top: 50px;'><h1 style='color: #1DB954;'>Success!</h1><p>You have been logged in successfully.</p><p>You can close this window and return to the app.</p><script>setTimeout(function() { window.close(); }, 2000);</script></body></html>";

pub open spec fn page_text(page: CallbackPage) -> Seq<char> {
    match page {
        CallbackPage::NotFound => "Not found"@,
        CallbackPage::BadRequest => "Bad request"@,
        CallbackPage::ProviderError(e) => FAILED_PAGE_HEAD@ + "<p>Error: "@ + e@ + "</p>"@
            + FAILED_PAGE_TAIL@,
        CallbackPage::InvalidState => FAILED_PAGE_HEAD@ + "<p>Invalid state parameter.</p>"@
            + FAILED_PAGE_TAIL@,
        CallbackPage::Success => SUCCESS_PAGE@,
    }
}

impl CallbackPage {
    /// HTTP status of the page.
    pub fn status_code(&self) -> (r: u16)
        ensures
            r == (if *self is NotFound { 404u16 } else { 200u16 }),
    {
        match self {
            CallbackPage::NotFound => 404,
            _ => 200,
        }
    }

    /// Whether the page is HTML rather than plain text.
    pub fn is_html(&self) -> (r: bool)
        ensures
            r == !(*self is NotFound || *self is BadRequest),
    {
        match self {
            CallbackPage::NotFound | CallbackPage::BadRequest => false,
            _ => true,
        }
    }

    /// The text of the page.
    pub fn body(&self) -> (r: String)
        ensures
            r@ == page_text(*self),
    {
        match self {
            CallbackPage::NotFound => String::from_str("Not found"),
            CallbackPage::BadRequest => String::from_str("Bad request"),
            CallbackPage::ProviderError(e) => {
                let mut r = String::from_str(FAILED_PAGE_HEAD);
                r.append("<p>Error: ");
                r.append(e.as_str());
                r.append("</p>");
                r.append(FAILED_PAGE_TAIL);
                r
            },
            CallbackPage::InvalidState => {
                let mut r = String::from_str(FAILED_PAGE_HEAD);
                r.append("<p>Invalid state parameter.</p>");
                r.append(FAILED_PAGE_TAIL);
                r
            },
            CallbackPage::Success => String::from_str(SUCCESS_PAGE),
        }
    }
}

/// What the listener does after a request: keep waiting, or stop with the
/// captured `(code, state)` or an error.
#[derive(Debug)]
pub enum CallbackStep {
    Continue(CallbackPage),
    Finish(CallbackPage, Result<(String, String), AuthError>),
}

pub open spec fn continues_with_bad_request(r: CallbackStep) -> bool {
    r is Continue && r->Continue_0 is BadRequest
}

pub open spec fn finishes_provider_error(r: CallbackStep, e: Seq<char>) -> bool {
    match r {
        CallbackStep::Finish(CallbackPage::ProviderError(m), Err(AuthError::SpotifyError(d))) => m@
            == e && d@ == e,
        _ => false,
    }
}

pub open spec fn finishes_success(r: CallbackStep, code: Seq<char>, state: Seq<char>) -> bool {
    match r {
        CallbackStep::Finish(CallbackPage::Success, Ok((c, s))) => c@ == code && s@ == state,
        _ => false,
    }
}

pub open spec fn finishes_invalid_state(r: CallbackStep) -> bool {
    match r {
        CallbackStep::Finish(CallbackPage::InvalidState, Err(AuthError::InvalidPkceState)) => true,
        _ => false,
    }
}

/// The step taken on a redirect whose query parsed to `pairs`: a provider
/// error ends the wait; a code with a matching state succeeds, with a
/// foreign state fails; anything else is a bad request and the wait goes on.
pub open spec fn decided(
    r: CallbackStep,
    pairs: Option<Seq<(Seq<char>, Seq<char>)>>,
    expected_state: Seq<char>,
) -> bool {
    match pairs {
        None => continues_with_bad_request(r),
        Some(q) => match (lookup(q, "error"@), lookup(q, "code"@), lookup(q, "state"@)) {
            (Some(e), _, _) => finishes_provider_error(r, e),
            (None, Some(c), Some(s)) => if s == expected_state {
                finishes_success(r, c, s)
            } else {
                finishes_invalid_state(r)
            },
            _ => continues_with_bad_request(r),
        },
    }
}

/// Decides on a redirect from its query pairs (`None`: the URL did not
/// parse) and the state of the pending PKCE attempt.
pub fn callback_decision(pairs: Option<Vec<(String, String)>>, expected_state: &str) -> (r: CallbackStep)
    ensures
        decided(r, pairs.deep_view(), expected_state@),
{
    let q = match pairs {
        Some(q) => q,
        None => {
            return CallbackStep::Continue(CallbackPage::BadRequest);
        },
    };
    if let Some(e) = find_param(&q, "error") {
        let d = e.clone();
        return CallbackStep::Finish(CallbackPage::ProviderError(e), Err(AuthError::SpotifyError(d)));
    }
    let code = find_param(&q, "code");
    let state = find_param(&q, "state");
    match (code, state) {
        (Some(c), Some(s)) => {
            if str_eq(s.as_str(), expected_state) {
                CallbackStep::Finish(CallbackPage::Success, Ok((c, s)))
            } else {
                CallbackStep::Finish(CallbackPage::InvalidState, Err(AuthError::InvalidPkceState))
            }
        },
        _ => CallbackStep::Continue(CallbackPage::BadRequest),
    }
}

/// Whether `s` begins with `prefix`.
pub fn has_prefix(s: &str, prefix: &str) -> (r: bool)
    ensures
        r == (prefix@.len() <= s@.len() && s@.subrange(0, prefix@.len() as int) == prefix@),
{
    let n = prefix.unicode_len();
    if n > s.unicode_len() {
        return false;
    }
    let mut i: usize = 0;
    while i < n
        invariant
            n == prefix@.len(),
            n <= s@.len(),
            i <= n,
            forall|j: int| 0 <= j < i ==> s@[j] == prefix@[j],
        decreases n - i,
    {
        if s.get_char(i) != prefix.get_char(i) {
            assert(s@.subrange(0, n as int)[i as int] != prefix@[i as int]);
            return false;
        }
        i = i + 1;
    }
    assert(s@.subrange(0, n as int) =~= prefix@);
    true
}

/// Whether a request's path and query address the callback endpoint: the
/// path is exactly the callback path, with or without a query.
pub open spec fn is_callback_path(path: Seq<char>) -> bool {
    path == CALLBACK_PATH@ || (CALLBACK_QUERY_PREFIX@.len() <= path.len() && path.subrange(
        0,
        CALLBACK_QUERY_PREFIX@.len() as int,
    ) == CALLBACK_QUERY_PREFIX@)
}

/// Decides on one request to the listener, given its path and query and
/// the expected state. Requests off the callback path get a 404 and the
/// wait goes on.
pub fn handle_callback_request(path_and_query: &str, expected_state: &str) -> (r: CallbackStep)
    ensures
        is_callback_path(path_and_query@) ==> decided(
            r,
            query_pairs_of(LOOPBACK_ORIGIN@ + path_and_query@),
            expected_state@,
        ),
        !is_callback_path(path_and_query@) ==> (r is Continue && r->Continue_0 is NotFound),
{
    if !(str_eq(path_and_query, CALLBACK_PATH) || has_prefix(path_and_query, CALLBACK_QUERY_PREFIX)) {
        return CallbackStep::Continue(CallbackPage::NotFound);
    }
    let mut full = String::from_str(LOOPBACK_ORIGIN);
    full.append(path_and_query);
    callback_decision(query_pairs(full.as_str()), expected_state)
}

} // verus!
