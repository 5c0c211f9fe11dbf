//! The fetch policy: one request under the project's identity, and a single
//! retry under a browser-like identity when that request is blocked or fails
//! in transport. The requests themselves are made by the caller, which
//! reports each outcome and follows the step this module decides.

use crate::error::YdtError;
use crate::extract::{extract, extraction, Patterns};
use vstd::prelude::*;

verus! {

/// The endpoint that serves dictionary results.
pub const RESULT_URL: &'static str = "https://www.youdao.com/result";

/// The identity string of this project.
pub const PROJECT_USER_AGENT: &'static str = "ydt/0.1.0 (+https://github.com/yushengyangchem/ydt)";

/// A generic browser identity, for the retry.
pub const BROWSER_USER_AGENT: &'static str = "Mozilla/5.0 (Windows NT 10.0; Win64; x64) AppleWebKit/537.36 (KHTML, like Gecko) Chrome/119.0.0.0 Safari/537.36";

/// Seconds that each request may take.
pub const REQUEST_TIMEOUT_SECS: u64 = 10;

/// The serialization of the URL that `url::Url::parse_with_params` builds
/// from `base` and the query pairs `params`, or `None` where it fails.
pub uninterp spec fn url_with_params(
    base: Seq<char>,
    params: Seq<(Seq<char>, Seq<char>)>,
) -> Option<Seq<char>>;

/// The views of a list of query pairs.
pub open spec fn pair_views(params: Seq<(&str, &str)>) -> Seq<(Seq<char>, Seq<char>)> {
    params.map_values(|p: (&str, &str)| (p.0@, p.1@))
}

/// Relies on `url::Url::parse_with_params`: parses `base` as an absolute URL
/// and appends the pairs, form-urlencoded, to its query; the URL is returned
/// serialized (`From<Url> for String`).
#[verifier::external_body]
fn parse_with_params(base: &str, params: &Vec<(&str, &str)>) -> (r: Result<String, url::ParseError>)
    ensures
        match r {
            Ok(u) => url_with_params(base@, pair_views(params@)) == Some(u@),
            Err(_) => url_with_params(base@, pair_views(params@)) is None,
        },
{
    url::Url::parse_with_params(base, params.iter()).map(String::from)
}

/// The query of a lookup of `word`: the word, and English as the target.
pub open spec fn request_params(word: Seq<char>) -> Seq<(Seq<char>, Seq<char>)> {
    seq![("word"@, word), ("lang"@, "en"@)]
}

/// The URL to request for `word`.
pub fn request_url(word: &str) -> (r: Result<String, YdtError>)
    ensures
        match r {
            Ok(u) => url_with_params(RESULT_URL@, request_params(word@)) == Some(u@),
            Err(e) => e is BuildRequestUrl && url_with_params(RESULT_URL@, request_params(word@))
                is None,
        },
{
    let params = vec![("word", word), ("lang", "en")];
    assert(pair_views(params@) =~= request_params(word@));
    match parse_with_params(RESULT_URL, &params) {
        Ok(u) => Ok(u),
        Err(e) => Err(YdtError::BuildRequestUrl(e)),
    }
}

/// Who a request says it comes from.
#[derive(Clone, Copy, Debug, PartialEq, Eq, Structural)]
pub enum Identity {
    Project,
    Browser,
}

impl Identity {
    /// The identity string of each identity.
    pub open spec fn spec_user_agent(self) -> Seq<char> {
        match self {
            Identity::Project => PROJECT_USER_AGENT@,
            Identity::Browser => BROWSER_USER_AGENT@,
        }
    }

    /// The identity string sent with the request.
    pub fn user_agent(self) -> (r: &'static str)
        ensures
            r@ == self.spec_user_agent(),
    {
        match self {
            Identity::Project => PROJECT_USER_AGENT,
            Identity::Browser => BROWSER_USER_AGENT,
        }
    }
}

/// Which request of a fetch is under way.
#[derive(Clone, Copy, Debug, PartialEq, Eq, Structural)]
pub enum Attempt {
    First,
    Fallback,
}

impl Attempt {
    /// The identity of each attempt: the project's first, then the browser's.
    pub open spec fn spec_identity(self) -> Identity {
        match self {
            Attempt::First => Identity::Project,
            Attempt::Fallback => Identity::Browser,
        }
    }

    /// The identity that this request is sent under.
    pub fn identity(self) -> (r: Identity)
        ensures
            r == self.spec_identity(),
    {
        match self {
            Attempt::First => Identity::Project,
            Attempt::Fallback => Identity::Browser,
        }
    }
}

/// What a request came to: an HTTP status, or an error before any status
/// (client setup, URL assembly, transport).
#[derive(Debug)]
pub enum Outcome {
    Responded(u16),
    Failed(YdtError),
}

/// What the fetch does next.
#[derive(Debug)]
pub enum Step {
    /// Send the fallback request.
    Retry,
    /// Read the body of the response just received.
    Accept,
    /// Give up with this error.
    Fail(YdtError),
}

/// A status of the 2xx class.
pub open spec fn is_success(status: u16) -> bool {
    200 <= status <= 299
}

/// Forbidden or Too Many Requests: the server refused this identity.
pub open spec fn is_blocking(status: u16) -> bool {
    status == 403 || status == 429
}

/// The fallback policy.
pub open spec fn policy(attempt: Attempt, outcome: Outcome) -> Step {
    match outcome {
        Outcome::Responded(s) => if is_success(s) {
            Step::Accept
        } else if attempt == Attempt::First && is_blocking(s) {
            Step::Retry
        } else {
            Step::Fail(YdtError::HttpStatus(s))
        },
        Outcome::Failed(e) => if attempt == Attempt::First && e is FetchTranslation {
            Step::Retry
        } else {
            Step::Fail(e)
        },
    }
}

/// Decides what follows a request: a success is read; a first request that
/// is blocked, or fails in transport, is retried once; anything else, a
/// failure to set up the client or the URL included, ends the fetch with its
/// error.
pub fn next_step(attempt: Attempt, outcome: Outcome) -> (r: Step)
    ensures
        r == policy(attempt, outcome),
{
    match outcome {
        Outcome::Responded(s) => {
            if 200 <= s && s <= 299 {
                Step::Accept
            } else if attempt == Attempt::First && (s == 403 || s == 429) {
                Step::Retry
            } else {
                Step::Fail(YdtError::HttpStatus(s))
            }
        },
        Outcome::Failed(e) => {
            if attempt == Attempt::First && matches!(e, YdtError::FetchTranslation(_)) {
                Step::Retry
            } else {
                Step::Fail(e)
            }
        },
    }
}

/// A first request that is blocked is retried, and a successful retry is
/// read; a first request refused with any other failing status ends the
/// fetch at once with that status, without a retry.
pub proof fn lemma_fallback_only_when_blocked(blocked: u16, ok: u16, other: u16)
    requires
        is_blocking(blocked),
        is_success(ok),
        !is_success(other) && !is_blocking(other),
    ensures
        policy(Attempt::First, Outcome::Responded(blocked)) is Retry,
        policy(Attempt::Fallback, Outcome::Responded(ok)) is Accept,
        policy(Attempt::First, Outcome::Responded(other)) == Step::Fail(YdtError::HttpStatus(other)),
{
}

/// Of the errors that come before any status, only a transport failure of
/// the first request is retried; every error of the retry ends the fetch.
pub proof fn lemma_only_transport_failures_retried(e: YdtError)
    ensures
        policy(Attempt::First, Outcome::Failed(e)) is Retry <==> e is FetchTranslation,
        !(e is FetchTranslation) ==> policy(Attempt::First, Outcome::Failed(e)) == Step::Fail(e),
        policy(Attempt::Fallback, Outcome::Failed(e)) == Step::Fail(e),
{
}

/// Completes a lookup of `word` from what the fetch brought and the compiled
/// patterns: a fetch error is passed on unchanged; else a pattern that did not
/// compile is reported; else the page is parsed into the display string.
pub fn get_translation(
    word: &str,
    patterns: &Result<Patterns, &'static str>,
    fetched: Result<String, YdtError>,
) -> (r: Result<String, YdtError>)
    ensures
        match fetched {
            Err(e) => r == Err::<String, YdtError>(e),
            Ok(html) => match patterns {
                Ok(_) => r matches Ok(s) && s@ == extraction(word@, html@),
                Err(css) => r matches Err(YdtError::ParseCssSelector(c)) && c == *css,
            },
        },
{
    match fetched {
        Ok(html) => match patterns {
            Ok(p) => Ok(extract(p, word, html.as_str())),
            Err(css) => Err(YdtError::ParseCssSelector(*css)),
        },
        Err(e) => Err(e),
    }
}

} // verus!
