use vstd::prelude::*;

verus! {

/// Declares `reqwest::Error`, the network client's error, so that it can be carried.
#[verifier::external_type_specification]
#[verifier::external_body]
pub struct ExReqwestError(reqwest::Error);

/// Declares `url::ParseError`, the error of request-URL assembly.
#[verifier::external_type_specification]
#[verifier::external_body]
pub struct ExUrlParseError(url::ParseError);

/// Error kinds of the library, one per way a lookup can fail.
#[derive(Debug)]
pub enum YdtError {
    /// The network client rejected its configuration.
    CreateHttpClient(reqwest::Error),
    /// The request URL could not be assembled.
    BuildRequestUrl(url::ParseError),
    /// Connection, DNS, TLS or timeout failure.
    FetchTranslation(reqwest::Error),
    /// The server answered with a status outside 200..=299.
    HttpStatus(u16),
    /// The response body could not be read.
    ReadResponse(reqwest::Error),
    /// A built-in structural pattern did not compile.
    ParseCssSelector(&'static str),
}

} // verus!
