//! The fetch boundary: where a page lives and when a response counts.
//!
//! Sending the request is the caller's business. This module says which URL
//! a path stands for and turns what came back into a [`Page`] or a
//! [`FetchError`].

use crate::page::Page;
use vstd::prelude::*;
use vstd::string::*;

verus! {

/// The origin all paths are relative to.
pub open spec fn base_origin() -> Seq<char> {
    "https://he.wiktionary.org"@
}

/// The path of the first page of the listing.
pub open spec fn start_path() -> Seq<char> {
    "/wiki/\u{5de}\u{5d9}\u{5d5}\u{5d7}\u{5d3}:\u{5db}\u{5dc}_\u{5d4}\u{5d3}\u{5e4}\u{5d9}\u{5dd}/\u{5d0}"@
}

/// Why a page could not be fetched.
#[derive(Debug, Clone, PartialEq, Eq)]
pub enum FetchError {
    /// The connection could not be made or broke down.
    Transport(String),
    /// The request did not complete in time.
    Timeout(String),
    /// The server answered with a status outside 200 to 299.
    Status(u16),
    /// The body could not be read as text.
    Decode(String),
}

/// Whether a status code reports success.
pub open spec fn is_success(status: u16) -> bool {
    200 <= status <= 299
}

/// The path at which the crawl begins.
pub fn first_path() -> (path: String)
    ensures
        path@ == start_path(),
{
    String::from_str(
        "/wiki/\u{5de}\u{5d9}\u{5d5}\u{5d7}\u{5d3}:\u{5db}\u{5dc}_\u{5d4}\u{5d3}\u{5e4}\u{5d9}\u{5dd}/\u{5d0}",
    )
}

/// The URL of the page at `path`: the origin followed by the path.
pub fn page_url(path: &str) -> (url: String)
    ensures
        url@ == base_origin() + path@,
{
    String::from_str("https://he.wiktionary.org").concat(path)
}

/// Judges a status code: anything outside 200 to 299 is a failure.
pub fn check_status(status: u16) -> (verdict: Result<(), FetchError>)
    ensures
        is_success(status) ==> verdict == Ok::<(), FetchError>(()),
        !is_success(status) ==> verdict == Err::<(), FetchError>(FetchError::Status(status)),
{
    if status < 200 || status > 299 {
        Err(FetchError::Status(status))
    } else {
        Ok(())
    }
}

/// Judges a response. Any status outside 200 to 299 is a failure, whatever
/// the body; with a success status the body makes the page, and a body that
/// could not be read as text is a failure that carries the reader's message.
pub fn accept_response(path: String, status: u16, body: Result<String, String>) -> (outcome:
    Result<Page, FetchError>)
    ensures
        !is_success(status) ==> outcome == Err::<Page, FetchError>(FetchError::Status(status)),
        is_success(status) ==> match body {
            Ok(content) => outcome == Ok::<Page, FetchError>((Page { path, content })),
            Err(message) => outcome == Err::<Page, FetchError>(FetchError::Decode(message)),
        },
{
    match check_status(status) {
        Err(error) => Err(error),
        Ok(()) => match body {
            Ok(content) => Ok(Page { path, content }),
            Err(message) => Err(FetchError::Decode(message)),
        },
    }
}

} // verus!
