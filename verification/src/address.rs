//! Which addresses the browser loads.
//!
//! Parsing is left to the `url` crate. This module reads two things off its
//! finding: the scheme of an address that parsed, and the parser's words
//! about one that did not.

use crate::reply::{join, join3, text_view, Reply};
use vstd::prelude::*;

verus! {

/// What `url::Url::parse` makes of `input`: `Ok` with the scheme of the
/// parsed address, or `Err` with the text of the parser's error.
pub uninterp spec fn parsed_address(input: Seq<char>) -> Result<Seq<char>, Seq<char>>;

/// Calls `url::Url::parse`, which is not verified here. The contract names
/// its finding [`parsed_address`] and claims only that the finding depends
/// on nothing but the input: on success it is what `Url::scheme` returns
/// for the parsed address, on failure what the `ParseError` displays.
#[verifier::external_body]
pub(crate) fn parse_address(input: &str) -> (finding: Result<String, String>)
    ensures
        text_view(finding) == parsed_address(input@),
{
    match url::Url::parse(input) {
        Ok(parsed) => Ok(parsed.scheme().to_string()),
        Err(refusal) => Err(refusal.to_string()),
    }
}

/// Pages are loaded over `http` and `https` and nothing else.
pub open spec fn is_web_scheme(scheme: Seq<char>) -> bool {
    scheme == "http"@ || scheme == "https"@
}

/// The address parsed and its scheme is `http` or `https`.
pub open spec fn is_web_address(finding: Result<Seq<char>, Seq<char>>) -> bool {
    finding matches Ok(scheme) && is_web_scheme(scheme)
}

/// The answer to a request to hand an address to the system's browser: any
/// address that parses is accepted, whatever its scheme.
pub open spec fn external_reply(url: Seq<char>, finding: Result<Seq<char>, Seq<char>>) -> Result<
    Seq<char>,
    Seq<char>,
> {
    match finding {
        Ok(_) => Ok("Opened "@ + url + " in external browser"@),
        Err(refusal) => Err("Invalid URL: "@ + refusal),
    }
}

/// Whether pages are loaded over `scheme`. The comparison is exact: the
/// parser hands schemes out in lower case, and nothing here lowers one.
pub fn scheme_is_web(scheme: &String) -> (web: bool)
    ensures
        web == is_web_scheme(scheme@),
{
    *scheme == "http".to_owned() || *scheme == "https".to_owned()
}

/// Judges a parser's finding: whether the address may be loaded.
pub fn accepts(finding: &Result<String, String>) -> (valid: bool)
    ensures
        valid == is_web_address(text_view(*finding)),
{
    match finding {
        Ok(scheme) => scheme_is_web(scheme),
        Err(_) => false,
    }
}

/// Whether `url` is an address the browser loads: one that parses and has
/// the scheme `http` or `https`.
pub fn validate_url(url: &str) -> (valid: bool)
    ensures
        valid == is_web_address(parsed_address(url@)),
{
    let finding = parse_address(url);
    accepts(&finding)
}

/// Answers a request to open `url` outside the browser, given the parser's
/// finding on it.
pub fn answer_external(url: &str, finding: &Result<String, String>) -> (reply: Reply)
    ensures
        text_view(reply) == external_reply(url@, text_view(*finding)),
{
    match finding {
        Ok(_) => Ok(join3("Opened ", url, " in external browser")),
        Err(refusal) => Err(join("Invalid URL: ", refusal.as_str())),
    }
}

/// Answers a request to open `url` outside the browser.
pub fn open_external_url(url: &str) -> (reply: Reply)
    ensures
        text_view(reply) == external_reply(url@, parsed_address(url@)),
{
    let finding = parse_address(url);
    answer_external(url, &finding)
}

} // verus!
