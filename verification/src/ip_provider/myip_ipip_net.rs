//! The lookup service at `myip.ipip.net`, which answers with a sentence that
//! holds the address behind the letters `IP` and a full-width colon.

use vstd::prelude::*;

use super::{lookup_view, LookupError, LookupErrorView};

verus! {

/// Where the service is asked.
pub const URL: &'static str = "https://myip.ipip.net";

/// The pattern that finds the address in the service's answer.
pub const PATTERN: &'static str = r"IP：((?:\d{1,3}\.){3}\d{1,3})";

/// The group of the pattern that holds the address.
pub const GROUP: usize = 1;

/// What a search of `text` for `pattern` by the `regex` crate gives: `Err`
/// with the crate's message where the pattern does not compile, `Ok(None)`
/// where nothing in the text matches, else the text of the group with the
/// number `group` in the leftmost match, `None` where there is no such group
/// or it took no part in the match.
pub uninterp spec fn group_found(pattern: Seq<char>, text: Seq<char>, group: usize) -> Result<
    Option<Option<Seq<char>>>,
    Seq<char>,
>;

/// What a search result holds, as sequences of characters.
pub open spec fn search_view(found: Result<Option<Option<String>>, String>) -> Result<
    Option<Option<Seq<char>>>,
    Seq<char>,
> {
    match found {
        Ok(Some(Some(t))) => Ok(Some(Some(t@))),
        Ok(Some(None)) => Ok(Some(None)),
        Ok(None) => Ok(None),
        Err(e) => Err(e@),
    }
}

/// Compiles `pattern` with `regex::Regex::new` and searches `text` with
/// `Regex::captures`, then takes the group with the number `group` with
/// `Captures::get`. The contract only gives the outcome its name: nothing is
/// claimed of what the search finds.
#[verifier::external_body]
fn search_group(pattern: &str, text: &str, group: usize) -> (r: Result<
    Option<Option<String>>,
    String,
>)
    ensures
        search_view(r) == group_found(pattern@, text@, group),
{
    match regex::Regex::new(pattern) {
        Ok(compiled) => Ok(
            compiled.captures(text).map(|found| found.get(group).map(|part| part.as_str().to_owned())),
        ),
        Err(e) => Err(e.to_string()),
    }
}

/// The address that a search result stands for: the text of the group, or
/// the empty text where the group took no part in the match. Without a
/// match there is no address, and a pattern that does not compile is
/// reported with the compiler's message.
pub open spec fn address_found(found: Result<Option<Option<Seq<char>>>, Seq<char>>) -> Result<
    Seq<char>,
    LookupErrorView,
> {
    match found {
        Ok(Some(Some(t))) => Ok(t),
        Ok(Some(None)) => Ok(Seq::empty()),
        Ok(None) => Err(LookupErrorView::NoAddress),
        Err(e) => Err(LookupErrorView::Pattern(e)),
    }
}

/// Turns the result of the search into the address or the failure that it
/// stands for.
pub fn captured_address(found: Result<Option<Option<String>>, String>) -> (r: Result<
    String,
    LookupError,
>)
    ensures
        lookup_view(r) == address_found(search_view(found)),
{
    match found {
        Ok(Some(Some(t))) => Ok(t),
        Ok(Some(None)) => Ok(String::new()),
        Ok(None) => Err(LookupError::NoAddress),
        Err(e) => Err(LookupError::Pattern(e)),
    }
}

/// The address in the service's answer: what the pattern captures.
pub fn get_ip(response: &str) -> (r: Result<String, LookupError>)
    ensures
        lookup_view(r) == address_found(group_found(PATTERN@, response@, GROUP)),
{
    captured_address(search_group(PATTERN, response, GROUP))
}

} // verus!
