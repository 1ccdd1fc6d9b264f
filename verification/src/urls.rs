//! Trusted URL handling.
//!
//! The base URL is validated at construction and the endpoint is resolved by
//! joining a fixed relative path onto it. Both operations are done by the
//! `url` crate (re-exported by `reqwest`); each is a pure function of its
//! text inputs, so its result gets a mathematical name that the client's
//! contracts can speak of.

use vstd::prelude::*;

verus! {

/// What parsing a text as an absolute URL yields: `None` when the text is
/// not a well-formed absolute URL, otherwise the parsed URL rendered back as
/// text (normalization included). Parsing depends on the text alone.
pub uninterp spec fn url_parse_norm(s: Seq<char>) -> Option<Seq<char>>;

/// What joining a relative path onto a base URL yields: `None` when the base
/// does not parse or the join fails, otherwise the joined URL rendered as
/// text. The result depends on the two texts alone.
pub uninterp spec fn url_join_norm(base: Seq<char>, path: Seq<char>) -> Option<Seq<char>>;

/// Relies on `url::Url::parse` (via `reqwest::Url`): parses an absolute URL
/// from a string, deterministically; `From<Url> for String` renders it back.
#[verifier::external_body]
pub(crate) fn parse_absolute_url(s: &str) -> (r: Result<String, String>)
    ensures
        r is Ok <==> url_parse_norm(s@) is Some,
        r matches Ok(n) ==> url_parse_norm(s@) == Some(n@),
{
    match reqwest::Url::parse(s) {
        Ok(u) => Ok(String::from(u)),
        Err(e) => Err(e.to_string()),
    }
}

/// Relies on `url::Url::parse` and `url::Url::join` (via `reqwest::Url`):
/// parses the base, joins the path onto it, and renders the result;
/// both steps are deterministic in their text inputs.
#[verifier::external_body]
pub(crate) fn join_url(base: &str, path: &str) -> (r: Result<String, String>)
    ensures
        r is Ok <==> url_join_norm(base@, path@) is Some,
        r matches Ok(n) ==> url_join_norm(base@, path@) == Some(n@),
{
    match reqwest::Url::parse(base) {
        Ok(u) => match u.join(path) {
            Ok(j) => Ok(String::from(j)),
            Err(e) => Err(e.to_string()),
        },
        Err(e) => Err(e.to_string()),
    }
}

} // verus!
