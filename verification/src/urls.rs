//! URLs, parsed and written by the `url` crate that `reqwest` re-exports.
use vstd::prelude::*;

verus! {

/// The path of a URL, where it parses (`Url::parse`, then `Url::path`).
pub uninterp spec fn url_path_of(url: Seq<char>) -> Option<Seq<char>>;

/// The decoded query pairs of a URL, in order, where it parses (`Url::parse`, then
/// `Url::query_pairs`).
pub uninterp spec fn url_query_pairs_of(url: Seq<char>) -> Option<Seq<(Seq<char>, Seq<char>)>>;

/// A URL with its query replaced by the given pairs, encoded in order, where it parses
/// (`Url::parse`, `Url::set_query(None)`, then `Url::query_pairs_mut` appending each pair).
pub uninterp spec fn url_with_query_pairs_of(
    url: Seq<char>,
    pairs: Seq<(Seq<char>, Seq<char>)>,
) -> Option<Seq<char>>;

/// A URL without path, query, fragment and port, as text, and its port, where it parses
/// (`Url::parse`, `Url::port`, then `set_path("")`, `set_query(None)`, `set_fragment(None)`,
/// `set_port(None)` and the text of the URL).
pub uninterp spec fn url_origin_and_port_of(url: Seq<char>) -> Option<(Seq<char>, Option<u16>)>;

/// The most characters a URL and the query pairs written into it may hold together, each
/// pair counting one more for its separators.
pub const URL_REWRITE_LIMIT: usize = 16_777_216;

/// The characters of the keys and values of `pairs`, with one more for each pair.
pub open spec fn pairs_text_len(pairs: Seq<(Seq<char>, Seq<char>)>) -> int
    decreases pairs.len(),
{
    if pairs.len() == 0 {
        0
    } else {
        pairs_text_len(pairs.drop_last()) + pairs.last().0.len() + pairs.last().1.len() + 1
    }
}

/// The characters of each text of a list of pairs.
pub open spec fn pairs_view(pairs: Seq<(String, String)>) -> Seq<(Seq<char>, Seq<char>)> {
    pairs.map_values(|p: (String, String)| (p.0@, p.1@))
}

/// The path of `url`, from `reqwest::Url::parse` and `Url::path`; none where it does not
/// parse. What the path is, is not stated.
#[verifier::external_body]
pub(crate) fn url_path(url: &str) -> (r: Option<String>)
    ensures
        match r {
            Some(p) => url_path_of(url@) == Some(p@),
            None => url_path_of(url@) is None,
        },
{
    match reqwest::Url::parse(url) {
        Ok(parsed) => Some(parsed.path().to_string()),
        Err(_) => None,
    }
}

/// The decoded query pairs of `url`, from `reqwest::Url::parse` and `Url::query_pairs`; none
/// where it does not parse. How the query is decoded is not stated.
#[verifier::external_body]
pub(crate) fn url_query_pairs(url: &str) -> (r: Option<Vec<(String, String)>>)
    ensures
        match r {
            Some(v) => url_query_pairs_of(url@) == Some(pairs_view(v@)),
            None => url_query_pairs_of(url@) is None,
        },
{
    match reqwest::Url::parse(url) {
        Ok(parsed) => Some(
            parsed.query_pairs().map(|(k, v)| (k.into_owned(), v.into_owned())).collect(),
        ),
        Err(_) => None,
    }
}

/// `url` with its query replaced by `pairs`, from `reqwest::Url::parse`,
/// `Url::set_query(None)` and `Url::query_pairs_mut`; none where it does not parse. How the
/// pairs are encoded is not stated. The `url` crate panics when it puts back the fragment of
/// a URL whose text has grown past `u32::MAX` bytes. It writes each character of the URL or of
/// a pair in at most 12 bytes (percent-encoded UTF-8, or punycode in a host name) and adds at
/// most two separators for each pair, so the bound in `requires` keeps the text below a
/// tenth of that.
#[verifier::external_body]
pub(crate) fn url_with_query_pairs(url: &str, pairs: &Vec<(String, String)>) -> (r: Option<String>)
    requires
        url@.len() + pairs_text_len(pairs_view(pairs@)) <= URL_REWRITE_LIMIT,
    ensures
        match r {
            Some(s) => url_with_query_pairs_of(url@, pairs_view(pairs@)) == Some(s@),
            None => url_with_query_pairs_of(url@, pairs_view(pairs@)) is None,
        },
{
    let mut parsed = match reqwest::Url::parse(url) {
        Ok(parsed) => parsed,
        Err(_) => return None,
    };
    parsed.set_query(None);
    parsed.query_pairs_mut().extend_pairs(pairs.iter().map(|(k, v)| (k.as_str(), v.as_str())));
    Some(parsed.to_string())
}

/// `url` without path, query, fragment and port, and its port, from `reqwest::Url::parse`,
/// `Url::port` and the `Url` setters; none where it does not parse. What the text is, is not
/// stated. `Url::set_path` panics on a URL whose text passes `u32::MAX` bytes, which
/// `Url::parse` does not refuse without a query or fragment; the crate writes each character
/// in at most 12 bytes, so the bound in `requires` keeps the text far below that.
#[verifier::external_body]
pub(crate) fn url_origin_and_port(url: &str) -> (r: Option<(String, Option<u16>)>)
    requires
        url@.len() <= URL_REWRITE_LIMIT,
    ensures
        match r {
            Some((s, p)) => url_origin_and_port_of(url@) == Some((s@, p)),
            None => url_origin_and_port_of(url@) is None,
        },
{
    let mut parsed = match reqwest::Url::parse(url) {
        Ok(parsed) => parsed,
        Err(_) => return None,
    };
    let port = parsed.port();
    parsed.set_path("");
    parsed.set_query(None);
    parsed.set_fragment(None);
    let _ = parsed.set_port(None);
    Some((parsed.to_string(), port))
}

} // verus!
