//! URL operations of the `url` crate (as `worker::Url`), on URLs held as text.

use vstd::prelude::*;
use worker::Url;

verus! {

/// The views of a list of key/value pairs.
pub open spec fn pair_views(pairs: Seq<(String, String)>) -> Seq<(Seq<char>, Seq<char>)> {
    pairs.map_values(|p: (String, String)| (p.0@, p.1@))
}

/// The views of a list of pairs keep their order, count and contents.
pub proof fn pair_views_keep_pairs(pairs: Seq<(String, String)>)
    ensures
        pair_views(pairs).len() == pairs.len(),
        forall|i: int|
            0 <= i < pairs.len() ==> #[trigger] pair_views(pairs)[i] == (pairs[i].0@, pairs[i].1@),
{
}

/// The decoded query pairs of the URL `url`, in order; `None` when it does not parse.
pub uninterp spec fn url_query_pairs(url: Seq<char>) -> Option<Seq<(Seq<char>, Seq<char>)>>;

/// The URL `url` with its path set to `path` and its query removed; `None`
/// when it does not parse.
pub uninterp spec fn url_with_path_without_query(url: Seq<char>, path: Seq<char>) -> Option<
    Seq<char>,
>;

/// The URL that `input` refers to relative to `base`; `None` when either fails.
pub uninterp spec fn url_joined(base: Seq<char>, input: Seq<char>) -> Option<Seq<char>>;

/// The URL `url` with the pairs appended to its query, form-encoded; `None`
/// when it does not parse.
pub uninterp spec fn url_pairs_appended(
    url: Seq<char>,
    pairs: Seq<(Seq<char>, Seq<char>)>,
) -> Option<Seq<char>>;

/// `Url::parse` then `Url::query_pairs`, each pair decoded into owned strings.
/// Trusted: the result is `url_query_pairs` of the text.
#[verifier::external_body]
pub(crate) fn query_pairs(url: &str) -> (r: Option<Vec<(String, String)>>)
    ensures
        r is Some <==> url_query_pairs(url@) is Some,
        r matches Some(pairs) ==> pair_views(pairs@) == url_query_pairs(url@)->0,
{
    let parsed = Url::parse(url).ok()?;
    let mut pairs = Vec::new();
    for (key, value) in parsed.query_pairs() {
        pairs.push((key.into_owned(), value.into_owned()));
    }
    Some(pairs)
}

/// `Url::parse` then `Url::set_path` and `Url::set_query(None)`, serialized.
/// Trusted: the result is `url_with_path_without_query` of the texts. Setting
/// the path and clearing the query cannot fail, so there is a result exactly
/// when the URL parses, as for `query_pairs`.
#[verifier::external_body]
pub(crate) fn with_path_without_query(url: &str, path: &str) -> (r: Option<String>)
    ensures
        r is Some <==> url_query_pairs(url@) is Some,
        r is Some <==> url_with_path_without_query(url@, path@) is Some,
        r matches Some(s) ==> s@ == url_with_path_without_query(url@, path@)->0,
{
    let mut parsed = Url::parse(url).ok()?;
    parsed.set_path(path);
    parsed.set_query(None);
    Some(parsed.to_string())
}

/// `Url::parse` of `base` then `Url::join` with `input`, serialized.
/// Trusted: the result is `url_joined` of the texts.
#[verifier::external_body]
pub(crate) fn join(base: &str, input: &str) -> (r: Option<String>)
    ensures
        r is Some <==> url_joined(base@, input@) is Some,
        r matches Some(s) ==> s@ == url_joined(base@, input@)->0,
{
    let parsed = Url::parse(base).ok()?;
    Some(parsed.join(input).ok()?.to_string())
}

/// `Url::parse` then `query_pairs_mut().extend_pairs(pairs).finish()`,
/// serialized. Trusted: the result is `url_pairs_appended` of the texts;
/// appending pairs cannot fail, so there is a result exactly when the URL
/// parses, as for `query_pairs`.
#[verifier::external_body]
pub(crate) fn append_pairs(url: &str, pairs: &Vec<(String, String)>) -> (r: Option<String>)
    ensures
        r is Some <==> url_query_pairs(url@) is Some,
        r is Some <==> url_pairs_appended(url@, pair_views(pairs@)) is Some,
        r matches Some(s) ==> s@ == url_pairs_appended(url@, pair_views(pairs@))->0,
{
    let mut parsed = Url::parse(url).ok()?;
    parsed.query_pairs_mut().extend_pairs(pairs).finish();
    Some(parsed.to_string())
}

} // verus!
