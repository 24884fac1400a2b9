//! Addresses: how a URL is taken apart and put together. The URL grammar
//! itself is that of the `url` crate, which `reqwest` hands on.

use vstd::prelude::*;
use crate::text::same_text;

verus! {

/// A name with its value, as in a query string.
pub type Pair = (String, String);

/// What a `Pair` holds, as a mathematical value.
pub type PairModel = (Seq<char>, Seq<char>);

/// The path of a URL as `Url::parse` and `Url::path` give it, or `None`
/// where the text is no absolute URL.
pub uninterp spec fn url_path_text(url: Seq<char>) -> Option<Seq<char>>;

/// The decoded pairs of a URL's query string as `Url::parse` and
/// `Url::query_pairs` give them, or `None` where the text is no absolute
/// URL.
pub uninterp spec fn url_query_text(url: Seq<char>) -> Option<Seq<PairModel>>;

/// The URL that results when the query string of `base` is replaced by the
/// form encoding of `pairs`, or `None` where `base` is no absolute URL.
pub uninterp spec fn url_with_query_text(base: Seq<char>, pairs: Seq<PairModel>) -> Option<
    Seq<char>,
>;

/// The URL that `Url::join` makes of a base and a reference, or `None`
/// where either cannot be parsed.
pub uninterp spec fn url_joined_text(base: Seq<char>, reference: Seq<char>) -> Option<Seq<char>>;

/// `reqwest::Url::parse`, then `Url::path`. A text that does not parse
/// gives `None`. The result depends on the text alone; nothing more is
/// claimed of it.
#[verifier::external_body]
fn url_path(url: &str) -> (path: Option<String>)
    ensures
        path.deep_view() == url_path_text(url@),
{
    reqwest::Url::parse(url).ok().map(|u| u.path().to_owned())
}

/// `reqwest::Url::parse`, then `Url::query_pairs`, each pair copied out.
/// A text that does not parse gives `None`. The result depends on the text
/// alone; nothing more is claimed of it.
#[verifier::external_body]
fn url_query_pairs(url: &str) -> (pairs: Option<Vec<Pair>>)
    ensures
        pairs.deep_view() == url_query_text(url@),
{
    reqwest::Url::parse(url).ok().map(
        |u| u.query_pairs().map(|(k, v)| (k.into_owned(), v.into_owned())).collect(),
    )
}

/// `reqwest::Url::parse`, then `Url::query_pairs_mut` with `clear` and
/// `extend_pairs`, and the URL's text. A base that does not parse gives
/// `None`. The result depends on the arguments alone; nothing more is
/// claimed of it.
#[verifier::external_body]
pub(crate) fn url_with_query(base: &str, pairs: &Vec<Pair>) -> (url: Option<String>)
    ensures
        url.deep_view() == url_with_query_text(base@, pairs.deep_view()),
{
    reqwest::Url::parse(base).ok().map(
        |mut u| {
            u.query_pairs_mut().clear().extend_pairs(pairs.iter());
            String::from(u)
        },
    )
}

/// `reqwest::Url::parse`, then `Url::join`, and the URL's text. `None`
/// where the base or the joined text does not parse. The result depends on
/// the arguments alone; nothing more is claimed of it.
#[verifier::external_body]
pub(crate) fn url_join(base: &str, reference: &str) -> (url: Option<String>)
    ensures
        url.deep_view() == url_joined_text(base@, reference@),
{
    reqwest::Url::parse(base).ok().and_then(|u| u.join(reference).ok()).map(String::from)
}

/// The path to which the identity provider sends the browser back.
pub open spec fn callback_path() -> Seq<char> {
    "/void/callback"@
}

/// Whether a path is the one to which the identity provider sends the
/// browser back; a redirect there is not followed.
pub fn is_callback_path(path: &str) -> (yes: bool)
    ensures
        yes == (path@ == callback_path()),
{
    same_text(path, "/void/callback")
}

/// Whether a URL points at the callback path.
pub open spec fn targets_callback(url: Seq<char>) -> bool {
    url_path_text(url) == Some(callback_path())
}

/// Whether a URL, such as the target of a redirect, points at the
/// callback path. A text that is no absolute URL does not.
pub fn is_callback_url(url: &str) -> (yes: bool)
    ensures
        yes == targets_callback(url@),
{
    match url_path(url) {
        Some(path) => is_callback_path(path.as_str()),
        None => false,
    }
}

/// The value of the first pair with the given name.
pub open spec fn first_value(pairs: Seq<PairModel>, name: Seq<char>) -> Option<Seq<char>>
    decreases pairs.len(),
{
    if pairs.len() == 0 {
        None
    } else if pairs[0].0 == name {
        Some(pairs[0].1)
    } else {
        first_value(pairs.drop_first(), name)
    }
}

/// Looks a name up among pairs: the value of the first pair that has it.
pub fn find_pair(pairs: &Vec<Pair>, name: &str) -> (value: Option<String>)
    ensures
        value.deep_view() == first_value(pairs.deep_view(), name@),
{
    let ghost all = pairs.deep_view();
    let mut i: usize = 0;
    assert(all.skip(0) =~= all);
    while i < pairs.len()
        invariant
            all == pairs.deep_view(),
            i <= pairs.len(),
            first_value(all, name@) == first_value(all.skip(i as int), name@),
        decreases pairs.len() - i,
    {
        proof {
            let rest = all.skip(i as int);
            assert(rest[0] == all[i as int]);
            assert(all[i as int] == pairs@[i as int].deep_view());
            assert(rest.drop_first() =~= all.skip(i + 1));
        }
        if same_text(pairs[i].0.as_str(), name) {
            return Some(pairs[i].1.clone());
        }
        i += 1;
    }
    assert(all.skip(i as int).len() == 0);
    None
}

/// The parameter `name` of a URL's query string, decoded.
pub open spec fn query_value(url: Seq<char>, name: Seq<char>) -> Option<Seq<char>> {
    match url_query_text(url) {
        Some(pairs) => first_value(pairs, name),
        None => None,
    }
}

/// The first value that a URL's query string gives the parameter `name`,
/// decoded; `None` where it has none, or where the text is no absolute
/// URL.
pub fn query_parameter(url: &str, name: &str) -> (value: Option<String>)
    ensures
        value.deep_view() == query_value(url@, name@),
{
    match url_query_pairs(url) {
        Some(pairs) => find_pair(&pairs, name),
        None => None,
    }
}

/// A pair made of copies of two texts.
pub fn pair_of(name: &str, value: &str) -> (pair: Pair)
    ensures
        pair.deep_view() == (name@, value@),
{
    (name.to_owned(), value.to_owned())
}

} // verus!
