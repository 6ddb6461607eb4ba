//! URLs with a form-encoded query, built by the `url` crate.

use vstd::prelude::*;
use crate::text::str_eq;

verus! {

/// What the `url` crate makes of `base` with the name/value `pairs`
/// appended to its query: the serialization of the URL, or the text of the
/// parse error when `base` is no absolute URL.
pub uninterp spec fn url_with_query_pairs(base: Seq<char>, pairs: Seq<(Seq<char>, Seq<char>)>) -> Result<
    Seq<char>,
    Seq<char>,
>;

/// The name/value pairs that the `url` crate reads from the query of a URL
/// (`Url::parse(url)` then `query_pairs()`, form-urlencoded decoding), or
/// nothing when the text is no absolute URL.
pub uninterp spec fn url_query_of(url: Seq<char>) -> Option<Seq<(Seq<char>, Seq<char>)>>;

/// No pairs at all.
pub open spec fn no_pairs() -> Seq<(Seq<char>, Seq<char>)> {
    Seq::empty()
}

/// Parses `base` with `url::Url::parse`, appends the pairs to its query
/// with `query_pairs_mut().extend_pairs(..)` (form-urlencoded, joined by
/// `&`) and gives back the URL's serialization; a parse error comes back as
/// its `Display` text. The contract claims that the outcome is a function
/// of `base` and the pairs; that it is a URL exactly when `base` parses;
/// and, from the sources of `url` and `form_urlencoded`, that the query of
/// the result reads back as the pairs of `base`'s query followed by the
/// appended pairs (the serializer joins pairs with `&` and percent-encodes
/// each name and value, which the parser splits and decodes, skipping empty
/// pieces; a fragment stays after the query). The characters of the result
/// are not stated.
#[verifier::external_body]
pub(crate) fn url_with_query(base: &str, pairs: &Vec<(String, String)>) -> (r: Result<String, String>)
    ensures
        match r {
            Ok(u) => url_with_query_pairs(base@, pairs.deep_view()) == Ok::<Seq<char>, Seq<char>>(u@),
            Err(e) => url_with_query_pairs(base@, pairs.deep_view()) == Err::<Seq<char>, Seq<char>>(e@),
        },
        match r {
            Ok(u) => url_query_of(base@) matches Some(before) && url_query_of(u@) == Some(before + pairs.deep_view()),
            Err(_) => url_query_of(base@) is None,
        },
{
    match url::Url::parse(base) {
        Ok(mut u) => {
            u.query_pairs_mut().extend_pairs(pairs.iter());
            Ok(u.into())
        },
        Err(e) => Err(e.to_string()),
    }
}

/// Reads the query pairs of a URL with `url::Url::parse` and `query_pairs()`,
/// each name and value decoded into an owned string; nothing when the text
/// is no absolute URL. The contract claims that the outcome is the named
/// result for the text.
#[verifier::external_body]
fn url_query_pairs(url: &str) -> (r: Option<Vec<(String, String)>>)
    ensures
        match r {
            Some(v) => url_query_of(url@) == Some(v.deep_view()),
            None => url_query_of(url@) is None,
        },
{
    match url::Url::parse(url) {
        Ok(u) => Some(u.query_pairs().map(|(k, v)| (k.into_owned(), v.into_owned())).collect()),
        Err(_) => None,
    }
}

/// The value of the first query pair named `key`.
pub open spec fn first_value(pairs: Seq<(Seq<char>, Seq<char>)>, key: Seq<char>) -> Option<Seq<char>>
    decreases pairs.len(),
{
    if pairs.len() == 0 {
        None
    } else if pairs[0].0 == key {
        Some(pairs[0].1)
    } else {
        first_value(pairs.drop_first(), key)
    }
}

/// The first value for `key` in two lists of pairs one after the other is
/// the first list's, else the second's.
pub proof fn lemma_first_value_append(
    a: Seq<(Seq<char>, Seq<char>)>,
    b: Seq<(Seq<char>, Seq<char>)>,
    key: Seq<char>,
)
    ensures
        first_value(a + b, key) == (if first_value(a, key) is Some {
            first_value(a, key)
        } else {
            first_value(b, key)
        }),
    decreases a.len(),
{
    if a.len() == 0 {
        assert(a + b =~= b);
    } else {
        lemma_first_value_append(a.drop_first(), b, key);
        assert((a + b).drop_first() =~= a.drop_first() + b);
        assert((a + b)[0] == a[0]);
    }
}

/// The value of the first query parameter named `key` in a URL, as the
/// `url` crate decodes it; nothing when the URL does not parse or has no
/// such parameter.
pub fn query_value(url: &str, key: &str) -> (r: Option<String>)
    ensures
        match url_query_of(url@) {
            Some(pairs) => match first_value(pairs, key@) {
                Some(v) => r matches Some(s) && s@ == v,
                None => r is None,
            },
            None => r is None,
        },
{
    let pairs = match url_query_pairs(url) {
        Some(p) => p,
        None => {
            return None;
        },
    };
    let ghost dv = pairs.deep_view();
    assert(dv.skip(0) =~= dv);
    let mut i: usize = 0;
    while i < pairs.len()
        invariant
            i <= pairs@.len(),
            dv == pairs.deep_view(),
            url_query_of(url@) == Some(dv),
            first_value(dv, key@) == first_value(dv.skip(i as int), key@),
        decreases pairs@.len() - i,
    {
        assert(dv.skip(i as int).drop_first() =~= dv.skip(i + 1));
        assert(dv.skip(i as int)[0] == dv[i as int]);
        assert(dv[i as int] == (pairs@[i as int].0@, pairs@[i as int].1@));
        if str_eq(pairs[i].0.as_str(), key) {
            assert(dv.skip(i as int).len() > 0);
            assert(first_value(dv.skip(i as int), key@) == Some(dv[i as int].1));
            return Some(pairs[i].1.clone());
        }
        i = i + 1;
    }
    assert(dv.skip(i as int).len() == 0);
    None
}

} // verus!
