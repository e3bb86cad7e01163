//! Hiding the secrets of an authorisation redirect before a URL is shown or
//! logged: the values of its `code` and `state` query parameters.
use vstd::prelude::*;
use crate::text::str_eq;
use crate::rooms::opt_view;

verus! {

/// A query pair as plain text: name and value.
pub type PairView = (Seq<char>, Seq<char>);

/// The query pairs that the `url` crate decodes from the URL written as
/// `url` (`None` where the text does not parse as a URL).
pub uninterp spec fn url_query_pairs(url: Seq<char>) -> Option<Seq<PairView>>;

/// The URL written as `url` with its query removed, as the `url` crate
/// serialises it (`None` where the text does not parse as a URL).
pub uninterp spec fn url_without_query(url: Seq<char>) -> Option<Seq<char>>;

/// The URL written as `url` with `pairs` form-encoded and appended to its
/// query, as the `url` crate serialises it (`None` where the text does not
/// parse as a URL).
pub uninterp spec fn url_with_appended_pairs(url: Seq<char>, pairs: Seq<PairView>) -> Option<
    Seq<char>,
>;

/// The plain text of query pairs held as strings.
pub open spec fn pairs_view(v: Seq<(String, String)>) -> Seq<PairView> {
    Seq::new(v.len(), |i: int| (v[i].0@, v[i].1@))
}

/// The plain text of query pairs that may be missing.
pub open spec fn opt_pairs_view(v: Option<Vec<(String, String)>>) -> Option<Seq<PairView>> {
    match v {
        Some(p) => Some(pairs_view(p@)),
        None => None,
    }
}

/// Whether a query parameter carries a secret.
pub open spec fn is_secret_name(name: Seq<char>) -> bool {
    name == "code"@ || name == "state"@
}

/// The text that stands in for a secret value.
pub open spec fn redacted_marker() -> Seq<char> {
    "[REDACTED]"@
}

/// The pairs with every secret value replaced by the marker, in order.
pub open spec fn redact_pairs_spec(p: Seq<PairView>) -> Seq<PairView> {
    Seq::new(
        p.len(),
        |i: int|
            if is_secret_name(p[i].0) {
                (p[i].0, redacted_marker())
            } else {
                p[i]
            },
    )
}

/// The redacted form of the URL written as `url`: its query rebuilt from the
/// redacted pairs, and no query at all where it had no pairs.
pub open spec fn redact_url_spec(url: Seq<char>) -> Option<Seq<char>> {
    match url_query_pairs(url) {
        None => None,
        Some(p) => match url_without_query(url) {
            None => None,
            Some(base) => if p.len() == 0 {
                Some(base)
            } else {
                url_with_appended_pairs(base, redact_pairs_spec(p))
            },
        },
    }
}

/// Two lists of query pairs that differ at most in the values of secret
/// pairs: same length, same names in the same order, same values elsewhere.
pub open spec fn same_but_secrets(p1: Seq<PairView>, p2: Seq<PairView>) -> bool {
    &&& p1.len() == p2.len()
    &&& forall|i: int|
        0 <= i < p1.len() ==> (#[trigger] p1[i]).0 == p2[i].0 && (!is_secret_name(p1[i].0)
            ==> p1[i].1 == p2[i].1)
}

/// The secret values never reach the redacted form: two URLs whose query
/// pairs differ only in the values of `code` and `state`, and which are the
/// same once their queries are removed, are redacted to the same text.
pub proof fn law_redact_url_hides_secrets(u1: Seq<char>, u2: Seq<char>)
    requires
        url_without_query(u1) == url_without_query(u2),
        url_query_pairs(u1) is Some,
        url_query_pairs(u2) is Some,
        same_but_secrets(url_query_pairs(u1)->0, url_query_pairs(u2)->0),
    ensures
        redact_url_spec(u1) == redact_url_spec(u2),
{
    let p1 = url_query_pairs(u1)->0;
    let p2 = url_query_pairs(u2)->0;
    assert(redact_pairs_spec(p1) =~= redact_pairs_spec(p2)) by {
        assert forall|i: int| 0 <= i < p1.len() implies redact_pairs_spec(p1)[i]
            == redact_pairs_spec(p2)[i] by {
            assert(p1[i].0 == p2[i].0);
        }
    }
}

/// Parses `url` with `url::Url::parse` and collects `Url::query_pairs`,
/// each name and value decoded into an owned string.
#[verifier::external_body]
fn query_pairs_of(url: &str) -> (r: Option<Vec<(String, String)>>)
    ensures
        opt_pairs_view(r) == url_query_pairs(url@),
{
    match url::Url::parse(url) {
        Ok(u) => Some(u.query_pairs().map(|(k, v)| (k.into_owned(), v.into_owned())).collect()),
        Err(_) => None,
    }
}

/// Parses `url` with `url::Url::parse`, removes its query with
/// `Url::set_query(None)` and returns the serialisation.
#[verifier::external_body]
fn strip_query(url: &str) -> (r: Option<String>)
    ensures
        opt_view(r) == url_without_query(url@),
{
    match url::Url::parse(url) {
        Ok(mut u) => { u.set_query(None); Some(u.to_string()) },
        Err(_) => None,
    }
}

/// Parses `url` with `url::Url::parse`, appends `pairs` through
/// `Url::query_pairs_mut().extend_pairs(..)` and returns the serialisation.
#[verifier::external_body]
fn append_query_pairs(url: &str, pairs: &Vec<(String, String)>) -> (r: Option<String>)
    ensures
        opt_view(r) == url_with_appended_pairs(url@, pairs_view(pairs@)),
{
    match url::Url::parse(url) {
        Ok(mut u) => { u.query_pairs_mut().extend_pairs(pairs.iter()); Some(u.to_string()) },
        Err(_) => None,
    }
}

/// Replaces the value of every `code` and `state` pair by `[REDACTED]`,
/// keeping the names, the other pairs and the order.
pub fn redact_query_pairs(pairs: Vec<(String, String)>) -> (r: Vec<(String, String)>)
    ensures
        pairs_view(r@) == redact_pairs_spec(pairs_view(pairs@)),
{
    let mut r: Vec<(String, String)> = Vec::new();
    let mut i: usize = 0;
    while i < pairs.len()
        invariant
            i <= pairs.len(),
            r.len() == i,
            forall|j: int|
                0 <= j < i ==> (#[trigger] pairs_view(r@)[j]) == redact_pairs_spec(
                    pairs_view(pairs@),
                )[j],
        decreases pairs.len() - i,
    {
        let name = pairs[i].0.clone();
        let secret = str_eq(name.as_str(), "code") || str_eq(name.as_str(), "state");
        let value = if secret {
            String::from_str("[REDACTED]")
        } else {
            pairs[i].1.clone()
        };
        let ghost name_v = name@;
        let ghost value_v = value@;
        let ghost old_r = r@;
        r.push((name, value));
        proof {
            let p = pairs_view(pairs@);
            assert(p[i as int] == (pairs@[i as int].0@, pairs@[i as int].1@));
            assert(secret == is_secret_name(name_v));
            assert(pairs_view(r@)[i as int] == (name_v, value_v));
            assert forall|j: int| 0 <= j < i + 1 implies (#[trigger] pairs_view(r@)[j])
                == redact_pairs_spec(pairs_view(pairs@))[j] by {
                if j < i {
                    assert(r@[j] == old_r[j]);
                    assert(pairs_view(old_r)[j] == (old_r[j].0@, old_r[j].1@));
                    assert(pairs_view(r@)[j] == (r@[j].0@, r@[j].1@));
                }
            }
        }
        i = i + 1;
    }
    assert(pairs_view(r@) =~= redact_pairs_spec(pairs_view(pairs@)));
    r
}

/// The URL written as `url` with the values of its `code` and `state` query
/// parameters replaced by `[REDACTED]`, fit to be logged. `None` where the
/// text is not a URL.
pub fn redact_url(url: &str) -> (r: Option<String>)
    ensures
        opt_view(r) == redact_url_spec(url@),
{
    let pairs = match query_pairs_of(url) {
        Some(p) => p,
        None => return None,
    };
    let base = match strip_query(url) {
        Some(b) => b,
        None => return None,
    };
    if pairs.len() == 0 {
        return Some(base);
    }
    let redacted = redact_query_pairs(pairs);
    append_query_pairs(base.as_str(), &redacted)
}

} // verus!
