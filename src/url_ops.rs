//! What the library takes from the `url` crate. A URL is held as its
//! serialization; each function below parses it, makes one call into `url`,
//! and hands back plain values.
use vstd::prelude::*;

verus! {

#[verifier::external_type_specification]
#[verifier::external_body]
pub struct ExParseError(url::ParseError);

/// The serialization of the URL that `url::Url::parse` makes of a text, or
/// `None` where it refuses the text.
pub uninterp spec fn url_parse(text: Seq<char>) -> Option<Seq<char>>;

/// The scheme of the URL serialized as `s`, as `url::Url::scheme` gives it.
pub uninterp spec fn url_scheme(s: Seq<char>) -> Seq<char>;

/// The host of the URL serialized as `s`, as `url::Url::host_str` gives it.
pub uninterp spec fn url_host(s: Seq<char>) -> Option<Seq<char>>;

/// The path of the URL serialized as `s`, as `url::Url::path` gives it.
pub uninterp spec fn url_path(s: Seq<char>) -> Seq<char>;

/// The decoded name/value pairs of the query of the URL serialized as `s`, in
/// order, as `url::Url::query_pairs` gives them.
pub uninterp spec fn url_query_pairs(s: Seq<char>) -> Seq<(Seq<char>, Seq<char>)>;

/// The serialization after `url::Url::set_scheme(scheme)` on the URL serialized
/// as `s`, or `None` where the call refuses the new scheme.
pub uninterp spec fn url_set_scheme(s: Seq<char>, scheme: Seq<char>) -> Option<Seq<char>>;

/// The serialization after appending the pair `name=value` to the query of the
/// URL serialized as `s`, through `url::Url::query_pairs_mut`.
pub uninterp spec fn url_append_pair(s: Seq<char>, name: Seq<char>, value: Seq<char>) -> Seq<char>;

/// A scheme as `url` stores it: an ASCII letter, then ASCII lower-case
/// letters, digits, `+`, `-` or `.`.
pub open spec fn is_lower_scheme(s: Seq<char>) -> bool {
    &&& s.len() > 0
    &&& 'a' <= s[0] <= 'z'
    &&& forall|i: int|
        0 <= i < s.len() ==> ('a' <= #[trigger] s[i] <= 'z' || '0' <= s[i] <= '9' || s[i] == '+'
            || s[i] == '-' || s[i] == '.')
}

/// The pairs of a vector of owned strings, as sequences of characters.
pub open spec fn pairs_view(v: Seq<(String, String)>) -> Seq<(Seq<char>, Seq<char>)> {
    v.map_values(|p: (String, String)| (p.0@, p.1@))
}

/// A URL serialization: a text that `url::Url::parse` gives back unchanged.
pub open spec fn is_url(s: Seq<char>) -> bool {
    url_parse(s) == Some(s)
}

/// Relies on `url::Url::parse`: the serialization of the parsed URL, which
/// parses again to itself (the crate's own `check_invariants` asserts this of
/// every `Url`).
#[verifier::external_body]
pub(crate) fn parse_url(text: &str) -> (r: Result<String, url::ParseError>)
    ensures
        match r {
            Ok(s) => url_parse(text@) == Some(s@) && is_url(s@),
            Err(_) => url_parse(text@) is None,
        },
{
    match url::Url::parse(text) {
        Ok(u) => Ok(u.into()),
        Err(e) => Err(e),
    }
}

/// Relies on `url::Url::scheme`, read from the URL serialized as `s`: the
/// text before the first `:` of the serialization (`check_invariants` asserts
/// the `:` at that place).
#[verifier::external_body]
pub(crate) fn scheme_of(s: &str) -> (r: String)
    requires
        is_url(s@),
    ensures
        r@ == url_scheme(s@),
        r@.len() < s@.len(),
        s@.subrange(0, r@.len() as int) == r@,
        s@[r@.len() as int] == ':',
{
    match url::Url::parse(s) {
        Ok(u) => u.scheme().to_string(),
        Err(_) => String::new(),
    }
}

/// Relies on `url::Url::host_str`, read from the URL serialized as `s`.
#[verifier::external_body]
pub(crate) fn host_of(s: &str) -> (r: Option<String>)
    requires
        is_url(s@),
    ensures
        match r {
            Some(h) => url_host(s@) == Some(h@),
            None => url_host(s@) is None,
        },
{
    match url::Url::parse(s) {
        Ok(u) => u.host_str().map(String::from),
        Err(_) => None,
    }
}

/// Relies on `url::Url::path`, read from the URL serialized as `s`.
#[verifier::external_body]
pub(crate) fn path_of(s: &str) -> (r: String)
    requires
        is_url(s@),
    ensures
        r@ == url_path(s@),
{
    match url::Url::parse(s) {
        Ok(u) => u.path().to_string(),
        Err(_) => String::new(),
    }
}

/// Relies on `url::Url::query_pairs`, read from the URL serialized as `s`:
/// each pair form-urlencoded-decoded, in the order of the query.
#[verifier::external_body]
pub(crate) fn query_pairs_of(s: &str) -> (r: Vec<(String, String)>)
    requires
        is_url(s@),
    ensures
        pairs_view(r@) == url_query_pairs(s@),
{
    match url::Url::parse(s) {
        Ok(u) => u.query_pairs().map(|(k, v)| (k.into_owned(), v.into_owned())).collect(),
        Err(_) => Vec::new(),
    }
}

/// Relies on `url::Url::set_scheme`. The call rewrites the text before the
/// scheme's `:` and drops a port that is the new scheme's default; host, path
/// and query are copied unchanged. Setting a URL's own scheme again, other than
/// `file`, passes every test of the call and leaves the text as it was.
#[verifier::external_body]
pub(crate) fn set_scheme(s: &str, scheme: &str) -> (r: Option<String>)
    requires
        is_url(s@),
    ensures
        match r {
            Some(t) => {
                &&& url_set_scheme(s@, scheme@) == Some(t@)
                &&& is_url(t@)
                &&& is_lower_scheme(scheme@) ==> url_scheme(t@) == scheme@
                &&& url_host(t@) == url_host(s@)
                &&& url_path(t@) == url_path(s@)
                &&& url_query_pairs(t@) == url_query_pairs(s@)
            },
            None => url_set_scheme(s@, scheme@) is None,
        },
        url_scheme(s@) == scheme@ && scheme@ != "file"@ ==> r is Some && r->0@ == s@,
{
    match url::Url::parse(s) {
        Ok(mut u) => match u.set_scheme(scheme) {
            Ok(()) => Some(u.into()),
            Err(()) => None,
        },
        Err(_) => None,
    }
}

/// Relies on `url::Url::query_pairs_mut` and its `append_pair`: the pair is
/// form-urlencoded and added after the existing query, which the decoded
/// pairs then show as one more pair at the end. Nothing before the query
/// changes.
#[verifier::external_body]
pub(crate) fn append_pair(s: &str, name: &str, value: &str) -> (r: String)
    requires
        is_url(s@),
    ensures
        r@ == url_append_pair(s@, name@, value@),
        is_url(r@),
        url_scheme(r@) == url_scheme(s@),
        url_host(r@) == url_host(s@),
        url_path(r@) == url_path(s@),
        url_query_pairs(r@) == url_query_pairs(s@).push((name@, value@)),
{
    match url::Url::parse(s) {
        Ok(mut u) => {
            u.query_pairs_mut().append_pair(name, value);
            u.into()
        },
        Err(_) => String::new(),
    }
}

} // verus!
