//! The connection endpoint and the rule that keeps it secure: the scheme is
//! always the secure WebSocket scheme, and the query names the WebSocket
//! transport.
use vstd::prelude::*;

use crate::url_ops::{
    append_pair, host_of, is_url, pairs_view, parse_url, path_of, query_pairs_of, scheme_of,
    set_scheme, url_append_pair, url_host, url_parse, url_path, url_query_pairs, url_scheme,
    url_set_scheme,
};

verus! {

/// The secure WebSocket scheme.
pub open spec fn secure_scheme() -> Seq<char> {
    "wss"@
}

/// The query pair that names the WebSocket transport.
pub open spec fn transport_pair() -> (Seq<char>, Seq<char>) {
    ("transport"@, "websocket"@)
}

/// An endpoint already in secure form: secure scheme, transport pair present.
pub open spec fn is_secure(s: Seq<char>) -> bool {
    &&& url_scheme(s) == secure_scheme()
    &&& url_query_pairs(s).contains(transport_pair())
}

/// The serialization `s` with the transport pair appended, unless its query
/// already holds it.
pub open spec fn with_transport(s: Seq<char>) -> Seq<char> {
    if url_query_pairs(s).contains(transport_pair()) {
        s
    } else {
        url_append_pair(s, transport_pair().0, transport_pair().1)
    }
}

/// The text of the URL serialized as `s` with its scheme replaced by the
/// secure scheme, the `:` and all that follows it kept.
pub open spec fn rescheme_text(s: Seq<char>) -> Seq<char> {
    secure_scheme() + s.skip(url_scheme(s).len() as int)
}

/// The secure form of the endpoint serialized as `s`: its scheme set to the
/// secure scheme, then the transport pair added where missing. Where `url`
/// does not set the scheme in place (a scheme outside the special ones), the
/// text with its scheme replaced is parsed again. `None` where neither gives a
/// URL of the secure scheme.
pub open spec fn secured(s: Seq<char>) -> Option<Seq<char>> {
    match url_set_scheme(s, secure_scheme()) {
        Some(t) => Some(with_transport(t)),
        None => match url_parse(rescheme_text(s)) {
            Some(t) => if url_scheme(t) == secure_scheme() {
                Some(with_transport(t))
            } else {
                None
            },
            None => None,
        },
    }
}

/// Why an endpoint could not be had.
#[derive(Clone, Copy, Debug, PartialEq, Eq)]
pub enum EndpointError {
    /// The text is no URL.
    Parse(url::ParseError),
    /// The URL cannot be read under the secure scheme (it has no host).
    SchemeRefused,
}

/// A parsed URL, held as its serialization.
#[derive(Debug, PartialEq, Eq)]
pub struct Endpoint {
    text: String,
}

impl View for Endpoint {
    type V = Seq<char>;

    closed spec fn view(&self) -> Seq<char> {
        self.text@
    }
}

impl Endpoint {
    #[verifier::type_invariant]
    spec fn inv(&self) -> bool {
        is_url(self.text@)
    }

    /// Parses `text` as a URL.
    pub fn parse(text: &str) -> (r: Result<Endpoint, EndpointError>)
        ensures
            match r {
                Ok(e) => url_parse(text@) == Some(e@),
                Err(err) => url_parse(text@) is None && err is Parse,
            },
    {
        match parse_url(text) {
            Ok(s) => Ok(Endpoint { text: s }),
            Err(e) => Err(EndpointError::Parse(e)),
        }
    }

    /// The serialization.
    pub fn as_str(&self) -> (r: &str)
        ensures
            r@ == self@,
    {
        self.text.as_str()
    }

    /// The scheme, without its `:`.
    pub fn scheme(&self) -> (r: String)
        ensures
            r@ == url_scheme(self@),
    {
        proof {
            use_type_invariant(self);
        }
        scheme_of(self.text.as_str())
    }

    /// The host, where the URL has one.
    pub fn host(&self) -> (r: Option<String>)
        ensures
            match r {
                Some(h) => url_host(self@) == Some(h@),
                None => url_host(self@) is None,
            },
    {
        proof {
            use_type_invariant(self);
        }
        host_of(self.text.as_str())
    }

    /// The path.
    pub fn path(&self) -> (r: String)
        ensures
            r@ == url_path(self@),
    {
        proof {
            use_type_invariant(self);
        }
        path_of(self.text.as_str())
    }

    /// The decoded query pairs, in order.
    pub fn query_pairs(&self) -> (r: Vec<(String, String)>)
        ensures
            pairs_view(r@) == url_query_pairs(self@),
    {
        proof {
            use_type_invariant(self);
        }
        query_pairs_of(self.text.as_str())
    }

    /// The secure form of this endpoint: the scheme becomes the secure
    /// WebSocket scheme, and the transport pair is appended to the query
    /// unless it is there already. Where `url` sets the scheme in place (every
    /// special scheme but a host-less `file`), host, path and the pairs already
    /// in the query stay as they were. An endpoint already in secure form
    /// comes back unchanged.
    pub fn force_secure_scheme(&self) -> (r: Result<Endpoint, EndpointError>)
        ensures
            r is Ok <==> secured(self@) is Some,
            match r {
                Ok(e) => secured(self@) == Some(e@) && is_secure(e@),
                Err(err) => err is SchemeRefused,
            },
            r is Ok && url_set_scheme(self@, secure_scheme()) is Some ==> {
                let e = r->Ok_0@;
                &&& url_host(e) == url_host(self@)
                &&& url_path(e) == url_path(self@)
                &&& url_query_pairs(e) == if url_query_pairs(self@).contains(transport_pair()) {
                    url_query_pairs(self@)
                } else {
                    url_query_pairs(self@).push(transport_pair())
                }
            },
            url_set_scheme(self@, secure_scheme()) is Some ==> r is Ok,
            is_secure(self@) ==> r is Ok && r->Ok_0@ == self@,
    {
        proof {
            use_type_invariant(self);
            reveal_strlit("wss");
            reveal_strlit("file");
            assert(secure_scheme() != "file"@) by {
                assert(secure_scheme().len() != "file"@.len());
            }
        }
        match set_scheme(self.text.as_str(), "wss") {
            Some(t) => Ok(Endpoint::with_transport_pair(t)),
            None => {
                let scheme = scheme_of(self.text.as_str());
                let rest = self.text.as_str().substring_char(
                    scheme.as_str().unicode_len(),
                    self.text.as_str().unicode_len(),
                );
                let mut candidate = String::from_str("wss");
                candidate.append(rest);
                assert(candidate@ =~= rescheme_text(self@));
                match parse_url(candidate.as_str()) {
                    Ok(t) => {
                        if scheme_of(t.as_str()) == String::from_str("wss") {
                            Ok(Endpoint::with_transport_pair(t))
                        } else {
                            Err(EndpointError::SchemeRefused)
                        }
                    },
                    Err(_) => Err(EndpointError::SchemeRefused),
                }
            },
        }
    }

    /// The endpoint serialized as `t`, with the transport pair appended unless
    /// its query holds it already.
    fn with_transport_pair(t: String) -> (r: Endpoint)
        requires
            is_url(t@),
        ensures
            r@ == with_transport(t@),
            url_host(r@) == url_host(t@),
            url_path(r@) == url_path(t@),
            url_scheme(r@) == url_scheme(t@),
            url_query_pairs(r@).contains(transport_pair()),
            url_query_pairs(r@) == if url_query_pairs(t@).contains(transport_pair()) {
                url_query_pairs(t@)
            } else {
                url_query_pairs(t@).push(transport_pair())
            },
    {
        let pairs = query_pairs_of(t.as_str());
        if contains_pair(&pairs, "transport", "websocket") {
            Endpoint { text: t }
        } else {
            let u = append_pair(t.as_str(), "transport", "websocket");
            assert(url_query_pairs(u@).last() == transport_pair());
            Endpoint { text: u }
        }
    }
}

/// Parses `text` and brings it to secure form.
pub fn secure_endpoint(text: &str) -> (r: Result<Endpoint, EndpointError>)
    ensures
        match r {
            Ok(e) => {
                &&& url_parse(text@) is Some
                &&& secured(url_parse(text@)->0) == Some(e@)
                &&& is_secure(e@)
            },
            Err(EndpointError::Parse(_)) => url_parse(text@) is None,
            Err(EndpointError::SchemeRefused) => {
                &&& url_parse(text@) is Some
                &&& secured(url_parse(text@)->0) is None
            },
        },
{
    let e = Endpoint::parse(text)?;
    e.force_secure_scheme()
}

/// Whether `pairs` holds the pair `name=value`.
pub fn contains_pair(pairs: &Vec<(String, String)>, name: &str, value: &str) -> (r: bool)
    ensures
        r == pairs_view(pairs@).contains((name@, value@)),
{
    let n = String::from_str(name);
    let v = String::from_str(value);
    let mut i: usize = 0;
    while i < pairs.len()
        invariant
            i <= pairs.len(),
            n@ == name@,
            v@ == value@,
            forall|j: int| 0 <= j < i ==> pairs_view(pairs@)[j] != (name@, value@),
        decreases pairs.len() - i,
    {
        if pairs[i].0 == n && pairs[i].1 == v {
            assert(pairs_view(pairs@)[i as int] == (name@, value@));
            return true;
        }
        i += 1;
    }
    false
}

} // verus!
