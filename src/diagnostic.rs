//! The diagnostic text of the transport.
use vstd::prelude::*;

verus! {

/// The text that opens the diagnostic form of the transport.
pub open spec fn debug_prefix() -> Seq<char> {
    "WebsocketSecureTransport(base_url: "@
}

/// The diagnostic form of the transport, given the debug form of what its
/// `base_url` query returned: the name of the component, then that text in
/// full, then a closing parenthesis.
pub fn debug_text(base_url: &str) -> (r: String)
    ensures
        r@ == debug_prefix() + base_url@ + ")"@,
{
    let mut r = String::from_str("WebsocketSecureTransport(base_url: ");
    r.append(base_url);
    r.append(")");
    r
}

/// The diagnostic form holds the debug form of the base URL in full, right
/// after the component's name.
pub proof fn lemma_debug_text_holds_base_url(base_url: Seq<char>)
    ensures
        (debug_prefix() + base_url + ")"@).subrange(
            debug_prefix().len() as int,
            (debug_prefix().len() + base_url.len()) as int,
        ) == base_url,
{
    let t = debug_prefix() + base_url + ")"@;
    assert(t.subrange(debug_prefix().len() as int, (debug_prefix().len() + base_url.len()) as int)
        =~= base_url);
}

} // verus!
