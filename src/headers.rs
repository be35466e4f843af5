//! Which request headers the REST forwarding path passes on to the upstream.
use vstd::prelude::*;

verus! {

/// What `str::to_lowercase` returns for a text.
pub uninterp spec fn lower_of(s: Seq<char>) -> Seq<char>;

/// Relies on `str::to_lowercase`: the result depends on the characters alone.
#[verifier::external_body]
fn lowercase(s: &str) -> (r: String)
    ensures
        r@ == lower_of(s@),
{
    s.to_lowercase()
}

/// Header names, in lower case, that are never forwarded: hop-by-hop headers,
/// the host (taken from the target URL), the relay's own token header, and the
/// encoding negotiation.
pub open spec fn is_withheld(lowered: Seq<char>) -> bool {
    lowered == "host"@ || lowered == "connection"@ || lowered == "keep-alive"@ || lowered
        == "proxy-authenticate"@ || lowered == "proxy-authorization"@ || lowered == "te"@ || lowered
        == "trailers"@ || lowered == "transfer-encoding"@ || lowered == "upgrade"@ || lowered
        == "x-token"@ || lowered == "accept-encoding"@
}

/// Whether a header whose lower-cased name is `lowered` is withheld.
pub fn withheld_lowered(lowered: &String) -> (r: bool)
    ensures
        r == is_withheld(lowered@),
{
    *lowered == String::from_str("host") || *lowered == String::from_str("connection") || *lowered
        == String::from_str("keep-alive") || *lowered == String::from_str("proxy-authenticate")
        || *lowered == String::from_str("proxy-authorization") || *lowered == String::from_str("te")
        || *lowered == String::from_str("trailers") || *lowered == String::from_str(
        "transfer-encoding",
    ) || *lowered == String::from_str("upgrade") || *lowered == String::from_str("x-token")
        || *lowered == String::from_str("accept-encoding")
}

/// Whether a request header named `name` is passed on, whatever its case.
pub fn forwards_header(name: &str) -> (r: bool)
    ensures
        r == !is_withheld(lower_of(name@)),
{
    let lowered = lowercase(name);
    !withheld_lowered(&lowered)
}

} // verus!
