//! Composing and validating the URLs under which files and their QR
//! codes are served.

use vstd::prelude::*;

use crate::errors::Error;
use crate::textfmt::{push_dec_u16, spec_dec};

verus! {

/// The canonical URL shape: `scheme://host:port/namespace/?h=digest`.
pub open spec fn spec_url(
    scheme: Seq<char>,
    host: Seq<char>,
    port: u16,
    namespace: Seq<char>,
    digest: Seq<char>,
) -> Seq<char> {
    scheme + "://"@ + host + ":"@ + spec_dec(port as int) + "/"@ + namespace + "/?h="@ + digest
}

/// Whether a string parses as a well-formed URI.
pub uninterp spec fn spec_uri_ok(s: Seq<char>) -> bool;

/// Relies on http::Uri's FromStr implementation: whether a string
/// parses as a URI is a function of the string alone.
#[verifier::external_body]
fn parse_uri_ok(s: &str) -> (r: bool)
    ensures
        r == spec_uri_ok(s@),
{
    s.parse::<http::Uri>().is_ok()
}

/// Compose the URL `scheme://host:port/namespace/?h=digest`.
pub fn compose_url(scheme: &str, host: &str, port: u16, namespace: &str, digest: &str) -> (r:
    String)
    ensures
        r@ == spec_url(scheme@, host@, port, namespace@, digest@),
{
    let mut s = String::from_str(scheme);
    s.append("://");
    s.append(host);
    s.append(":");
    push_dec_u16(&mut s, port);
    s.append("/");
    s.append(namespace);
    s.append("/?h=");
    s.append(digest);
    proof {
        assert(s@ =~= spec_url(scheme@, host@, port, namespace@, digest@));
    }
    s
}

/// Compose the URL and validate its syntax: a composition that does not
/// parse as a URI is a construction error, never a silent fallback.
pub fn checked_url(scheme: &str, host: &str, port: u16, namespace: &str, digest: &str) -> (r:
    Result<String, Error>)
    ensures
        match r {
            Ok(u) => u@ == spec_url(scheme@, host@, port, namespace@, digest@) && spec_uri_ok(u@),
            Err(e) => match e {
                Error::Uri(u) => u@ == spec_url(scheme@, host@, port, namespace@, digest@)
                    && !spec_uri_ok(u@),
                _ => false,
            },
        },
{
    let url = compose_url(scheme, host, port, namespace, digest);
    if parse_uri_ok(url.as_str()) {
        Ok(url)
    } else {
        Err(Error::Uri(url))
    }
}

} // verus!
